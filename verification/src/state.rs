//! The records that the ledger keeps.

use crate::rank::DiamondRank;
use anchor_lang::prelude::Pubkey;
use vstd::prelude::*;
use vstd::utf8::encode_utf8;

verus! {

/// Highest share of the supply, in basis points, that a creator may keep.
pub const MAX_DEV_ALLOCATION_BPS: u16 = 1000;

/// Fewest days over which a creator's share vests.
pub const MIN_DEV_VESTING_DAYS: u16 = 180;

/// Fewest days for which liquidity stays locked.
pub const MIN_LP_LOCK_DAYS: u16 = 365;

/// Most bytes that a token name may take.
pub const MAX_NAME_LEN: usize = 32;

/// Most bytes that a token symbol may take.
pub const MAX_SYMBOL_LEN: usize = 10;

/// Most bytes of evidence that the record of a flagged wallet may hold.
pub const MAX_EVIDENCE_LEN: usize = 256;

/// Number of bytes that a text takes in UTF-8, which is what `String::len` counts.
pub open spec fn byte_len(text: Seq<char>) -> nat {
    encode_utf8(text).len()
}

/// Counts the bytes of a text.
pub fn text_len(text: &String) -> (len: usize)
    ensures
        len == byte_len(text@),
{
    broadcast use vstd::slice::group_slice_axioms;

    text.as_str().as_bytes().len()
}

/// The one record of the whole platform: who administers it, and running totals.
#[derive(Clone, Copy, Debug, PartialEq, Eq)]
pub struct Protocol {
    pub authority: Pubkey,
    pub total_launches: u64,
    pub total_holders: u64,
    pub total_bundlers_caught: u64,
    pub bump: u8,
}

/// Where a launch stands in its life.
#[derive(Clone, Copy, Debug, PartialEq, Eq, Structural)]
pub enum LaunchStatus {
    Pending,
    Active,
    Graduated,
    Failed,
}

/// A token launch and the safety settings it was created with.
#[derive(Clone, Debug, PartialEq, Eq)]
pub struct Launch {
    pub creator: Pubkey,
    pub name: String,
    pub symbol: String,
    pub total_supply: u64,
    pub dev_allocation_bps: u16,
    pub dev_vesting_days: u16,
    pub lp_lock_days: u16,
    pub holder_rewards_bps: u16,
    pub created_at: i64,
    pub launch_id: u64,
    pub status: LaunchStatus,
    pub total_raised: u64,
    pub holder_count: u64,
    pub bump: u8,
}

impl Launch {
    /// The safety settings that every launch keeps for its whole life.
    pub open spec fn is_safe(&self) -> bool {
        &&& self.dev_allocation_bps <= MAX_DEV_ALLOCATION_BPS
        &&& self.dev_vesting_days >= MIN_DEV_VESTING_DAYS
        &&& self.lp_lock_days >= MIN_LP_LOCK_DAYS
        &&& byte_len(self.name@) <= MAX_NAME_LEN
        &&& byte_len(self.symbol@) <= MAX_SYMBOL_LEN
    }
}

/// What one holder holds of one launch.
#[derive(Clone, Copy, Debug, PartialEq, Eq)]
pub struct Position {
    pub holder: Pubkey,
    pub launch: Pubkey,
    pub balance: u64,
    pub first_buy_timestamp: i64,
    pub last_activity_timestamp: i64,
    pub last_claim_timestamp: i64,
    pub diamond_rank: DiamondRank,
    pub multiplier_bps: u16,
    pub total_rewards_claimed: u64,
    pub bump: u8,
}

/// A wallet flagged for coordinated buying.
#[derive(Clone, Debug, PartialEq, Eq)]
pub struct Bundler {
    pub wallet: Pubkey,
    pub flagged_at: i64,
    pub evidence: String,
    pub incident_count: u32,
    pub bump: u8,
}

impl Bundler {
    /// The evidence fits the record, and at least one incident is on it.
    pub open spec fn is_valid(&self) -> bool {
        &&& byte_len(self.evidence@) <= MAX_EVIDENCE_LEN
        &&& self.incident_count >= 1
    }
}

} // verus!

//! The notifications that observers are owed, one per successful operation.

use crate::rank::DiamondRank;
use anchor_lang::prelude::Pubkey;
use vstd::prelude::*;

verus! {

/// A launch was created.
#[derive(Clone, Debug, PartialEq, Eq)]
pub struct LaunchCreated {
    pub launch_id: u64,
    pub creator: Pubkey,
    pub name: String,
    pub symbol: String,
    pub total_supply: u64,
    pub dev_allocation_bps: u16,
    pub dev_vesting_days: u16,
}

/// A holder bought, and the position was brought up to date.
#[derive(Clone, Copy, Debug, PartialEq, Eq)]
pub struct PositionUpdated {
    pub holder: Pubkey,
    pub launch: Pubkey,
    pub balance: u64,
    pub diamond_rank: DiamondRank,
    pub multiplier_bps: u16,
}

/// A holder claimed rewards.
#[derive(Clone, Copy, Debug, PartialEq, Eq)]
pub struct RewardsClaimed {
    pub holder: Pubkey,
    pub launch: Pubkey,
    pub amount: u64,
    pub diamond_rank: DiamondRank,
    pub multiplier_bps: u16,
}

/// A wallet was flagged as a bundler.
#[derive(Clone, Debug, PartialEq, Eq)]
pub struct BundlerFlagged {
    pub wallet: Pubkey,
    pub evidence: String,
}

} // verus!

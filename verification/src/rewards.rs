//! Rewards: one percent of the balance per claim, scaled by the multiplier of
//! the rank that the holding has at the moment of the claim.
//!
//! A claim is worked out and recorded; whether a pool can pay it is for the
//! caller to settle.

use crate::error::DiamondPadError;
use crate::events::RewardsClaimed;
use crate::keys::same_key;
use crate::rank::{calculate_diamond_rank, get_multiplier_bps, multiplier_of, rank_at};
use crate::state::Position;
use anchor_lang::prelude::Pubkey;
use vstd::prelude::*;

verus! {

/// Basis points that make 1.0x.
pub const BPS_DENOMINATOR: u64 = 10000;

/// One claim's share of the balance, as a divisor: one percent.
pub const BASE_RATE_DIVISOR: u64 = 100;

/// One percent of the balance, rounded down.
pub open spec fn base_rewards(balance: u64) -> int {
    balance as int / 100
}

/// The product from which a claim is taken: base rewards times multiplier.
pub open spec fn scaled_rewards(balance: u64, multiplier_bps: u16) -> int {
    base_rewards(balance) * multiplier_bps
}

/// What a claim on `balance` yields at `multiplier_bps`, rounded down.
pub open spec fn boosted_rewards(balance: u64, multiplier_bps: u16) -> int {
    scaled_rewards(balance, multiplier_bps) / 10000
}

/// What a claim on this position yields at `now`, by the rank it has then.
pub open spec fn rewards_due(position: Position, now: i64) -> int {
    boosted_rewards(
        position.balance,
        multiplier_of(rank_at(position.first_buy_timestamp as int, now as int)),
    )
}

/// Why a claim fails: the claimant is not the position's holder, or the
/// scaled product, or else the new total claimed, passes 64 bits. `None`
/// when it succeeds.
pub open spec fn claim_failure(position: Position, holder: Pubkey, now: i64) -> Option<
    DiamondPadError,
> {
    let multiplier = multiplier_of(rank_at(position.first_buy_timestamp as int, now as int));
    if position.holder != holder {
        Some(DiamondPadError::Unauthorized)
    } else if scaled_rewards(position.balance, multiplier) > u64::MAX {
        Some(DiamondPadError::ArithmeticOverflow)
    } else if position.total_rewards_claimed + rewards_due(position, now) > u64::MAX {
        Some(DiamondPadError::ArithmeticOverflow)
    } else {
        None
    }
}

/// The position after a claim at `now` that succeeds.
pub open spec fn position_after_claim(position: Position, now: i64) -> Position {
    let rank = rank_at(position.first_buy_timestamp as int, now as int);
    Position {
        diamond_rank: rank,
        multiplier_bps: multiplier_of(rank),
        total_rewards_claimed: (position.total_rewards_claimed + rewards_due(position, now)) as u64,
        last_claim_timestamp: now,
        ..position
    }
}

/// Claims rewards on `position` for `holder` at time `now`.
///
/// Rank and multiplier are worked out afresh from the start of the holding
/// and `now`; the ones on record are not read. The claim is one percent of
/// the balance, times the multiplier, over 10000, each division rounded
/// down. It is added to the total claimed. A claimant who is not the
/// position's holder is turned away, and a product or total that passes 64
/// bits fails; in both cases the position stays as it was.
pub fn claim_rewards(position: &mut Position, holder: Pubkey, now: i64) -> (result: Result<
    RewardsClaimed,
    DiamondPadError,
>)
    ensures
        result is Ok <==> claim_failure(*old(position), holder, now) is None,
        result is Err ==> *final(position) == *old(position) && Some(result->Err_0)
            == claim_failure(*old(position), holder, now),
        result matches Ok(event) ==> {
            &&& *final(position) == position_after_claim(*old(position), now)
            &&& final(position).total_rewards_claimed == old(position).total_rewards_claimed
                + rewards_due(*old(position), now)
            &&& event == (RewardsClaimed {
                holder: old(position).holder,
                launch: old(position).launch,
                amount: rewards_due(*old(position), now) as u64,
                diamond_rank: rank_at(old(position).first_buy_timestamp as int, now as int),
                multiplier_bps: multiplier_of(
                    rank_at(old(position).first_buy_timestamp as int, now as int),
                ),
            })
            &&& event.amount == rewards_due(*old(position), now)
        },
{
    if !same_key(&position.holder, &holder) {
        return Err(DiamondPadError::Unauthorized);
    }
    let rank = calculate_diamond_rank(position.first_buy_timestamp, now);
    let multiplier_bps: u16 = get_multiplier_bps(rank);
    let base: u64 = position.balance / BASE_RATE_DIVISOR;
    let scaled: u64 = match base.checked_mul(multiplier_bps as u64) {
        Some(scaled) => scaled,
        None => {
            return Err(DiamondPadError::ArithmeticOverflow);
        },
    };
    let boosted: u64 = scaled / BPS_DENOMINATOR;
    let total: u64 = match position.total_rewards_claimed.checked_add(boosted) {
        Some(total) => total,
        None => {
            return Err(DiamondPadError::ArithmeticOverflow);
        },
    };
    position.diamond_rank = rank;
    position.multiplier_bps = multiplier_bps;
    position.total_rewards_claimed = total;
    position.last_claim_timestamp = now;
    Ok(
        RewardsClaimed {
            holder: position.holder,
            launch: position.launch,
            amount: boosted,
            diamond_rank: rank,
            multiplier_bps,
        },
    )
}

/// A claim does not change what the next claim yields: at one and the same
/// `now`, with the balance untouched, a second claim is worth what the first
/// was, and where both succeed the total claimed has grown by twice that.
pub proof fn lemma_claim_amount_repeats(position: Position, holder: Pubkey, now: i64)
    ensures
        rewards_due(position_after_claim(position, now), now) == rewards_due(position, now),
        claim_failure(position, holder, now) is None && claim_failure(
            position_after_claim(position, now),
            holder,
            now,
        ) is None ==> position_after_claim(
            position_after_claim(position, now),
            now,
        ).total_rewards_claimed == position.total_rewards_claimed + 2 * rewards_due(position, now),
{
}

} // verus!

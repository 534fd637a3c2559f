//! Loyalty tiers: how long a position has been held decides its rank, and the
//! rank decides the reward multiplier.

use vstd::prelude::*;

verus! {

/// Seconds in one day.
pub const SECONDS_PER_DAY: i64 = 86400;

/// Loyalty tier of a position, lowest first.
#[derive(Clone, Copy, Debug, PartialEq, Eq, Structural)]
pub enum DiamondRank {
    Paper,
    Bronze,
    Silver,
    Gold,
    Platinum,
    Diamond,
}

impl DiamondRank {
    /// Place of a rank in the order Paper < Bronze < Silver < Gold < Platinum < Diamond.
    pub open spec fn level(self) -> nat {
        match self {
            DiamondRank::Paper => 0,
            DiamondRank::Bronze => 1,
            DiamondRank::Silver => 2,
            DiamondRank::Gold => 3,
            DiamondRank::Platinum => 4,
            DiamondRank::Diamond => 5,
        }
    }
}

/// Whole days between the first buy and `now`; none when `now` lies before the first buy.
pub open spec fn days_held(first_buy: int, now: int) -> nat {
    if now >= first_buy {
        ((now - first_buy) / 86400) as nat
    } else {
        0
    }
}

/// The rank that a number of whole days earns.
pub open spec fn rank_of_days(days: nat) -> DiamondRank {
    if days >= 180 {
        DiamondRank::Diamond
    } else if days >= 90 {
        DiamondRank::Platinum
    } else if days >= 60 {
        DiamondRank::Gold
    } else if days >= 30 {
        DiamondRank::Silver
    } else if days >= 7 {
        DiamondRank::Bronze
    } else {
        DiamondRank::Paper
    }
}

/// The rank of a position first bought at `first_buy`, seen at `now`.
pub open spec fn rank_at(first_buy: int, now: int) -> DiamondRank {
    rank_of_days(days_held(first_buy, now))
}

/// Reward multiplier of a rank in basis points, 10000 being 1.0x.
pub open spec fn multiplier_of(rank: DiamondRank) -> u16 {
    match rank {
        DiamondRank::Paper => 10000,
        DiamondRank::Bronze => 15000,
        DiamondRank::Silver => 20000,
        DiamondRank::Gold => 25000,
        DiamondRank::Platinum => 30000,
        DiamondRank::Diamond => 35000,
    }
}

/// Rank of a position from the time of its first buy and the current time,
/// both in seconds since the epoch. The difference is taken exactly, whatever
/// the two timestamps are; a first buy in the future counts as no time held.
pub fn calculate_diamond_rank(first_buy: i64, now: i64) -> (rank: DiamondRank)
    ensures
        rank == rank_at(first_buy as int, now as int),
{
    let held: i128 = now as i128 - first_buy as i128;
    let days: i128 = if held >= 0 {
        held / (SECONDS_PER_DAY as i128)
    } else {
        0
    };
    if days >= 180 {
        DiamondRank::Diamond
    } else if days >= 90 {
        DiamondRank::Platinum
    } else if days >= 60 {
        DiamondRank::Gold
    } else if days >= 30 {
        DiamondRank::Silver
    } else if days >= 7 {
        DiamondRank::Bronze
    } else {
        DiamondRank::Paper
    }
}

/// Reward multiplier of a rank in basis points.
pub fn get_multiplier_bps(rank: DiamondRank) -> (bps: u16)
    ensures
        bps == multiplier_of(rank),
{
    match rank {
        DiamondRank::Paper => 10000,
        DiamondRank::Bronze => 15000,
        DiamondRank::Silver => 20000,
        DiamondRank::Gold => 25000,
        DiamondRank::Platinum => 30000,
        DiamondRank::Diamond => 35000,
    }
}

/// A longer holding never earns a lower rank: of two durations in days, the
/// longer one's rank stands at least as high as the shorter one's.
pub proof fn lemma_rank_monotonic_in_days(d1: nat, d2: nat)
    requires
        d1 < d2,
    ensures
        rank_of_days(d1).level() <= rank_of_days(d2).level(),
{
}

/// For one first buy, a later moment never shows a lower rank, nor a lower
/// multiplier, than an earlier one.
pub proof fn lemma_rank_monotonic_in_time(first_buy: int, earlier: int, later: int)
    requires
        earlier <= later,
    ensures
        days_held(first_buy, earlier) <= days_held(first_buy, later),
        rank_at(first_buy, earlier).level() <= rank_at(first_buy, later).level(),
        multiplier_of(rank_at(first_buy, earlier)) <= multiplier_of(rank_at(first_buy, later)),
{
    if earlier >= first_buy {
        assert((earlier - first_buy) / 86400 <= (later - first_buy) / 86400) by {
            vstd::arithmetic::div_mod::lemma_div_is_ordered(
                earlier - first_buy,
                later - first_buy,
                86400,
            );
        }
    }
}

} // verus!

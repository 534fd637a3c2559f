//! Positions: one per holder and launch, brought up to date on every buy.

use crate::error::DiamondPadError;
use crate::events::PositionUpdated;
use crate::rank::{calculate_diamond_rank, get_multiplier_bps, multiplier_of, rank_at, DiamondRank};
use crate::state::{Launch, Position};
use anchor_lang::prelude::Pubkey;
use vstd::prelude::*;

verus! {

/// A buy opens a holding when no position is on record yet, or when the
/// recorded one holds nothing.
pub open spec fn opens_holding(existing: Option<Position>) -> bool {
    existing matches Some(position) ==> position.balance == 0
}

/// The balance on record before a buy.
pub open spec fn balance_before(existing: Option<Position>) -> u64 {
    match existing {
        Some(position) => position.balance,
        None => 0,
    }
}

/// Why recording a buy fails: the launch's holder count or the balance would
/// pass 64 bits. `None` when it succeeds.
pub open spec fn record_failure(holder_count: u64, existing: Option<Position>, amount: u64) -> Option<
    DiamondPadError,
> {
    if opens_holding(existing) && holder_count == u64::MAX {
        Some(DiamondPadError::ArithmeticOverflow)
    } else if balance_before(existing) + amount > u64::MAX {
        Some(DiamondPadError::ArithmeticOverflow)
    } else {
        None
    }
}

/// The position as a buy finds it. A buy that opens a holding writes the
/// holder, the launch and the bump, and starts the holding clock at `now`;
/// what an earlier holding claimed stays on record.
pub open spec fn position_entered(
    existing: Option<Position>,
    holder: Pubkey,
    launch_key: Pubkey,
    now: i64,
    bump: u8,
) -> Position {
    match existing {
        Some(position) => if position.balance == 0 {
            Position { holder, launch: launch_key, first_buy_timestamp: now, bump, ..position }
        } else {
            position
        },
        None => Position {
            holder,
            launch: launch_key,
            balance: 0,
            first_buy_timestamp: now,
            last_activity_timestamp: 0,
            last_claim_timestamp: 0,
            diamond_rank: DiamondRank::Paper,
            multiplier_bps: 0,
            total_rewards_claimed: 0,
            bump,
        },
    }
}

/// The position after a buy of `amount` at `now` that succeeds.
pub open spec fn position_after_buy(
    existing: Option<Position>,
    holder: Pubkey,
    launch_key: Pubkey,
    amount: u64,
    now: i64,
    bump: u8,
) -> Position {
    let entered = position_entered(existing, holder, launch_key, now, bump);
    let rank = rank_at(entered.first_buy_timestamp as int, now as int);
    Position {
        balance: (entered.balance + amount) as u64,
        last_activity_timestamp: now,
        diamond_rank: rank,
        multiplier_bps: multiplier_of(rank),
        ..entered
    }
}

/// Records a buy of `amount` by `holder` in `launch` at time `now`.
///
/// `existing` is the position on record for this holder and launch, if there
/// is one. Where there is none, or it holds nothing, the buy opens a holding:
/// the holding clock starts at `now` and the launch counts one holder more.
/// In every case the balance grows by `amount`, and rank and multiplier are
/// worked out afresh from the start of the holding and `now`. Sums that pass
/// 64 bits fail, and then the launch stays as it was.
pub fn record_position(
    launch: &mut Launch,
    existing: Option<Position>,
    holder: Pubkey,
    launch_key: Pubkey,
    amount: u64,
    now: i64,
    bump: u8,
) -> (result: Result<(Position, PositionUpdated), DiamondPadError>)
    ensures
        result is Ok <==> record_failure(old(launch).holder_count, existing, amount) is None,
        result is Err ==> *final(launch) == *old(launch) && Some(result->Err_0) == record_failure(
            old(launch).holder_count,
            existing,
            amount,
        ),
        result matches Ok((position, event)) ==> {
            &&& position == position_after_buy(existing, holder, launch_key, amount, now, bump)
            &&& position.balance == balance_before(existing) + amount
            &&& *final(launch) == (Launch {
                holder_count: if opens_holding(existing) {
                    (old(launch).holder_count + 1) as u64
                } else {
                    old(launch).holder_count
                },
                ..*old(launch)
            })
            &&& opens_holding(existing) ==> final(launch).holder_count == old(launch).holder_count
                + 1
            &&& event == (PositionUpdated {
                holder: position.holder,
                launch: position.launch,
                balance: position.balance,
                diamond_rank: position.diamond_rank,
                multiplier_bps: position.multiplier_bps,
            })
        },
        old(launch).is_safe() ==> final(launch).is_safe(),
{
    let mut position = match existing {
        Some(position) => position,
        None => Position {
            holder,
            launch: launch_key,
            balance: 0,
            first_buy_timestamp: now,
            last_activity_timestamp: 0,
            last_claim_timestamp: 0,
            diamond_rank: DiamondRank::Paper,
            multiplier_bps: 0,
            total_rewards_claimed: 0,
            bump,
        },
    };
    let opens: bool = position.balance == 0;
    let mut holder_count: u64 = launch.holder_count;
    if opens {
        position.holder = holder;
        position.launch = launch_key;
        position.first_buy_timestamp = now;
        position.bump = bump;
        holder_count = match holder_count.checked_add(1) {
            Some(count) => count,
            None => {
                return Err(DiamondPadError::ArithmeticOverflow);
            },
        };
    }
    position.balance = match position.balance.checked_add(amount) {
        Some(balance) => balance,
        None => {
            return Err(DiamondPadError::ArithmeticOverflow);
        },
    };
    position.last_activity_timestamp = now;
    position.diamond_rank = calculate_diamond_rank(position.first_buy_timestamp, now);
    position.multiplier_bps = get_multiplier_bps(position.diamond_rank);
    launch.holder_count = holder_count;
    let event = PositionUpdated {
        holder: position.holder,
        launch: position.launch,
        balance: position.balance,
        diamond_rank: position.diamond_rank,
        multiplier_bps: position.multiplier_bps,
    };
    Ok((position, event))
}

/// A second buy into a holding that the first buy opened: the balance is the
/// sum of the two amounts, the holding clock still stands where the first buy
/// set it, and the second buy counts no new holder.
pub proof fn lemma_second_buy_keeps_clock(
    existing: Option<Position>,
    holder: Pubkey,
    launch_key: Pubkey,
    first_amount: u64,
    first_now: i64,
    second_amount: u64,
    second_now: i64,
    bump: u8,
)
    requires
        opens_holding(existing),
        first_amount > 0,
        balance_before(existing) + first_amount + second_amount <= u64::MAX,
    ensures
        ({
            let first = position_after_buy(existing, holder, launch_key, first_amount, first_now, bump);
            let second = position_after_buy(
                Some(first),
                holder,
                launch_key,
                second_amount,
                second_now,
                bump,
            );
            &&& first.balance == first_amount
            &&& first.first_buy_timestamp == first_now
            &&& !opens_holding(Some(first))
            &&& second.balance == first_amount + second_amount
            &&& second.first_buy_timestamp == first_now
            &&& second.diamond_rank == rank_at(first_now as int, second_now as int)
        }),
{
}

} // verus!

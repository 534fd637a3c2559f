//! Creating launches: the safety settings are checked once, here, and no
//! operation changes them afterwards.

use crate::error::DiamondPadError;
use crate::events::LaunchCreated;
use crate::state::{
    byte_len, text_len, Launch, LaunchStatus, Protocol, MAX_DEV_ALLOCATION_BPS, MAX_NAME_LEN,
    MAX_SYMBOL_LEN, MIN_DEV_VESTING_DAYS, MIN_LP_LOCK_DAYS,
};
use anchor_lang::prelude::Pubkey;
use vstd::prelude::*;

verus! {

/// The settings of a launch that decide whether it may be created.
pub struct LaunchRequest {
    pub name: Seq<char>,
    pub symbol: Seq<char>,
    pub dev_allocation_bps: u16,
    pub dev_vesting_days: u16,
    pub lp_lock_days: u16,
}

impl LaunchRequest {
    /// All five safety settings are met.
    pub open spec fn is_safe(self) -> bool {
        &&& self.dev_allocation_bps <= MAX_DEV_ALLOCATION_BPS
        &&& self.dev_vesting_days >= MIN_DEV_VESTING_DAYS
        &&& self.lp_lock_days >= MIN_LP_LOCK_DAYS
        &&& byte_len(self.name) <= MAX_NAME_LEN
        &&& byte_len(self.symbol) <= MAX_SYMBOL_LEN
    }

    /// The first setting that is not met, in the order in which they are
    /// checked: allocation, vesting, lock, name, symbol.
    pub open spec fn rejection(self) -> Option<DiamondPadError> {
        if self.dev_allocation_bps > MAX_DEV_ALLOCATION_BPS {
            Some(DiamondPadError::DevAllocationTooHigh)
        } else if self.dev_vesting_days < MIN_DEV_VESTING_DAYS {
            Some(DiamondPadError::VestingTooShort)
        } else if self.lp_lock_days < MIN_LP_LOCK_DAYS {
            Some(DiamondPadError::LpLockTooShort)
        } else if byte_len(self.name) > MAX_NAME_LEN {
            Some(DiamondPadError::NameTooLong)
        } else if byte_len(self.symbol) > MAX_SYMBOL_LEN {
            Some(DiamondPadError::SymbolTooLong)
        } else {
            None
        }
    }

    /// Why creating this launch fails when the platform has counted
    /// `total_launches` so far: a setting that is not met, or else a counter
    /// that cannot go further. `None` when it succeeds.
    pub open spec fn failure(self, total_launches: u64) -> Option<DiamondPadError> {
        if self.rejection() is Some {
            self.rejection()
        } else if total_launches == u64::MAX {
            Some(DiamondPadError::ArithmeticOverflow)
        } else {
            None
        }
    }
}

/// The request that the arguments of `create_launch` make.
pub open spec fn launch_request(
    name: Seq<char>,
    symbol: Seq<char>,
    dev_allocation_bps: u16,
    dev_vesting_days: u16,
    lp_lock_days: u16,
) -> LaunchRequest {
    LaunchRequest { name, symbol, dev_allocation_bps, dev_vesting_days, lp_lock_days }
}

/// The launch counter after one attempt: one more where the attempt
/// succeeds, unchanged where it fails.
pub open spec fn counter_after(total_launches: u64, request: LaunchRequest) -> u64 {
    if request.failure(total_launches) is None {
        (total_launches + 1) as u64
    } else {
        total_launches
    }
}

/// The launch counter after a run of attempts, made in order.
pub open spec fn counter_after_all(total_launches: u64, requests: Seq<LaunchRequest>) -> u64
    decreases requests.len(),
{
    if requests.len() == 0 {
        total_launches
    } else {
        counter_after(counter_after_all(total_launches, requests.drop_last()), requests.last())
    }
}

/// How many of the requests meet all safety settings.
pub open spec fn safe_count(requests: Seq<LaunchRequest>) -> nat
    decreases requests.len(),
{
    if requests.len() == 0 {
        0
    } else {
        safe_count(requests.drop_last()) + if requests.last().is_safe() {
            1nat
        } else {
            0nat
        }
    }
}

/// Creates a launch for `creator` at time `now`.
///
/// The settings are checked in the order allocation, vesting, lock, name,
/// symbol, and the first one that is not met is reported. The launch takes
/// the platform's launch counter as its identifier, and the counter goes up
/// by one. On failure the platform record stays as it was.
pub fn create_launch(
    protocol: &mut Protocol,
    creator: Pubkey,
    name: String,
    symbol: String,
    total_supply: u64,
    dev_allocation_bps: u16,
    dev_vesting_days: u16,
    lp_lock_days: u16,
    holder_rewards_bps: u16,
    now: i64,
    bump: u8,
) -> (result: Result<(Launch, LaunchCreated), DiamondPadError>)
    ensures
        result is Ok <==> launch_request(
            name@,
            symbol@,
            dev_allocation_bps,
            dev_vesting_days,
            lp_lock_days,
        ).failure(old(protocol).total_launches) is None,
        result is Err ==> *final(protocol) == *old(protocol) && Some(result->Err_0)
            == launch_request(
            name@,
            symbol@,
            dev_allocation_bps,
            dev_vesting_days,
            lp_lock_days,
        ).failure(old(protocol).total_launches),
        final(protocol).total_launches == counter_after(
            old(protocol).total_launches,
            launch_request(name@, symbol@, dev_allocation_bps, dev_vesting_days, lp_lock_days),
        ),
        final(protocol).authority == old(protocol).authority,
        final(protocol).total_holders == old(protocol).total_holders,
        final(protocol).total_bundlers_caught == old(protocol).total_bundlers_caught,
        final(protocol).bump == old(protocol).bump,
        result matches Ok((launch, event)) ==> {
            &&& final(protocol).total_launches == old(protocol).total_launches + 1
            &&& launch.is_safe()
            &&& launch.launch_id == old(protocol).total_launches
            &&& launch.creator == creator
            &&& launch.name@ == name@
            &&& launch.symbol@ == symbol@
            &&& launch.total_supply == total_supply
            &&& launch.dev_allocation_bps == dev_allocation_bps
            &&& launch.dev_vesting_days == dev_vesting_days
            &&& launch.lp_lock_days == lp_lock_days
            &&& launch.holder_rewards_bps == holder_rewards_bps
            &&& launch.created_at == now
            &&& launch.status == LaunchStatus::Pending
            &&& launch.total_raised == 0
            &&& launch.holder_count == 0
            &&& launch.bump == bump
            &&& event.launch_id == launch.launch_id
            &&& event.creator == creator
            &&& event.name@ == name@
            &&& event.symbol@ == symbol@
            &&& event.total_supply == total_supply
            &&& event.dev_allocation_bps == dev_allocation_bps
            &&& event.dev_vesting_days == dev_vesting_days
        },
{
    if dev_allocation_bps > MAX_DEV_ALLOCATION_BPS {
        return Err(DiamondPadError::DevAllocationTooHigh);
    }
    if dev_vesting_days < MIN_DEV_VESTING_DAYS {
        return Err(DiamondPadError::VestingTooShort);
    }
    if lp_lock_days < MIN_LP_LOCK_DAYS {
        return Err(DiamondPadError::LpLockTooShort);
    }
    if text_len(&name) > MAX_NAME_LEN {
        return Err(DiamondPadError::NameTooLong);
    }
    if text_len(&symbol) > MAX_SYMBOL_LEN {
        return Err(DiamondPadError::SymbolTooLong);
    }
    let launch_id: u64 = protocol.total_launches;
    let next: u64 = match launch_id.checked_add(1) {
        Some(next) => next,
        None => {
            return Err(DiamondPadError::ArithmeticOverflow);
        },
    };
    let event = LaunchCreated {
        launch_id,
        creator,
        name: name.clone(),
        symbol: symbol.clone(),
        total_supply,
        dev_allocation_bps,
        dev_vesting_days,
    };
    let launch = Launch {
        creator,
        name,
        symbol,
        total_supply,
        dev_allocation_bps,
        dev_vesting_days,
        lp_lock_days,
        holder_rewards_bps,
        created_at: now,
        launch_id,
        status: LaunchStatus::Pending,
        total_raised: 0,
        holder_count: 0,
        bump,
    };
    protocol.total_launches = next;
    Ok((launch, event))
}

/// A request is turned down for one of its settings exactly when it is not safe.
pub proof fn lemma_rejected_iff_unsafe(request: LaunchRequest)
    ensures
        request.rejection() is None <==> request.is_safe(),
{
}

/// While the launch counter has room, creating a launch succeeds exactly when
/// the allocation is at most 1000 basis points, vesting lasts at least 180
/// days, the lock at least 365 days, the name takes at most 32 bytes and the
/// symbol at most 10.
pub proof fn lemma_launch_succeeds_iff_safe(request: LaunchRequest, total_launches: u64)
    requires
        total_launches < u64::MAX,
    ensures
        request.failure(total_launches) is None <==> request.is_safe(),
        request.failure(total_launches) is None <==> {
            &&& request.dev_allocation_bps <= 1000
            &&& request.dev_vesting_days >= 180
            &&& request.lp_lock_days >= 365
            &&& byte_len(request.name) <= 32
            &&& byte_len(request.symbol) <= 10
        },
{
}

/// On a platform that has counted no launch yet, after any run of attempts
/// the counter equals the number of attempts that succeeded, as long as that
/// number fits the counter. So the launch that succeeds as the N-th finds the
/// counter at N-1, which becomes its identifier, and leaves it at N.
pub proof fn lemma_launch_ids_count_successes(requests: Seq<LaunchRequest>)
    requires
        safe_count(requests) <= u64::MAX,
    ensures
        counter_after_all(0, requests) == safe_count(requests),
        requests.len() > 0 && requests.last().is_safe() ==> {
            &&& requests.last().failure(counter_after_all(0, requests.drop_last())) is None
            &&& counter_after_all(0, requests.drop_last()) == safe_count(requests) - 1
        },
    decreases requests.len(),
{
    if requests.len() > 0 {
        lemma_launch_ids_count_successes(requests.drop_last());
    }
}

} // verus!

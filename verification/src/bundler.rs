//! The register of wallets flagged for coordinated buying.

use crate::error::DiamondPadError;
use crate::events::BundlerFlagged;
use crate::keys::same_key;
use crate::state::{byte_len, Bundler, Protocol, MAX_EVIDENCE_LEN};
use anchor_lang::prelude::Pubkey;
use vstd::prelude::*;

verus! {

/// Why flagging fails: the caller is not the platform's authority, or the
/// count of flagged wallets cannot go further. `None` when it succeeds.
pub open spec fn flag_failure(protocol: Protocol, authority: Pubkey) -> Option<DiamondPadError> {
    if protocol.authority != authority {
        Some(DiamondPadError::Unauthorized)
    } else if protocol.total_bundlers_caught == u64::MAX {
        Some(DiamondPadError::ArithmeticOverflow)
    } else {
        None
    }
}

/// Flags `flagged_wallet` as a bundler at time `now`, on the word of
/// `authority`, who must be the platform's authority.
///
/// The record made is the wallet's first: it counts one incident. The
/// evidence is kept as given; it must fit the record, which holds 256 bytes
/// of it (`text_len` counts them). The platform counts one flagged wallet
/// more. On failure the platform record stays as it was.
pub fn flag_bundler(
    protocol: &mut Protocol,
    authority: Pubkey,
    flagged_wallet: Pubkey,
    evidence: String,
    now: i64,
    bump: u8,
) -> (result: Result<(Bundler, BundlerFlagged), DiamondPadError>)
    requires
        byte_len(evidence@) <= MAX_EVIDENCE_LEN,
    ensures
        result is Ok <==> flag_failure(*old(protocol), authority) is None,
        result is Err ==> *final(protocol) == *old(protocol) && Some(result->Err_0)
            == flag_failure(*old(protocol), authority),
        result matches Ok((bundler, event)) ==> {
            &&& *final(protocol) == (Protocol {
                total_bundlers_caught: (old(protocol).total_bundlers_caught + 1) as u64,
                ..*old(protocol)
            })
            &&& final(protocol).total_bundlers_caught == old(protocol).total_bundlers_caught + 1
            &&& bundler.is_valid()
            &&& bundler.wallet == flagged_wallet
            &&& bundler.flagged_at == now
            &&& bundler.evidence@ == evidence@
            &&& bundler.incident_count == 1
            &&& bundler.bump == bump
            &&& event.wallet == flagged_wallet
            &&& event.evidence@ == evidence@
        },
{
    if !same_key(&protocol.authority, &authority) {
        return Err(DiamondPadError::Unauthorized);
    }
    let caught: u64 = match protocol.total_bundlers_caught.checked_add(1) {
        Some(caught) => caught,
        None => {
            return Err(DiamondPadError::ArithmeticOverflow);
        },
    };
    let event = BundlerFlagged { wallet: flagged_wallet, evidence: evidence.clone() };
    let bundler = Bundler { wallet: flagged_wallet, flagged_at: now, evidence, incident_count: 1, bump };
    protocol.total_bundlers_caught = caught;
    Ok((bundler, event))
}

} // verus!

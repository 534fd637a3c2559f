//! Setting the platform up.

use crate::state::Protocol;
use anchor_lang::prelude::Pubkey;
use vstd::prelude::*;

verus! {

/// The platform record as it stands at the start: administered by
/// `authority`, with nothing counted yet.
pub fn initialize(authority: Pubkey, bump: u8) -> (protocol: Protocol)
    ensures
        protocol == (Protocol {
            authority,
            total_launches: 0,
            total_holders: 0,
            total_bundlers_caught: 0,
            bump,
        }),
{
    Protocol { authority, total_launches: 0, total_holders: 0, total_bundlers_caught: 0, bump }
}

} // verus!

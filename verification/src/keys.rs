//! Identities of wallets and records.

use anchor_lang::prelude::Pubkey;
use vstd::prelude::*;

verus! {

/// `Pubkey`, the 32-byte identity of a wallet or a record. The ledger carries
/// keys through and compares them; it never looks inside one.
#[verifier::external_type_specification]
#[verifier::external_body]
pub struct ExPubkey(anchor_lang::prelude::Pubkey);

/// `Pubkey`'s `clone`, which is derived for a `Copy` type made of 32 bytes:
/// the clone is the key itself.
pub assume_specification[ <Pubkey as Clone>::clone ](key: &Pubkey) -> (copy: Pubkey)
    ensures
        copy == *key,
;

/// Compares two keys with `Pubkey`'s own `==`, which is derived over the 32
/// bytes that a key consists of. The contract takes that comparison to be
/// equality of the keys: two keys are the same exactly when their bytes are.
#[verifier::external_body]
pub(crate) fn same_key(a: &Pubkey, b: &Pubkey) -> (same: bool)
    ensures
        same == (*a == *b),
{
    a == b
}

} // verus!

//! Why an operation was refused.

use vstd::prelude::*;

verus! {

/// The reasons for which an operation fails. A failed operation changes nothing.
#[derive(Clone, Copy, Debug, PartialEq, Eq, Structural)]
pub enum DiamondPadError {
    /// The creator's allocation exceeds 10% (1000 basis points).
    DevAllocationTooHigh,
    /// The creator's vesting lasts less than 180 days.
    VestingTooShort,
    /// Liquidity is locked for less than 365 days.
    LpLockTooShort,
    /// The token name takes more than 32 bytes.
    NameTooLong,
    /// The token symbol takes more than 10 bytes.
    SymbolTooLong,
    /// The caller is not the one entitled to the operation.
    Unauthorized,
    /// A sum or product does not fit in 64 bits.
    ArithmeticOverflow,
}

} // verus!

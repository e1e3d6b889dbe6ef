//! The typed failures of every operation. Input validation and precondition
//! violations are caller-correctable; `ArithmeticOverflow` is surfaced
//! distinctly so an operator can tell bad input from an invariant breach.

use vstd::prelude::*;

verus! {

#[derive(Clone, Copy, Debug, PartialEq, Eq, Structural)]
pub enum ErrorCode {
    /// A claim came less than a day after the previous one.
    ClaimTooSoon,
    /// The amount is below the minimum of one token.
    AmountTooSmall,
    /// The amount exceeds the maximum limit.
    AmountTooLarge,
    /// The source balance is below the requested amount.
    InsufficientBalance,
    /// The two balances reference different token types.
    MintMismatch,
    /// The lock period has not ended yet.
    StillLocked,
    /// The custody pool holds less than the owed total.
    InsufficientVaultBalance,
    /// The lock duration is below the minimum.
    DurationTooShort,
    /// The lock duration exceeds the maximum.
    DurationTooLong,
    /// A checked arithmetic step overflowed.
    ArithmeticOverflow,
    /// No record matches the given owner; the caller is not entitled to act.
    OwnershipMismatch,
    /// The token name is longer than 32 bytes.
    NameTooLong,
    /// The token symbol is longer than 10 bytes.
    SymbolTooLong,
    /// The token URI is longer than 200 bytes.
    UriTooLong,
    /// The token name is empty.
    NameEmpty,
    /// The token symbol is empty.
    SymbolEmpty,
    /// The token URI is empty.
    UriEmpty,
    /// The token URI starts with neither `https://` nor `ipfs://`.
    InvalidUriFormat,
}

} // verus!

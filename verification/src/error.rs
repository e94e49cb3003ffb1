//! The kinds of failure a pool transaction can end in.

use vstd::prelude::*;

verus! {

/// Why a transaction was rejected. Every rejection leaves all records as they were.
#[derive(Clone, Copy, Debug, PartialEq, Eq, Structural)]
pub enum SwapError {
    /// An amount would exceed the range of `u64`.
    CalculationOverflow,
    /// An amount cannot be computed: the pool's rate is zero.
    InvalidAmount,
    /// The seeds derive no address, or not the address that was presented.
    InvalidSeeds,
    /// The authorizer is not the control authority of the record to be debited.
    AuthorityMismatch,
    /// A vault that was presented is not the one the pool is bound to.
    VaultMismatch,
    /// The record to be debited holds less than the amount.
    InsufficientFunds,
    /// The pool record exists already.
    DuplicateInitialization,
}

/// The first of two reasons for a rejection: `first` where there is one, else `then`.
pub open spec fn first_of(first: Option<SwapError>, then: Option<SwapError>) -> Option<SwapError> {
    if first is Some {
        first
    } else {
        then
    }
}

} // verus!

//! The error taxonomy of the ledger. Every failed operation aborts without
//! mutating any record and reports one of these reasons.

use vstd::prelude::*;

verus! {

/// Why an operation was rejected.
#[derive(Clone, Copy, Debug, PartialEq, Eq, Structural)]
pub enum SimchainError {
    /// The supplied identifier could not be mapped to a record address.
    InvalidSimNumber,
    /// The amount of a deposit or transfer was zero.
    InvalidAmount,
    /// The sender's balance is smaller than the amount to transfer.
    InsufficientBalance,
    /// The signer is not the owner of the record it tried to mutate.
    Unauthorized,
    /// The balance would have left the unsigned 64-bit range.
    ArithmeticOverflow,
    /// The PIN hash was all-zero, a credential too weak to accept.
    WeakPin,
    /// The operation was not the first instruction of its batch.
    CpiNotAllowed,
}

} // verus!

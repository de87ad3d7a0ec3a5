//! Failure codes of the exchange authority.

use vstd::prelude::*;

verus! {

/// Why an operation was rejected. Every rejection leaves all state as it was.
#[derive(Clone, Copy, Debug, PartialEq, Eq, Structural)]
pub enum SwapError {
    /// A rate component was zero.
    InvalidRatio,
    /// The amount offered, or the amount it converts to, was zero.
    InvalidAmount,
    /// A checked multiplication, division or accumulation left the 64-bit range.
    Overflow,
    /// The caller is not the identity that the operation is reserved for.
    AuthorizationFailure,
    /// A supplied account is not the one that the configuration record names.
    AccountMismatch,
    /// The account to debit holds less than the amount to move.
    InsufficientBalance,
}

impl SwapError {
    /// The message shown for this failure.
    pub fn message(&self) -> (text: &'static str)
        ensures
            text@ == self.message_spec(),
    {
        match self {
            SwapError::InvalidRatio => "Invalid swap ratio",
            SwapError::InvalidAmount => "Invalid amount",
            SwapError::Overflow => "Arithmetic overflow",
            SwapError::AuthorizationFailure => "Caller is not authorized",
            SwapError::AccountMismatch => "Account does not match the swap state",
            SwapError::InsufficientBalance => "Insufficient balance",
        }
    }

    /// The message of each failure, as a sequence of characters.
    pub open spec fn message_spec(&self) -> Seq<char> {
        match self {
            SwapError::InvalidRatio => "Invalid swap ratio"@,
            SwapError::InvalidAmount => "Invalid amount"@,
            SwapError::Overflow => "Arithmetic overflow"@,
            SwapError::AuthorizationFailure => "Caller is not authorized"@,
            SwapError::AccountMismatch => "Account does not match the swap state"@,
            SwapError::InsufficientBalance => "Insufficient balance"@,
        }
    }
}

} // verus!

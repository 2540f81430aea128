//! The flat error enumeration shared by every escrow operation.

use vstd::prelude::*;

verus! {

/// Every way an escrow operation can fail. Errors are returned as values,
/// never raised: a precondition violation is reported to the caller, who owns
/// the retry policy.
#[derive(Clone, Copy, Debug, PartialEq, Eq, Structural)]
pub enum EscrowError {
    AgreementAlreadyExists,
    AgreementNotFound,
    TransactionNotFound,
    InvalidTransactionState,
    DisputeNotFound,
    InvalidDisputeState,
    Unauthorized,
    InsufficientFunds,
    DeadlineExceeded,
}

impl EscrowError {
    /// The human-readable description of this error, as a sequence of
    /// characters.
    pub open spec fn message(&self) -> Seq<char> {
        match self {
            EscrowError::AgreementAlreadyExists => "Agreement already exists"@,
            EscrowError::AgreementNotFound => "Agreement not found"@,
            EscrowError::TransactionNotFound => "Transaction not found"@,
            EscrowError::InvalidTransactionState => "Invalid transaction state"@,
            EscrowError::DisputeNotFound => "Dispute not found"@,
            EscrowError::InvalidDisputeState => "Invalid dispute state"@,
            EscrowError::Unauthorized => "Unauthorized action"@,
            EscrowError::InsufficientFunds => "Insufficient funds"@,
            EscrowError::DeadlineExceeded => "Deadline exceeded"@,
        }
    }

    /// Converts the error to a human-readable string.
    pub fn to_string(&self) -> (r: &'static str)
        ensures
            r@ == self.message(),
    {
        match self {
            EscrowError::AgreementAlreadyExists => "Agreement already exists",
            EscrowError::AgreementNotFound => "Agreement not found",
            EscrowError::TransactionNotFound => "Transaction not found",
            EscrowError::InvalidTransactionState => "Invalid transaction state",
            EscrowError::DisputeNotFound => "Dispute not found",
            EscrowError::InvalidDisputeState => "Invalid dispute state",
            EscrowError::Unauthorized => "Unauthorized action",
            EscrowError::InsufficientFunds => "Insufficient funds",
            EscrowError::DeadlineExceeded => "Deadline exceeded",
        }
    }
}

} // verus!

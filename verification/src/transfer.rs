//! The kinds of transfer and the ways a transfer can fail.

use vstd::prelude::*;

verus! {

/// Which balance of the source is debited and which balance of the
/// destination is credited.
#[derive(Clone, Copy, Debug, PartialEq, Eq, Structural)]
pub enum TransferType {
    AvailableToAvailable,
    AvailableToFrozen,
    FrozenToAvailable,
}

/// Why a transfer was refused.
#[derive(Clone, Copy, Debug, PartialEq, Eq, Structural)]
pub enum TransferError {
    /// The amount was negative.
    InvalidAmount,
    /// The balance to debit held less than the amount.
    InsufficientBalance,
}

impl TransferType {
    /// Whether this kind debits the frozen balance of the source.
    pub open spec fn debits_frozen(self) -> bool {
        self == TransferType::FrozenToAvailable
    }

    /// Whether this kind credits the frozen balance of the destination.
    pub open spec fn credits_frozen(self) -> bool {
        self == TransferType::AvailableToFrozen
    }
}

impl TransferError {
    /// The message that describes this error.
    pub fn message(&self) -> (s: &'static str)
        ensures
            s == match *self {
                TransferError::InvalidAmount => "Amount must be positive",
                TransferError::InsufficientBalance => "Insufficient balance",
            },
    {
        match self {
            TransferError::InvalidAmount => "Amount must be positive",
            TransferError::InsufficientBalance => "Insufficient balance",
        }
    }
}

} // verus!

//! The error taxonomy shared by every fallible operation of the crate.

use vstd::prelude::*;

verus! {

/// Every failure the core can report.  All of them are recoverable, typed
/// conditions handed back to the caller; none is fatal.
#[derive(Clone, Copy, Debug, PartialEq, Eq, Structural)]
pub enum IrisError {
    /// The caller does not own the record it asked about.
    Unauthorized,
    /// An invoice, account or cashout request is absent.
    NotFound,
    /// A request field failed validation.
    InvalidInput,
    /// An illegal invoice status change was attempted.
    InvalidTransition,
    /// A ledger adjustment would drive a balance below zero.
    NegativeBalance,
    /// A cashout asked for more than the confirmed balance.
    InsufficientBalance,
    /// A currency code outside the fixed rate table.
    UnsupportedCurrency,
    /// The external confirmation source could not be reached.
    TemporarilyUnavailable,
    /// A registration was repeated for the same identity.
    AlreadyRegistered,
    /// A payment carried too little value for the invoice.
    PaymentError,
    /// An arithmetic bound of the machine was exceeded.
    InternalError,
}

impl IrisError {
    /// The fixed description of each variant.
    pub open spec fn message_spec(self) -> Seq<char> {
        match self {
            IrisError::Unauthorized => "Unauthorized"@,
            IrisError::NotFound => "Not found"@,
            IrisError::InvalidInput => "Invalid input"@,
            IrisError::InvalidTransition => "Invalid transition"@,
            IrisError::NegativeBalance => "Negative balance"@,
            IrisError::InsufficientBalance => "Insufficient confirmed balance"@,
            IrisError::UnsupportedCurrency => "Unsupported currency"@,
            IrisError::TemporarilyUnavailable => "Temporarily unavailable"@,
            IrisError::AlreadyRegistered => "Already registered"@,
            IrisError::PaymentError => "Payment error"@,
            IrisError::InternalError => "Internal error"@,
        }
    }

    /// A short human-readable description of the error.
    pub fn message(&self) -> (r: String)
        ensures
            r@ == self.message_spec(),
    {
        match self {
            IrisError::Unauthorized => String::from_str("Unauthorized"),
            IrisError::NotFound => String::from_str("Not found"),
            IrisError::InvalidInput => String::from_str("Invalid input"),
            IrisError::InvalidTransition => String::from_str("Invalid transition"),
            IrisError::NegativeBalance => String::from_str("Negative balance"),
            IrisError::InsufficientBalance => String::from_str("Insufficient confirmed balance"),
            IrisError::UnsupportedCurrency => String::from_str("Unsupported currency"),
            IrisError::TemporarilyUnavailable => String::from_str("Temporarily unavailable"),
            IrisError::AlreadyRegistered => String::from_str("Already registered"),
            IrisError::PaymentError => String::from_str("Payment error"),
            IrisError::InternalError => String::from_str("Internal error"),
        }
    }
}

} // verus!

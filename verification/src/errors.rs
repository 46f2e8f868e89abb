//! The error taxonomy of the treasury agent. Every failure is returned to the
//! immediate caller as a descriptive value; none is retried automatically.

use vstd::prelude::*;
use vstd::string::StringExecFns;
use crate::text::{append_decimal, dec_chars, string_from};

verus! {

/// Why a request was rejected before any balance query or ledger call.
#[derive(PartialEq, Eq, Structural, Clone, Copy, Debug)]
pub enum ValidationError {
    /// A batch named no recipients.
    EmptyRecipients,
    /// A requested amount was zero.
    ZeroAmount,
    /// The destination was the anonymous sentinel.
    AnonymousRecipient,
    /// The ledger reference was the anonymous sentinel.
    AnonymousLedger,
}

/// Every way a mutating operation can fail, with enough context to diagnose
/// the failure without retrying blindly.
#[derive(PartialEq, Eq, Debug)]
pub enum TreasuryError {
    /// The caller is not in the authorized-operator set.
    Unauthorized,
    /// The request was malformed.
    ValidationFailed(ValidationError),
    /// The requested total exceeds the balance the ledger reported.
    InsufficientBalance { available: u128, requested: u128 },
    /// The ledger could not be reached; the carried text is the transport
    /// error as reported.
    LedgerCallFailed(String),
    /// The ledger processed the call but rejected the transfer; the carried
    /// text is the ledger's own error.
    LedgerRejected(String),
}

/// The descriptive text of a validation error.
pub open spec fn validation_text(e: ValidationError) -> Seq<char> {
    match e {
        ValidationError::EmptyRecipients => "No principals provided for transfer"@,
        ValidationError::ZeroAmount => "Transfer amount must be greater than 0"@,
        ValidationError::AnonymousRecipient => "Cannot transfer to anonymous principal"@,
        ValidationError::AnonymousLedger => "Invalid ledger ID"@,
    }
}

/// The descriptive text of a treasury error.
pub open spec fn error_text(e: TreasuryError) -> Seq<char> {
    match e {
        TreasuryError::Unauthorized => "Caller is not a controller"@,
        TreasuryError::ValidationFailed(v) => validation_text(v),
        TreasuryError::InsufficientBalance { available, requested } => "Insufficient balance: "@
            + dec_chars(available as nat) + " tokens available, "@ + dec_chars(requested as nat)
            + " tokens requested"@,
        TreasuryError::LedgerCallFailed(t) => "failed to call ledger: "@ + t@,
        TreasuryError::LedgerRejected(t) => "ledger transfer error "@ + t@,
    }
}

impl ValidationError {
    /// The descriptive text of this error.
    pub fn message(&self) -> (r: String)
        ensures
            r@ == validation_text(*self),
    {
        match self {
            ValidationError::EmptyRecipients => string_from(
                "No principals provided for transfer",
            ),
            ValidationError::ZeroAmount => string_from(
                "Transfer amount must be greater than 0",
            ),
            ValidationError::AnonymousRecipient => string_from(
                "Cannot transfer to anonymous principal",
            ),
            ValidationError::AnonymousLedger => string_from("Invalid ledger ID"),
        }
    }
}

impl TreasuryError {
    /// The descriptive text of this error.
    pub fn message(&self) -> (r: String)
        ensures
            r@ == error_text(*self),
    {
        match self {
            TreasuryError::Unauthorized => string_from("Caller is not a controller"),
            TreasuryError::ValidationFailed(v) => v.message(),
            TreasuryError::InsufficientBalance { available, requested } => {
                let mut s = string_from("Insufficient balance: ");
                append_decimal(&mut s, *available);
                s.append(" tokens available, ");
                append_decimal(&mut s, *requested);
                s.append(" tokens requested");
                proof {
                    assert(s@ =~= error_text(*self));
                }
                s
            },
            TreasuryError::LedgerCallFailed(t) => {
                let mut s = string_from("failed to call ledger: ");
                s.append(t.as_str());
                proof {
                    assert(s@ =~= error_text(*self));
                }
                s
            },
            TreasuryError::LedgerRejected(t) => {
                let mut s = string_from("ledger transfer error ");
                s.append(t.as_str());
                proof {
                    assert(s@ =~= error_text(*self));
                }
                s
            },
        }
    }
}

} // verus!

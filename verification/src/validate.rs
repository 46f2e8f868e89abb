//! Pre-flight validation: pure, side-effect-free checks on a proposed
//! transfer, short-circuiting on the first failure, and the human-readable
//! summary returned when a request is well formed.

use vstd::prelude::*;
use vstd::arithmetic::mul::lemma_mul_inequality;
use vstd::string::StringExecFns;
use crate::errors::ValidationError;
use crate::principal::{is_anonymous_seq, principal_text_of};
use crate::requests::{
    PrincipalTransfer, PrincipalTransferV, TransferToMultiple, TransferToMultipleV,
    TransferToPrincipal, TransferToPrincipalV, transfers_view,
};
use crate::text::{append_decimal, dec_chars, string_from};

verus! {

/// The total amount a batch requests, summed over its recipients.
pub open spec fn spec_total(ps: Seq<PrincipalTransferV>) -> nat
    decreases ps.len(),
{
    if ps.len() == 0 {
        0
    } else {
        spec_total(ps.drop_last()) + ps.last().amount as nat
    }
}

/// A batch total never exceeds one maximal amount per recipient.
pub proof fn lemma_total_bound(ps: Seq<PrincipalTransferV>)
    ensures
        spec_total(ps) <= ps.len() * (u64::MAX as nat),
    decreases ps.len(),
{
    if ps.len() > 0 {
        lemma_total_bound(ps.drop_last());
        assert((ps.len() - 1) * (u64::MAX as nat) + (u64::MAX as nat) == ps.len() * (
        u64::MAX as nat)) by (nonlinear_arith);
    }
}

/// What validation decides for a single-transfer request, checked in order:
/// a positive amount, a concrete destination, a concrete ledger.
pub open spec fn spec_validate_single(arg: TransferToPrincipalV) -> Option<ValidationError> {
    if arg.amount == 0 {
        Some(ValidationError::ZeroAmount)
    } else if is_anonymous_seq(arg.receiving_principal) {
        Some(ValidationError::AnonymousRecipient)
    } else if is_anonymous_seq(arg.ledger_id) {
        Some(ValidationError::AnonymousLedger)
    } else {
        None
    }
}

/// What validation decides for a batch request, checked in order: a non-empty
/// recipient list, positive amounts throughout, a concrete ledger.
pub open spec fn spec_validate_multiple(arg: TransferToMultipleV) -> Option<ValidationError> {
    if arg.principals.len() == 0 {
        Some(ValidationError::EmptyRecipients)
    } else if exists|i: int|
        0 <= i < arg.principals.len() && (#[trigger] arg.principals[i]).amount == 0 {
        Some(ValidationError::ZeroAmount)
    } else if is_anonymous_seq(arg.ledger_id) {
        Some(ValidationError::AnonymousLedger)
    } else {
        None
    }
}

/// The summary shown for a valid single-transfer request.
pub open spec fn single_summary(arg: TransferToPrincipalV) -> Seq<char> {
    "Transfer "@ + dec_chars(arg.amount as nat) + " tokens to principal "@ + principal_text_of(
        arg.receiving_principal,
    ) + " from ledger "@ + principal_text_of(arg.ledger_id)
}

/// The summary shown for a valid batch request.
pub open spec fn multiple_summary(arg: TransferToMultipleV) -> Seq<char> {
    "Transfer "@ + dec_chars(spec_total(arg.principals)) + " tokens to "@ + dec_chars(
        arg.principals.len(),
    ) + " recipients from ledger "@ + principal_text_of(arg.ledger_id)
}

/// Runs the single-transfer checks and reports the first failure, if any.
pub fn check_single(arg: &TransferToPrincipal) -> (r: Option<ValidationError>)
    ensures
        r == spec_validate_single(arg@),
{
    if arg.amount == 0 {
        Some(ValidationError::ZeroAmount)
    } else if arg.receiving_principal.is_anonymous() {
        Some(ValidationError::AnonymousRecipient)
    } else if arg.ledger_id.is_anonymous() {
        Some(ValidationError::AnonymousLedger)
    } else {
        None
    }
}

/// Runs the batch checks and reports the first failure, if any.
pub fn check_multiple(arg: &TransferToMultiple) -> (r: Option<ValidationError>)
    ensures
        r == spec_validate_multiple(arg@),
{
    let n = arg.principals.len();
    if n == 0 {
        return Some(ValidationError::EmptyRecipients);
    }
    let mut i: usize = 0;
    while i < n
        invariant
            n == arg.principals@.len(),
            i <= n,
            forall|k: int| 0 <= k < i ==> (#[trigger] arg.principals@[k])@.amount != 0,
        decreases n - i,
    {
        if arg.principals[i].amount == 0 {
            proof {
                assert((arg@.principals[i as int]).amount == 0);
            }
            return Some(ValidationError::ZeroAmount);
        }
        i += 1;
    }
    proof {
        assert(forall|k: int|
            0 <= k < arg@.principals.len() ==> (#[trigger] arg@.principals[k]).amount != 0);
    }
    if arg.ledger_id.is_anonymous() {
        Some(ValidationError::AnonymousLedger)
    } else {
        None
    }
}

/// Sums what a batch requests; exact, since one maximal amount per recipient
/// still fits the accumulator.
pub fn total_amount(ps: &Vec<PrincipalTransfer>) -> (t: u128)
    ensures
        t == spec_total(transfers_view(ps@)),
{
    let ghost v = transfers_view(ps@);
    let n = ps.len();
    let mut t: u128 = 0;
    let mut i: usize = 0;
    proof {
        assert(v.take(0) =~= Seq::<PrincipalTransferV>::empty());
    }
    while i < n
        invariant
            n == ps@.len(),
            v == transfers_view(ps@),
            i <= n,
            t == spec_total(v.take(i as int)),
        decreases n - i,
    {
        proof {
            assert(v.take(i + 1).drop_last() =~= v.take(i as int));
            assert(v.take(i + 1).last() == v[i as int]);
            lemma_total_bound(v.take(i + 1));
            lemma_mul_inequality(i + 1, n as int, u64::MAX as int);
            lemma_mul_inequality(n as int, u64::MAX as int, u64::MAX as int);
            assert((u64::MAX as nat) * (u64::MAX as nat) < u128::MAX as nat) by (nonlinear_arith);
        }
        t = t + ps[i].amount as u128;
        i += 1;
    }
    proof {
        assert(v.take(n as int) =~= v);
    }
    t
}

/// Validates a single-transfer request; on success returns the display
/// summary, otherwise the first failed check, exactly as validation decides.
pub fn validate_transfer_to_principal(arg: &TransferToPrincipal) -> (r: Result<
    String,
    ValidationError,
>)
    requires
        arg.wf(),
    ensures
        match r {
            Ok(s) => spec_validate_single(arg@) is None && s@ == single_summary(arg@),
            Err(e) => spec_validate_single(arg@) == Some(e),
        },
{
    if let Some(e) = check_single(arg) {
        return Err(e);
    }
    let mut s = string_from("Transfer ");
    append_decimal(&mut s, arg.amount as u128);
    s.append(" tokens to principal ");
    let to_text = arg.receiving_principal.text();
    s.append(to_text.as_str());
    s.append(" from ledger ");
    let ledger_text = arg.ledger_id.text();
    s.append(ledger_text.as_str());
    proof {
        assert(s@ =~= single_summary(arg@));
    }
    Ok(s)
}

/// Validates a batch request; on success returns the display summary,
/// otherwise the first failed check, exactly as validation decides.
pub fn validate_transfer_to_multiple(arg: &TransferToMultiple) -> (r: Result<
    String,
    ValidationError,
>)
    requires
        arg.wf(),
    ensures
        match r {
            Ok(s) => spec_validate_multiple(arg@) is None && s@ == multiple_summary(arg@),
            Err(e) => spec_validate_multiple(arg@) == Some(e),
        },
{
    if let Some(e) = check_multiple(arg) {
        return Err(e);
    }
    let total = total_amount(&arg.principals);
    let count = arg.principals.len();
    let mut s = string_from("Transfer ");
    append_decimal(&mut s, total);
    s.append(" tokens to ");
    append_decimal(&mut s, count as u128);
    s.append(" recipients from ledger ");
    let ledger_text = arg.ledger_id.text();
    s.append(ledger_text.as_str());
    proof {
        assert(s@ =~= multiple_summary(arg@));
    }
    Ok(s)
}

} // verus!

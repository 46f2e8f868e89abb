//! The guarantees the treasury agent states of itself, each proved from the
//! step functions' and the history log's contracts.

use vstd::prelude::*;
use crate::auth::{spec_is_controller, AuthEvent};
use crate::errors::{TreasuryError, ValidationError};
use crate::executor::{
    accepts, batch_step_spec, single_step_spec, BalanceEvent, BatchAction, BatchMachine, Event,
    Phase, SingleAction, SingleMachine, TransferEvent,
};
use crate::history::HistoryLog;
use crate::requests::{TransferHistory, TransferHistoryV};
use crate::validate::{spec_total, spec_validate_multiple, spec_validate_single};

verus! {

/// An unauthorized caller is turned away at the first step of a single
/// transfer: the session finishes with `Unauthorized` and the history is
/// unchanged.
pub proof fn lemma_unauthorized_single(m: SingleMachine, a: AuthEvent, log: Seq<TransferHistoryV>)
    requires
        !spec_is_controller(m.caller@, a),
    ensures
        single_step_spec(m, Event::Auth(a), log).0.phase is Done,
        single_step_spec(m, Event::Auth(a), log).1 == SingleAction::Finish(
            Err::<u128, TreasuryError>(TreasuryError::Unauthorized),
        ),
        single_step_spec(m, Event::Auth(a), log).2 == log,
{
}

/// An unauthorized caller is turned away at the first step of a batch: the
/// session finishes with `Unauthorized` and the history is unchanged.
pub proof fn lemma_unauthorized_batch(m: BatchMachine, a: AuthEvent, log: Seq<TransferHistoryV>)
    requires
        !spec_is_controller(m.caller@, a),
    ensures
        batch_step_spec(m, Event::Auth(a), log).0.phase is Done,
        batch_step_spec(m, Event::Auth(a), log).1 == BatchAction::Finish(
            Err::<(), TreasuryError>(TreasuryError::Unauthorized),
        ),
        batch_step_spec(m, Event::Auth(a), log).2 == log,
{
}

/// A finished session accepts no further event, so it never asks the host for
/// another ledger call.
pub proof fn lemma_done_is_final(ev: Event)
    ensures
        !accepts(Phase::Done, ev),
{
}

/// A single request for a zero amount fails validation with `ZeroAmount` at
/// the authorization step, even for an authorized caller: the session is
/// finished before any balance query or ledger call, and the history is
/// unchanged.
pub proof fn lemma_zero_amount_single(m: SingleMachine, a: AuthEvent, log: Seq<TransferHistoryV>)
    requires
        spec_is_controller(m.caller@, a),
        m.arg@.amount == 0,
    ensures
        single_step_spec(m, Event::Auth(a), log).0.phase is Done,
        single_step_spec(m, Event::Auth(a), log).1 == SingleAction::Finish(
            Err::<u128, TreasuryError>(
                TreasuryError::ValidationFailed(ValidationError::ZeroAmount),
            ),
        ),
        single_step_spec(m, Event::Auth(a), log).2 == log,
{
}

/// A batch with an empty recipient list fails validation with
/// `EmptyRecipients` at the authorization step: the session is finished
/// before any balance query, and the history is unchanged.
pub proof fn lemma_empty_batch(m: BatchMachine, a: AuthEvent, log: Seq<TransferHistoryV>)
    requires
        spec_is_controller(m.caller@, a),
        m.arg@.principals.len() == 0,
    ensures
        batch_step_spec(m, Event::Auth(a), log).0.phase is Done,
        batch_step_spec(m, Event::Auth(a), log).1 == BatchAction::Finish(
            Err::<(), TreasuryError>(
                TreasuryError::ValidationFailed(ValidationError::EmptyRecipients),
            ),
        ),
        batch_step_spec(m, Event::Auth(a), log).2 == log,
{
}

/// A single transfer whose amount exceeds the reported balance finishes with
/// `InsufficientBalance`, naming both quantities; no transfer call is asked
/// for and the history is unchanged.
pub proof fn lemma_insufficient_single(m: SingleMachine, bal: u128, log: Seq<TransferHistoryV>)
    requires
        bal < m.arg@.amount as u128,
    ensures
        single_step_spec(m, Event::Balance(BalanceEvent::Amount(bal)), log).0.phase is Done,
        single_step_spec(m, Event::Balance(BalanceEvent::Amount(bal)), log).1
            == SingleAction::Finish(
            Err::<u128, TreasuryError>(
                TreasuryError::InsufficientBalance {
                    available: bal,
                    requested: m.arg@.amount as u128,
                },
            ),
        ),
        single_step_spec(m, Event::Balance(BalanceEvent::Amount(bal)), log).2 == log,
{
}

/// A batch whose requested total exceeds the reported balance finishes with
/// `InsufficientBalance` before any transfer call, and the history is
/// unchanged.
pub proof fn lemma_insufficient_batch(m: BatchMachine, bal: u128, log: Seq<TransferHistoryV>)
    requires
        (bal as nat) < spec_total(m.arg@.principals),
        spec_total(m.arg@.principals) <= u128::MAX,
    ensures
        batch_step_spec(m, Event::Balance(BalanceEvent::Amount(bal)), log).0.phase is Done,
        batch_step_spec(m, Event::Balance(BalanceEvent::Amount(bal)), log).1 == BatchAction::Finish(
            Err::<(), TreasuryError>(
                TreasuryError::InsufficientBalance {
                    available: bal,
                    requested: spec_total(m.arg@.principals) as u128,
                },
            ),
        ),
        batch_step_spec(m, Event::Balance(BalanceEvent::Amount(bal)), log).2 == log,
{
}

/// Fail-fast: the first per-recipient failure — transport or ledger-reported
/// — finishes the whole batch with that failure. No further recipient is paid
/// and the history is unchanged, so the recipients already paid stay paid and
/// unlogged.
pub proof fn lemma_batch_fail_fast(m: BatchMachine, t: TransferEvent, log: Seq<TransferHistoryV>)
    requires
        !(t is Receipt),
    ensures
        batch_step_spec(m, Event::Transfer(t), log).0.phase is Done,
        batch_step_spec(m, Event::Transfer(t), log).2 == log,
        t matches TransferEvent::Rejected(e) ==> batch_step_spec(m, Event::Transfer(t), log).1
            == BatchAction::Finish(Err::<(), TreasuryError>(TreasuryError::LedgerRejected(e))),
        t matches TransferEvent::CallFailed(e) ==> batch_step_spec(m, Event::Transfer(t), log).1
            == BatchAction::Finish(Err::<(), TreasuryError>(TreasuryError::LedgerCallFailed(e))),
{
}

/// Sequential batch ordering: the first transfer asked for is recipient zero,
/// and each recipient's success asks for exactly the next recipient in
/// submission order, so the ledger sees the recipients in the order
/// submitted, never reordered.
pub proof fn lemma_batch_sequential(m: BatchMachine, r: u128, bal: u128, log: Seq<TransferHistoryV>)
    requires
        (bal as nat) >= spec_total(m.arg@.principals),
        m.arg.principals@.len() <= usize::MAX,
    ensures
        batch_step_spec(m, Event::Balance(BalanceEvent::Amount(bal)), log).1
            == (BatchAction::CallTransfer { index: 0usize }),
        batch_step_spec(m, Event::Balance(BalanceEvent::Amount(bal)), log).0.next_index == 0,
        m.next_index + 1 < m.arg.principals@.len() ==> batch_step_spec(
            m,
            Event::Transfer(TransferEvent::Receipt(r)),
            log,
        ).1 == (BatchAction::CallTransfer { index: (m.next_index + 1) as usize }),
        m.next_index + 1 < m.arg.principals@.len() ==> batch_step_spec(
            m,
            Event::Transfer(TransferEvent::Receipt(r)),
            log,
        ).0.next_index == m.next_index + 1,
        m.next_index + 1 < m.arg.principals@.len() ==> batch_step_spec(
            m,
            Event::Transfer(TransferEvent::Receipt(r)),
            log,
        ).2 == log,
{
}

/// A batch appends its one history record — the whole batch, verbatim — only
/// when its last recipient's transfer succeeded, and then reports success.
pub proof fn lemma_batch_records_on_success(
    m: BatchMachine,
    r: u128,
    log: Seq<TransferHistoryV>,
)
    requires
        m.next_index + 1 >= m.arg.principals@.len(),
    ensures
        batch_step_spec(m, Event::Transfer(TransferEvent::Receipt(r)), log).0.phase is Done,
        batch_step_spec(m, Event::Transfer(TransferEvent::Receipt(r)), log).1
            == BatchAction::Finish(Ok::<(), TreasuryError>(())),
        batch_step_spec(m, Event::Transfer(TransferEvent::Receipt(r)), log).2 == log.push(
            TransferHistoryV::TransferToMultiple(m.arg@),
        ),
{
}

/// A single transfer appends its record exactly when the ledger reported
/// success, and then returns the ledger's receipt.
pub proof fn lemma_single_records_on_success(
    m: SingleMachine,
    r: u128,
    log: Seq<TransferHistoryV>,
)
    ensures
        single_step_spec(m, Event::Transfer(TransferEvent::Receipt(r)), log).0.phase is Done,
        single_step_spec(m, Event::Transfer(TransferEvent::Receipt(r)), log).1
            == SingleAction::Finish(Ok::<u128, TreasuryError>(r)),
        single_step_spec(m, Event::Transfer(TransferEvent::Receipt(r)), log).2 == log.push(
            TransferHistoryV::TransferToPrincipal(m.arg@),
        ),
{
}

/// Append monotonicity: an append adds exactly one record, at the end, and
/// every earlier record keeps its place, so after `n` successful executions
/// the count has grown by `n` and the records stand in submission order.
pub proof fn lemma_append_monotone(log: Seq<TransferHistoryV>, rec: TransferHistoryV)
    ensures
        log.push(rec).len() == log.len() + 1,
        forall|i: int| 0 <= i < log.len() ==> log.push(rec)[i] == log[i],
        log.push(rec)[log.len() as int] == rec,
{
}

/// Idempotence of reads: listing the history is a pure read, so any two
/// listings of the same log state are record-for-record identical.
pub proof fn lemma_list_idempotent(
    log: HistoryLog,
    r1: &Vec<TransferHistory>,
    r2: &Vec<TransferHistory>,
)
    requires
        call_ensures(HistoryLog::get_transfer_history, (&log,), r1),
        call_ensures(HistoryLog::get_transfer_history, (&log,), r2),
    ensures
        r1@.len() == r2@.len(),
        forall|i: int| 0 <= i < r1@.len() ==> (#[trigger] r1@[i])@ == r2@[i]@,
{
}

} // verus!

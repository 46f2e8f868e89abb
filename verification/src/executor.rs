//! The transfer executor. Each request runs as an explicit session: every
//! remote interaction (the operator-set query, the balance query, each ledger
//! transfer call) is a suspension point, so the decisions between them form a
//! step function from state and event to next state and action. The host
//! performs the pending action, hands back what it produced, and the machine
//! decides the next step.
//!
//! A batch pays its recipients strictly in submission order and fail-fast:
//! the first per-recipient failure aborts the remainder, and the already-paid
//! recipients stay paid. History records the whole batch as one record, only
//! after every recipient succeeded, so an aborted batch leaves partial
//! payments unlogged — a documented risk of the fail-fast policy, not a
//! silent retry. A single transfer likewise appends its record only after the
//! ledger reported success.

use vstd::prelude::*;
use crate::auth::{is_controller, spec_is_controller, AuthEvent};
use crate::errors::TreasuryError;
use crate::history::HistoryLog;
use crate::principal::PrincipalId;
use crate::requests::{TransferHistory, TransferHistoryV, TransferToMultiple, TransferToPrincipal};
use crate::validate::{
    check_multiple, check_single, spec_total, spec_validate_multiple, spec_validate_single,
    total_amount,
};

verus! {

/// What the ledger answered to one balance query: the treasury account's
/// balance, or the transport error that kept the ledger unreachable.
pub enum BalanceEvent {
    Amount(u128),
    Unreachable(String),
}

/// What one ledger transfer call produced: the ledger's receipt (the block
/// index of the recorded transfer), a transport failure, or the ledger's own
/// rejection of the transfer.
pub enum TransferEvent {
    Receipt(u128),
    CallFailed(String),
    Rejected(String),
}

/// What the host hands back after performing the pending remote call.
pub enum Event {
    Auth(AuthEvent),
    Balance(BalanceEvent),
    Transfer(TransferEvent),
}

/// Which answer a session awaits; `Done` sessions accept no further events.
#[derive(PartialEq, Eq, Structural, Clone, Copy, Debug)]
pub enum Phase {
    AwaitAuth,
    AwaitBalance,
    AwaitTransfer,
    Done,
}

/// A session accepts exactly the event kind its phase awaits.
pub open spec fn accepts(phase: Phase, ev: Event) -> bool {
    match phase {
        Phase::AwaitAuth => ev is Auth,
        Phase::AwaitBalance => ev is Balance,
        Phase::AwaitTransfer => ev is Transfer,
        Phase::Done => false,
    }
}

/// What a single-transfer session asks of the host next: query the treasury
/// balance on the request's ledger, issue the request's one transfer, or
/// return the result — the ledger's receipt, or the error — to the caller.
#[derive(PartialEq, Eq, Debug)]
pub enum SingleAction {
    QueryBalance,
    CallTransfer,
    Finish(Result<u128, TreasuryError>),
}

/// One single-transfer request in flight.
pub struct SingleMachine {
    pub arg: TransferToPrincipal,
    pub caller: PrincipalId,
    pub phase: Phase,
}

/// The decisions of one single-transfer step: from machine, event and history
/// to next machine, action and history. Authorization is decided first, then
/// validation, then balance sufficiency; only a ledger-reported success
/// appends the record.
pub open spec fn single_step_spec(m: SingleMachine, ev: Event, log: Seq<TransferHistoryV>) -> (
    SingleMachine,
    SingleAction,
    Seq<TransferHistoryV>,
) {
    let done = SingleMachine { phase: Phase::Done, ..m };
    match ev {
        Event::Auth(a) => {
            if !spec_is_controller(m.caller@, a) {
                (done, SingleAction::Finish(Err(TreasuryError::Unauthorized)), log)
            } else {
                match spec_validate_single(m.arg@) {
                    Some(e) => (
                        done,
                        SingleAction::Finish(Err(TreasuryError::ValidationFailed(e))),
                        log,
                    ),
                    None => (
                        SingleMachine { phase: Phase::AwaitBalance, ..m },
                        SingleAction::QueryBalance,
                        log,
                    ),
                }
            }
        },
        Event::Balance(b) => match b {
            BalanceEvent::Unreachable(t) => (
                done,
                SingleAction::Finish(Err(TreasuryError::LedgerCallFailed(t))),
                log,
            ),
            BalanceEvent::Amount(bal) => {
                if bal < m.arg.amount as u128 {
                    (
                        done,
                        SingleAction::Finish(
                            Err(
                                TreasuryError::InsufficientBalance {
                                    available: bal,
                                    requested: m.arg.amount as u128,
                                },
                            ),
                        ),
                        log,
                    )
                } else {
                    (SingleMachine { phase: Phase::AwaitTransfer, ..m }, SingleAction::CallTransfer, log)
                }
            },
        },
        Event::Transfer(t) => match t {
            TransferEvent::CallFailed(e) => (
                done,
                SingleAction::Finish(Err(TreasuryError::LedgerCallFailed(e))),
                log,
            ),
            TransferEvent::Rejected(e) => (
                done,
                SingleAction::Finish(Err(TreasuryError::LedgerRejected(e))),
                log,
            ),
            TransferEvent::Receipt(block) => (
                done,
                SingleAction::Finish(Ok(block)),
                log.push(TransferHistoryV::TransferToPrincipal(m.arg@)),
            ),
        },
    }
}

impl SingleMachine {
    /// The request's references and the caller fit principal identifiers.
    pub open spec fn wf(&self) -> bool {
        self.arg.wf() && self.caller.wf()
    }

    /// Opens a single-transfer session for `caller`; the host must first
    /// query the operator set and answer with an authorization event.
    pub fn new(arg: TransferToPrincipal, caller: PrincipalId) -> (m: SingleMachine)
        requires
            arg.wf(),
            caller.wf(),
        ensures
            m.wf(),
            m.phase is AwaitAuth,
            m.arg == arg,
            m.caller == caller,
    {
        SingleMachine { arg, caller, phase: Phase::AwaitAuth }
    }

    /// Takes the one step the event allows, exactly as `single_step_spec`
    /// decides it: the history grows only by the success append, and is
    /// otherwise unchanged.
    pub fn step(&mut self, ev: Event, log: &mut HistoryLog) -> (a: SingleAction)
        requires
            old(self).wf(),
            accepts(old(self).phase, ev),
            ev is Transfer ==> old(log)@.len() < u64::MAX,
        ensures
            final(self).wf(),
            ({
                let (m2, a2, log2) = single_step_spec(*old(self), ev, old(log)@);
                *final(self) == m2 && a == a2 && final(log)@ == log2
            }),
    {
        match ev {
            Event::Auth(a) => {
                if !is_controller(&self.caller, &a) {
                    self.phase = Phase::Done;
                    SingleAction::Finish(Err(TreasuryError::Unauthorized))
                } else {
                    match check_single(&self.arg) {
                        Some(e) => {
                            self.phase = Phase::Done;
                            SingleAction::Finish(Err(TreasuryError::ValidationFailed(e)))
                        },
                        None => {
                            self.phase = Phase::AwaitBalance;
                            SingleAction::QueryBalance
                        },
                    }
                }
            },
            Event::Balance(b) => match b {
                BalanceEvent::Unreachable(t) => {
                    self.phase = Phase::Done;
                    SingleAction::Finish(Err(TreasuryError::LedgerCallFailed(t)))
                },
                BalanceEvent::Amount(bal) => {
                    if bal < self.arg.amount as u128 {
                        self.phase = Phase::Done;
                        SingleAction::Finish(
                            Err(
                                TreasuryError::InsufficientBalance {
                                    available: bal,
                                    requested: self.arg.amount as u128,
                                },
                            ),
                        )
                    } else {
                        self.phase = Phase::AwaitTransfer;
                        SingleAction::CallTransfer
                    }
                },
            },
            Event::Transfer(t) => match t {
                TransferEvent::CallFailed(e) => {
                    self.phase = Phase::Done;
                    SingleAction::Finish(Err(TreasuryError::LedgerCallFailed(e)))
                },
                TransferEvent::Rejected(e) => {
                    self.phase = Phase::Done;
                    SingleAction::Finish(Err(TreasuryError::LedgerRejected(e)))
                },
                TransferEvent::Receipt(block) => {
                    let record = TransferHistory::TransferToPrincipal(self.arg.duplicate());
                    log.append(record);
                    self.phase = Phase::Done;
                    SingleAction::Finish(Ok(block))
                },
            },
        }
    }
}

/// What a batch session asks of the host next: query the treasury balance on
/// the batch's ledger, issue one transfer to the recipient at `index`, or
/// return the batch's overall outcome to the caller.
#[derive(PartialEq, Eq, Debug)]
pub enum BatchAction {
    QueryBalance,
    CallTransfer { index: usize },
    Finish(Result<(), TreasuryError>),
}

/// One batch request in flight; `next_index` is the recipient whose transfer
/// is pending once the session reaches the transfer phase.
pub struct BatchMachine {
    pub arg: TransferToMultiple,
    pub caller: PrincipalId,
    pub phase: Phase,
    pub next_index: usize,
}

/// The decisions of one batch step. Balance sufficiency is checked against
/// the batch's total; recipients are then paid strictly in order, one
/// transfer per event, and the first failure finishes the session with that
/// failure. Only the final recipient's success appends the batch record.
pub open spec fn batch_step_spec(m: BatchMachine, ev: Event, log: Seq<TransferHistoryV>) -> (
    BatchMachine,
    BatchAction,
    Seq<TransferHistoryV>,
) {
    let done = BatchMachine { phase: Phase::Done, ..m };
    match ev {
        Event::Auth(a) => {
            if !spec_is_controller(m.caller@, a) {
                (done, BatchAction::Finish(Err(TreasuryError::Unauthorized)), log)
            } else {
                match spec_validate_multiple(m.arg@) {
                    Some(e) => (
                        done,
                        BatchAction::Finish(Err(TreasuryError::ValidationFailed(e))),
                        log,
                    ),
                    None => (
                        BatchMachine { phase: Phase::AwaitBalance, ..m },
                        BatchAction::QueryBalance,
                        log,
                    ),
                }
            }
        },
        Event::Balance(b) => match b {
            BalanceEvent::Unreachable(t) => (
                done,
                BatchAction::Finish(Err(TreasuryError::LedgerCallFailed(t))),
                log,
            ),
            BalanceEvent::Amount(bal) => {
                if bal < spec_total(m.arg@.principals) {
                    (
                        done,
                        BatchAction::Finish(
                            Err(
                                TreasuryError::InsufficientBalance {
                                    available: bal,
                                    requested: spec_total(m.arg@.principals) as u128,
                                },
                            ),
                        ),
                        log,
                    )
                } else {
                    (
                        BatchMachine { phase: Phase::AwaitTransfer, next_index: 0, ..m },
                        BatchAction::CallTransfer { index: 0 },
                        log,
                    )
                }
            },
        },
        Event::Transfer(t) => match t {
            TransferEvent::CallFailed(e) => (
                done,
                BatchAction::Finish(Err(TreasuryError::LedgerCallFailed(e))),
                log,
            ),
            TransferEvent::Rejected(e) => (
                done,
                BatchAction::Finish(Err(TreasuryError::LedgerRejected(e))),
                log,
            ),
            TransferEvent::Receipt(_) => {
                if m.next_index + 1 < m.arg.principals@.len() {
                    (
                        BatchMachine { next_index: (m.next_index + 1) as usize, ..m },
                        BatchAction::CallTransfer { index: (m.next_index + 1) as usize },
                        log,
                    )
                } else {
                    (
                        done,
                        BatchAction::Finish(Ok(())),
                        log.push(TransferHistoryV::TransferToMultiple(m.arg@)),
                    )
                }
            },
        },
    }
}

impl BatchMachine {
    /// The request's references and the caller fit principal identifiers; in
    /// the transfer phase the batch has passed validation and the pending
    /// recipient exists.
    pub open spec fn wf(&self) -> bool {
        &&& self.arg.wf()
        &&& self.caller.wf()
        &&& (self.phase is AwaitBalance ==> spec_validate_multiple(self.arg@) is None)
        &&& (self.phase is AwaitTransfer ==> spec_validate_multiple(self.arg@) is None
            && self.next_index < self.arg.principals@.len())
    }

    /// Opens a batch session for `caller`; the host must first query the
    /// operator set and answer with an authorization event.
    pub fn new(arg: TransferToMultiple, caller: PrincipalId) -> (m: BatchMachine)
        requires
            arg.wf(),
            caller.wf(),
        ensures
            m.wf(),
            m.phase is AwaitAuth,
            m.arg == arg,
            m.caller == caller,
    {
        BatchMachine { arg, caller, phase: Phase::AwaitAuth, next_index: 0 }
    }

    /// Takes the one step the event allows, exactly as `batch_step_spec`
    /// decides it: the history grows only by the batch's one success append,
    /// and is otherwise unchanged.
    pub fn step(&mut self, ev: Event, log: &mut HistoryLog) -> (a: BatchAction)
        requires
            old(self).wf(),
            accepts(old(self).phase, ev),
            ev is Transfer ==> old(log)@.len() < u64::MAX,
        ensures
            final(self).wf(),
            ({
                let (m2, a2, log2) = batch_step_spec(*old(self), ev, old(log)@);
                *final(self) == m2 && a == a2 && final(log)@ == log2
            }),
    {
        match ev {
            Event::Auth(a) => {
                if !is_controller(&self.caller, &a) {
                    self.phase = Phase::Done;
                    BatchAction::Finish(Err(TreasuryError::Unauthorized))
                } else {
                    match check_multiple(&self.arg) {
                        Some(e) => {
                            self.phase = Phase::Done;
                            BatchAction::Finish(Err(TreasuryError::ValidationFailed(e)))
                        },
                        None => {
                            self.phase = Phase::AwaitBalance;
                            BatchAction::QueryBalance
                        },
                    }
                }
            },
            Event::Balance(b) => match b {
                BalanceEvent::Unreachable(t) => {
                    self.phase = Phase::Done;
                    BatchAction::Finish(Err(TreasuryError::LedgerCallFailed(t)))
                },
                BalanceEvent::Amount(bal) => {
                    let total = total_amount(&self.arg.principals);
                    if bal < total {
                        self.phase = Phase::Done;
                        BatchAction::Finish(
                            Err(
                                TreasuryError::InsufficientBalance {
                                    available: bal,
                                    requested: total,
                                },
                            ),
                        )
                    } else {
                        self.phase = Phase::AwaitTransfer;
                        self.next_index = 0;
                        BatchAction::CallTransfer { index: 0 }
                    }
                },
            },
            Event::Transfer(t) => match t {
                TransferEvent::CallFailed(e) => {
                    self.phase = Phase::Done;
                    BatchAction::Finish(Err(TreasuryError::LedgerCallFailed(e)))
                },
                TransferEvent::Rejected(e) => {
                    self.phase = Phase::Done;
                    BatchAction::Finish(Err(TreasuryError::LedgerRejected(e)))
                },
                TransferEvent::Receipt(_) => {
                    let n = self.arg.principals.len();
                    proof {
                        assert(old(self).phase is AwaitTransfer);
                        assert(self.next_index < n);
                    }
                    if self.next_index + 1 < n {
                        self.next_index = self.next_index + 1;
                        BatchAction::CallTransfer { index: self.next_index }
                    } else {
                        let record = TransferHistory::TransferToMultiple(self.arg.duplicate());
                        log.append(record);
                        self.phase = Phase::Done;
                        BatchAction::Finish(Ok(()))
                    }
                },
            },
        }
    }
}

} // verus!

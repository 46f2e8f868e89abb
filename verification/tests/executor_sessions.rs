use treasury::auth::AuthEvent;
use treasury::errors::{TreasuryError, ValidationError};
use treasury::executor::{
    BalanceEvent, BatchAction, BatchMachine, Event, SingleAction, SingleMachine, TransferEvent,
};
use treasury::history::HistoryLog;
use treasury::principal::PrincipalId;
use treasury::requests::{
    PrincipalTransfer, TransferHistory, TransferToMultiple, TransferToPrincipal,
};

fn pid(bytes: &[u8]) -> PrincipalId {
    PrincipalId::try_new(bytes.to_vec()).unwrap()
}

fn single_arg(amount: u64) -> TransferToPrincipal {
    TransferToPrincipal {
        receiving_principal: pid(&[1, 2, 3]),
        amount,
        ledger_id: pid(&[9]),
    }
}

fn batch_arg(amounts: &[u64]) -> TransferToMultiple {
    let principals = amounts
        .iter()
        .enumerate()
        .map(|(i, a)| PrincipalTransfer {
            receiving_principal: pid(&[i as u8 + 1]),
            amount: *a,
        })
        .collect();
    TransferToMultiple { principals, ledger_id: pid(&[9]) }
}

fn controllers_with(caller: &[u8]) -> Event {
    Event::Auth(AuthEvent::Controllers(vec![pid(caller), pid(&[0xAB, 0xCD])]))
}

fn controllers_without() -> Event {
    Event::Auth(AuthEvent::Controllers(vec![pid(&[0xAB, 0xCD])]))
}

#[test]
fn unauthorized_single_leaves_history_unchanged() {
    let mut log = HistoryLog::new();
    let mut m = SingleMachine::new(single_arg(50), pid(&[5]));
    let a = m.step(controllers_without(), &mut log);
    assert_eq!(a, SingleAction::Finish(Err(TreasuryError::Unauthorized)));
    assert_eq!(log.len(), 0);
}

#[test]
fn unauthorized_batch_leaves_history_unchanged() {
    let mut log = HistoryLog::new();
    let mut m = BatchMachine::new(batch_arg(&[10, 20]), pid(&[5]));
    let a = m.step(controllers_without(), &mut log);
    assert_eq!(a, BatchAction::Finish(Err(TreasuryError::Unauthorized)));
    assert_eq!(log.len(), 0);
}

#[test]
fn oracle_error_fallback_authorizes_on_embedded_caller() {
    // The availability fallback: an oracle error whose text embeds the
    // caller's own identifier is accepted as evidence of authorization.
    let caller = [5u8, 6];
    let caller_text = candid::Principal::from_slice(&caller).to_text();
    let err_text = format!("call rejected for {}: no route", caller_text);
    let mut log = HistoryLog::new();
    let mut m = SingleMachine::new(single_arg(50), pid(&caller));
    let a = m.step(Event::Auth(AuthEvent::OracleError(err_text)), &mut log);
    assert_eq!(a, SingleAction::QueryBalance);
}

#[test]
fn oracle_error_without_caller_text_rejects() {
    let mut log = HistoryLog::new();
    let mut m = SingleMachine::new(single_arg(50), pid(&[5, 6]));
    let a = m.step(
        Event::Auth(AuthEvent::OracleError("oracle unavailable".to_string())),
        &mut log,
    );
    assert_eq!(a, SingleAction::Finish(Err(TreasuryError::Unauthorized)));
    assert_eq!(log.len(), 0);
}

#[test]
fn single_zero_amount_makes_no_ledger_call() {
    let mut log = HistoryLog::new();
    let mut m = SingleMachine::new(single_arg(0), pid(&[5]));
    let a = m.step(controllers_with(&[5]), &mut log);
    // The session finished at validation: the mock ledger was never asked.
    assert_eq!(
        a,
        SingleAction::Finish(Err(TreasuryError::ValidationFailed(ValidationError::ZeroAmount)))
    );
    assert_eq!(log.len(), 0);
}

#[test]
fn batch_empty_fails_before_balance_query() {
    let mut log = HistoryLog::new();
    let mut m = BatchMachine::new(batch_arg(&[]), pid(&[5]));
    let a = m.step(controllers_with(&[5]), &mut log);
    // Validation failed before the session ever asked for a balance.
    assert_eq!(
        a,
        BatchAction::Finish(Err(TreasuryError::ValidationFailed(
            ValidationError::EmptyRecipients
        )))
    );
    assert_eq!(log.len(), 0);
}

#[test]
fn insufficient_balance_scenario() {
    let mut log = HistoryLog::new();
    let mut m = SingleMachine::new(single_arg(150), pid(&[5]));
    let a = m.step(controllers_with(&[5]), &mut log);
    assert_eq!(a, SingleAction::QueryBalance);
    let a = m.step(Event::Balance(BalanceEvent::Amount(100)), &mut log);
    assert_eq!(
        a,
        SingleAction::Finish(Err(TreasuryError::InsufficientBalance {
            available: 100,
            requested: 150,
        }))
    );
    assert_eq!(log.len(), 0);
}

#[test]
fn balance_query_failure_reported() {
    let mut log = HistoryLog::new();
    let mut m = SingleMachine::new(single_arg(50), pid(&[5]));
    let a = m.step(controllers_with(&[5]), &mut log);
    assert_eq!(a, SingleAction::QueryBalance);
    let a = m.step(
        Event::Balance(BalanceEvent::Unreachable("no route to canister".to_string())),
        &mut log,
    );
    assert_eq!(
        a,
        SingleAction::Finish(Err(TreasuryError::LedgerCallFailed(
            "no route to canister".to_string()
        )))
    );
    assert_eq!(log.len(), 0);
}

#[test]
fn single_success_returns_receipt_and_appends_history() {
    let mut log = HistoryLog::new();
    let arg = single_arg(50);
    let mut m = SingleMachine::new(arg, pid(&[5]));
    let a = m.step(controllers_with(&[5]), &mut log);
    assert_eq!(a, SingleAction::QueryBalance);
    let a = m.step(Event::Balance(BalanceEvent::Amount(1_000)), &mut log);
    assert_eq!(a, SingleAction::CallTransfer);
    let a = m.step(Event::Transfer(TransferEvent::Receipt(42)), &mut log);
    assert_eq!(a, SingleAction::Finish(Ok(42)));
    assert_eq!(log.len(), 1);
    let records = log.get_transfer_history();
    assert_eq!(
        records[0],
        TransferHistory::TransferToPrincipal(single_arg(50))
    );
}

#[test]
fn single_ledger_rejection_leaves_history_unchanged() {
    let mut log = HistoryLog::new();
    let mut m = SingleMachine::new(single_arg(50), pid(&[5]));
    m.step(controllers_with(&[5]), &mut log);
    m.step(Event::Balance(BalanceEvent::Amount(1_000)), &mut log);
    let a = m.step(
        Event::Transfer(TransferEvent::Rejected("InsufficientFee".to_string())),
        &mut log,
    );
    assert_eq!(
        a,
        SingleAction::Finish(Err(TreasuryError::LedgerRejected("InsufficientFee".to_string())))
    );
    assert_eq!(log.len(), 0);
}

#[test]
fn batch_fail_fast_aborts_after_second_rejection() {
    // Three recipients; the mock ledger rejects the second call. The first
    // transfer was already issued, the third is never asked for, and the
    // history records nothing for this batch.
    let mut issued: Vec<usize> = Vec::new();
    let mut log = HistoryLog::new();
    let mut m = BatchMachine::new(batch_arg(&[10, 20, 30]), pid(&[5]));
    let a = m.step(controllers_with(&[5]), &mut log);
    assert_eq!(a, BatchAction::QueryBalance);
    let mut a = m.step(Event::Balance(BalanceEvent::Amount(1_000)), &mut log);
    // First call: recipient 0; the mock accepts it.
    assert_eq!(a, BatchAction::CallTransfer { index: 0 });
    issued.push(0);
    a = m.step(Event::Transfer(TransferEvent::Receipt(7)), &mut log);
    // Second call: recipient 1; the mock rejects it.
    assert_eq!(a, BatchAction::CallTransfer { index: 1 });
    issued.push(1);
    a = m.step(
        Event::Transfer(TransferEvent::Rejected("TooOld".to_string())),
        &mut log,
    );
    assert_eq!(
        a,
        BatchAction::Finish(Err(TreasuryError::LedgerRejected("TooOld".to_string())))
    );
    assert_eq!(issued, vec![0, 1]);
    assert_eq!(log.len(), 0);
}

#[test]
fn batch_sequential_order_and_success_appends_once() {
    let mut issued: Vec<usize> = Vec::new();
    let mut log = HistoryLog::new();
    let mut m = BatchMachine::new(batch_arg(&[10, 20, 30]), pid(&[5]));
    let a = m.step(controllers_with(&[5]), &mut log);
    assert_eq!(a, BatchAction::QueryBalance);
    let mut a = m.step(Event::Balance(BalanceEvent::Amount(60)), &mut log);
    loop {
        match a {
            BatchAction::CallTransfer { index } => {
                issued.push(index);
                a = m.step(Event::Transfer(TransferEvent::Receipt(index as u128)), &mut log);
            },
            BatchAction::Finish(r) => {
                assert_eq!(r, Ok(()));
                break;
            },
            BatchAction::QueryBalance => panic!("balance asked twice"),
        }
    }
    // The ledger saw the recipients in exactly the submitted order.
    assert_eq!(issued, vec![0, 1, 2]);
    assert_eq!(log.len(), 1);
    let records = log.get_transfer_history();
    assert_eq!(
        records[0],
        TransferHistory::TransferToMultiple(batch_arg(&[10, 20, 30]))
    );
}

#[test]
fn batch_insufficient_total_rejected() {
    let mut log = HistoryLog::new();
    let mut m = BatchMachine::new(batch_arg(&[40, 30]), pid(&[5]));
    m.step(controllers_with(&[5]), &mut log);
    let a = m.step(Event::Balance(BalanceEvent::Amount(69)), &mut log);
    assert_eq!(
        a,
        BatchAction::Finish(Err(TreasuryError::InsufficientBalance {
            available: 69,
            requested: 70,
        }))
    );
    assert_eq!(log.len(), 0);
}

#[test]
fn treasury_error_messages_exact() {
    assert_eq!(TreasuryError::Unauthorized.message(), "Caller is not a controller");
    assert_eq!(
        TreasuryError::InsufficientBalance { available: 100, requested: 150 }.message(),
        "Insufficient balance: 100 tokens available, 150 tokens requested"
    );
    assert_eq!(
        TreasuryError::LedgerCallFailed("timeout".to_string()).message(),
        "failed to call ledger: timeout"
    );
    assert_eq!(
        TreasuryError::LedgerRejected("BadFee".to_string()).message(),
        "ledger transfer error BadFee"
    );
    assert_eq!(
        TreasuryError::ValidationFailed(ValidationError::ZeroAmount).message(),
        "Transfer amount must be greater than 0"
    );
}

#[test]
fn history_counts_every_successful_execute_in_order() {
    let mut log = HistoryLog::new();
    let amounts = [11u64, 22, 33];
    for amount in amounts {
        let mut m = SingleMachine::new(single_arg(amount), pid(&[5]));
        assert_eq!(m.step(controllers_with(&[5]), &mut log), SingleAction::QueryBalance);
        assert_eq!(
            m.step(Event::Balance(BalanceEvent::Amount(1_000)), &mut log),
            SingleAction::CallTransfer
        );
        let a = m.step(Event::Transfer(TransferEvent::Receipt(1)), &mut log);
        assert_eq!(a, SingleAction::Finish(Ok(1)));
    }
    assert_eq!(log.len(), amounts.len() as u64);
    let records = log.get_transfer_history();
    for (i, amount) in amounts.iter().enumerate() {
        assert_eq!(
            records[i],
            TransferHistory::TransferToPrincipal(single_arg(*amount))
        );
    }
}

use treasury::history::HistoryLog;
use treasury::principal::PrincipalId;
use treasury::requests::{TransferHistory, TransferToPrincipal};

fn record(amount: u64) -> TransferHistory {
    TransferHistory::TransferToPrincipal(TransferToPrincipal {
        receiving_principal: PrincipalId::try_new(vec![1]).unwrap(),
        amount,
        ledger_id: PrincipalId::try_new(vec![9]).unwrap(),
    })
}

#[test]
fn append_assigns_one_based_sequence_numbers() {
    let mut log = HistoryLog::new();
    assert_eq!(log.len(), 0);
    assert_eq!(log.append(record(1)), 1);
    assert_eq!(log.append(record(2)), 2);
    assert_eq!(log.append(record(3)), 3);
    assert_eq!(log.len(), 3);
}

#[test]
fn list_is_idempotent() {
    let mut log = HistoryLog::new();
    log.append(record(1));
    log.append(record(2));
    let first = log.get_transfer_history();
    let second = log.get_transfer_history();
    assert_eq!(first, second);
}

#[test]
fn list_preserves_insertion_order() {
    let mut log = HistoryLog::new();
    for amount in [5u64, 17, 2, 99] {
        log.append(record(amount));
    }
    let records = log.get_transfer_history();
    assert_eq!(records.len(), 4);
    let expected = [5u64, 17, 2, 99];
    for (i, rec) in records.iter().enumerate() {
        assert_eq!(*rec, record(expected[i]));
    }
}

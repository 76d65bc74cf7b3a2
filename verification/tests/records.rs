//! Input-record validation: deposits and withdrawals must carry an amount,
//! dispute-lifecycle records must not.

use payments_ledger::errors::RecordError;
use payments_ledger::structs::{Record, RecordType};

#[test]
fn test_record_valid() {
    // One row: a deposit of one unit for client 1, transaction 1.
    let results = vec![Record {
        record_type: RecordType::Deposit,
        client: 1,
        tx: 1,
        amount: Some(10000),
    }];

    assert!(results.into_iter().all(|record| record.validate().is_ok()));
}

#[test]
fn test_record_invalid() {
    // One row: a deposit for client 1, transaction 1, with the amount left
    // empty.
    let results = vec![Record { record_type: RecordType::Deposit, client: 1, tx: 1, amount: None }];

    assert_eq!(
        results.into_iter().filter(|record| record.validate().is_err()).count(),
        1
    );
}

#[test]
fn test_record_invalid_2() {
    // Four rows: dispute-lifecycle records, three of which wrongly carry an
    // amount.
    let results = vec![
        Record { record_type: RecordType::Dispute, client: 1, tx: 1, amount: Some(10000) },
        Record { record_type: RecordType::Resolve, client: 1, tx: 1, amount: None },
        Record { record_type: RecordType::Dispute, client: 2, tx: 2, amount: Some(21234) },
        Record { record_type: RecordType::Chargeback, client: 2, tx: 2, amount: Some(1000) },
    ];

    assert_eq!(
        results.into_iter().filter(|record| record.validate().is_err()).count(),
        3
    );
}

#[test]
fn test_record_missing_amount_error() {
    let record = Record { record_type: RecordType::Withdrawal, client: 1, tx: 7, amount: None };
    assert_eq!(record.validate(), Err(RecordError::MissingAmount));
}

#[test]
fn test_record_unexpected_amount_error() {
    let record = Record { record_type: RecordType::Resolve, client: 1, tx: 7, amount: Some(1) };
    assert_eq!(record.validate(), Err(RecordError::UnexpectedAmount));
}

#[test]
fn test_record_type_labels() {
    assert_eq!(RecordType::Deposit.label(), "deposit");
    assert_eq!(RecordType::Withdrawal.label(), "withdrawal");
    assert_eq!(RecordType::Dispute.label(), "dispute");
    assert_eq!(RecordType::Resolve.label(), "resolve");
    assert_eq!(RecordType::Chargeback.label(), "chargeback");
}

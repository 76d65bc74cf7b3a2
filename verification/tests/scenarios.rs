//! End-to-end scenarios and one concrete instance of each stated law of the
//! account state machine, including one input for every error kind.

use payments_ledger::account::{Customer, Ledger};
use payments_ledger::errors::TransactionError;
use payments_ledger::structs::{Record, RecordType};

#[test]
fn scenario_chargeback_locks_account() {
    // deposit(tx=1, 2.0), deposit(tx=2, 3.0), dispute(1), chargeback(1)
    // leaves total 3.0, held 0.0, available 3.0, and the account locked.
    let mut customer = Customer::default();
    customer.deposit(1, 20000).unwrap();
    customer.deposit(2, 30000).unwrap();
    customer.dispute(1).unwrap();
    customer.chargeback(1).unwrap();

    assert_eq!(customer.total_balance(), 30000);
    assert_eq!(customer.held_balance(), 0);
    assert_eq!(customer.total_balance() - customer.held_balance(), 30000);
    assert!(customer.is_locked());

    assert_eq!(customer.deposit(3, 10000), Err(TransactionError::AccountLocked));
    assert_eq!(customer.withdraw(3, 10000), Err(TransactionError::AccountLocked));
}

#[test]
fn scenario_overdraft_rejected() {
    // deposit(tx=1, 2.0) then withdraw(tx=2, 5.0) fails with
    // `InsufficientFunds`; the total stays 2.0.
    let mut customer = Customer::default();
    customer.deposit(1, 20000).unwrap();

    assert_eq!(customer.withdraw(2, 50000), Err(TransactionError::InsufficientFunds));
    assert_eq!(customer.total_balance(), 20000);
}

#[test]
fn scenario_lifecycle_on_empty_account() {
    // On an account with no transactions, dispute, resolve and chargeback
    // each fail with `UnknownTransaction`.
    let mut customer = Customer::default();

    assert_eq!(customer.dispute(1), Err(TransactionError::UnknownTransaction));
    assert_eq!(customer.resolve(1), Err(TransactionError::UnknownTransaction));
    assert_eq!(customer.chargeback(1), Err(TransactionError::UnknownTransaction));
}

#[test]
fn deposit_then_withdraw_restores_total() {
    let mut customer = Customer::default();
    customer.deposit(1, 70000).unwrap();
    let before = customer.total_balance();

    customer.deposit(2, 12345).unwrap();
    customer.withdraw(3, 12345).unwrap();

    assert_eq!(customer.total_balance(), before);
}

#[test]
fn duplicate_tx_always_duplicate_error() {
    let mut customer = Customer::default();
    customer.deposit(1, 20000).unwrap();

    // Whatever the state — even on a locked account — a reused id is
    // reported as a duplicate.
    assert_eq!(customer.deposit(1, 999), Err(TransactionError::DuplicateTransaction));
    assert_eq!(customer.withdraw(1, 999), Err(TransactionError::DuplicateTransaction));

    customer.deposit(9, 0).unwrap();
    customer.dispute(9).unwrap();
    customer.chargeback(9).unwrap();
    assert!(customer.is_locked());
    assert_eq!(customer.deposit(1, 999), Err(TransactionError::DuplicateTransaction));
    assert_eq!(customer.withdraw(1, 999), Err(TransactionError::DuplicateTransaction));
}

#[test]
fn negative_amount_rejected() {
    let mut customer = Customer::default();
    assert_eq!(customer.deposit(1, -1), Err(TransactionError::InvalidAmount));
    assert_eq!(customer.withdraw(1, -1), Err(TransactionError::InvalidAmount));
    assert_eq!(customer.total_balance(), 0);
}

#[test]
fn second_dispute_rejected() {
    let mut customer = Customer::default();
    customer.deposit(1, 20000).unwrap();
    customer.dispute(1).unwrap();

    assert_eq!(customer.dispute(1), Err(TransactionError::AlreadyDisputed));
}

#[test]
fn resolve_without_dispute_rejected() {
    let mut customer = Customer::default();
    customer.deposit(1, 20000).unwrap();

    assert_eq!(customer.resolve(1), Err(TransactionError::NotDisputed));
    assert_eq!(customer.chargeback(1), Err(TransactionError::NotDisputed));
}

#[test]
fn resolve_restores_and_allows_second_dispute() {
    let mut customer = Customer::default();
    customer.deposit(1, 20000).unwrap();
    let held_before = customer.held_balance();

    customer.dispute(1).unwrap();
    customer.resolve(1).unwrap();

    assert_eq!(customer.held_balance(), held_before);
    assert!(!customer.is_disputed(1));
    customer.dispute(1).unwrap();
    assert_eq!(customer.held_balance(), 20000);
}

#[test]
fn disputing_a_withdrawal_holds_zero() {
    // The amount of a withdrawal is intentionally not retained, so
    // disputing it freezes nothing — but it still marks the transaction.
    let mut customer = Customer::default();
    customer.deposit(1, 20000).unwrap();
    customer.withdraw(2, 5000).unwrap();

    customer.dispute(2).unwrap();
    assert_eq!(customer.held_balance(), 0);
    assert_eq!(customer.total_balance(), 15000);
    assert!(customer.is_disputed(2));
    assert_eq!(customer.dispute(2), Err(TransactionError::AlreadyDisputed));

    customer.resolve(2).unwrap();
    assert_eq!(customer.held_balance(), 0);
}

#[test]
fn chargeback_keeps_transaction_disputed() {
    // A charged-back transaction stays in the disputed set: this is the
    // registry's observable behaviour, kept deliberately.
    let mut customer = Customer::default();
    customer.deposit(1, 20000).unwrap();
    customer.dispute(1).unwrap();
    customer.chargeback(1).unwrap();

    assert!(customer.is_disputed(1));
    assert_eq!(customer.disputed_count(), 1);

    // It can therefore still be resolved, which releases the amount again.
    customer.resolve(1).unwrap();
    assert_eq!(customer.held_balance(), -20000);
    assert!(!customer.is_disputed(1));
}

#[test]
fn snapshot_reports_available_as_total_minus_held() {
    let mut ledger = Ledger::new();
    ledger
        .apply(&Record { record_type: RecordType::Deposit, client: 7, tx: 1, amount: Some(41234) })
        .unwrap();
    ledger
        .apply(&Record { record_type: RecordType::Deposit, client: 7, tx: 2, amount: Some(10000) })
        .unwrap();
    ledger
        .apply(&Record { record_type: RecordType::Dispute, client: 7, tx: 1, amount: None })
        .unwrap();

    let rows = ledger.client_records();
    assert_eq!(rows.len(), 1);
    assert_eq!(rows[0].total, 51234);
    assert_eq!(rows[0].held, 41234);
    assert_eq!(rows[0].available, rows[0].total - rows[0].held);
    assert_eq!(rows[0].available, 10000);
}

#[test]
fn snapshot_keeps_registration_order() {
    let mut ledger = Ledger::new();
    for (client, tx) in [(3u16, 1u32), (1u16, 2u32), (2u16, 3u32)] {
        ledger
            .apply(&Record { record_type: RecordType::Deposit, client, tx, amount: Some(10000) })
            .unwrap();
    }

    let rows = ledger.client_records();
    assert_eq!(rows.len(), 3);
    assert_eq!(rows[0].client, 3);
    assert_eq!(rows[1].client, 1);
    assert_eq!(rows[2].client, 2);
}

#[test]
fn apply_reports_operation_errors() {
    let mut ledger = Ledger::new();
    // The account is created even though the operation itself fails.
    let r = ledger.apply(&Record {
        record_type: RecordType::Dispute,
        client: 4,
        tx: 1,
        amount: None,
    });
    assert_eq!(r, Err(TransactionError::UnknownTransaction));
    assert_eq!(ledger.client_records().len(), 1);
}

#[test]
fn error_messages_name_the_cause() {
    assert_eq!(TransactionError::InsufficientFunds.message(), "insufficient funds");
    assert_eq!(TransactionError::AccountLocked.message(), "this account is locked");
}

use std::collections::HashMap;
use std::str::FromStr;

use ledger::account::{Account, ProcessingError, Transaction, TransactionState, TransactionType};
use ledger::amount::Amount;
use ledger::model::{InputRecord, InputRecordType};
use rust_decimal::Decimal;

fn dec(s: &str) -> Decimal {
    Decimal::from_str(s).unwrap()
}

fn amt(s: &str) -> Amount {
    let d = dec(s);
    Amount::new(d.mantissa(), d.scale()).unwrap()
}

fn val(a: Amount) -> Decimal {
    Decimal::from_i128_with_scale(a.mantissa, a.scale)
}

fn record(kind: InputRecordType, transaction_id: u32, amount: Option<Amount>) -> InputRecord {
    InputRecord { kind, client_id: 0, transaction_id, amount }
}

fn with_one(state: TransactionState, amount: &str, kind: TransactionType, available: &str, held: &str) -> Account {
    Account {
        client_id: 0,
        transactions: HashMap::from([(0, Transaction { state, amount: amt(amount), kind })]),
        available: amt(available),
        held: amt(held),
        locked: false,
    }
}

#[test]
fn test_to_output() {
    let account = Account {
        client_id: 1234,
        transactions: HashMap::default(),
        available: amt("10.0"),
        held: amt("15.0"),
        locked: true,
    };

    let output = account.to_output().unwrap();
    assert_eq!(1234, output.client_id);
    assert_eq!(dec("10.0"), val(output.available));
    assert_eq!(dec("15.0"), val(output.held));
    assert_eq!(dec("25.0"), val(output.total));
    assert!(output.locked);
}

#[test]
fn test_process_deposit_success() {
    let mut account = Account::new(0);
    account
        .process_record(&record(InputRecordType::Deposit, 0, Some(amt("1.0"))))
        .unwrap();

    assert_eq!(dec("1.0"), val(account.available));
}

#[test]
fn test_process_deposit_fail_missing_amount() {
    let mut account = Account::new(0);
    let result = account.process_record(&record(InputRecordType::Deposit, 0, None));

    assert!(matches!(result, Err(ProcessingError::AmountMissing)));
}

#[test]
fn test_process_withdrawal_success() {
    let mut account = Account {
        client_id: 0,
        transactions: HashMap::default(),
        available: amt("10.0"),
        held: Amount::zero(),
        locked: false,
    };
    account
        .process_record(&record(InputRecordType::Withdrawal, 0, Some(amt("1.0"))))
        .unwrap();

    assert_eq!(dec("9.0"), val(account.available));
    assert_eq!(dec("-1.0"), val(account.transactions[&0].amount));
}

#[test]
fn test_process_withdraw_fail_missing_amount() {
    let mut account = Account::new(0);
    let result = account.process_record(&record(InputRecordType::Withdrawal, 0, None));

    assert!(matches!(result, Err(ProcessingError::AmountMissing)));
}

#[test]
fn test_process_withdrawal_fail_not_enough_money() {
    let mut account = Account {
        client_id: 0,
        transactions: HashMap::default(),
        available: amt("10.0"),
        held: Amount::zero(),
        locked: false,
    };
    let result = account.process_record(&record(InputRecordType::Withdrawal, 0, Some(amt("11.0"))));

    assert!(matches!(
        result,
        Err(ProcessingError::WithdrawalNotEnoughMoneyAvailable(_, _))
    ));
}

#[test]
fn test_process_dispute_deposit_success() {
    let mut account = with_one(TransactionState::Valid, "10.0", TransactionType::Deposit, "10.0", "0.0");
    account
        .process_record(&record(InputRecordType::Dispute, 0, None))
        .unwrap();

    assert_eq!(dec("0.0"), val(account.available));
    assert_eq!(dec("10.0"), val(account.held));
}

#[test]
fn test_process_dispute_withdrawal_success() {
    let mut account = with_one(TransactionState::Valid, "-10.0", TransactionType::Withdrawal, "0.0", "10.0");
    account
        .process_record(&record(InputRecordType::Dispute, 0, None))
        .unwrap();

    assert_eq!(dec("10.0"), val(account.available));
    assert_eq!(dec("0.0"), val(account.held));
    assert_eq!(TransactionState::Dispute, account.transactions[&0].state);
}

#[test]
fn test_process_dispute_fail_missing_transaction() {
    let mut account = with_one(TransactionState::ChargedBack, "10.0", TransactionType::Deposit, "10.0", "0.0");
    let result = account.process_record(&record(InputRecordType::Dispute, 0, None));
    assert!(matches!(
        result,
        Err(ProcessingError::TransactionWrongState(_, _))
    ));
}

#[test]
fn test_process_dispute_fail_wrong_state() {
    let mut account = with_one(TransactionState::ChargedBack, "10.0", TransactionType::Deposit, "10.0", "0.0");
    let result = account.process_record(&record(InputRecordType::Dispute, 0, None));
    assert!(matches!(
        result,
        Err(ProcessingError::TransactionWrongState(_, _))
    ));
}

#[test]
fn test_process_resolve_deposit_success() {
    let mut account = with_one(TransactionState::Dispute, "10.0", TransactionType::Deposit, "0.0", "10.0");
    account
        .process_record(&record(InputRecordType::Resolve, 0, None))
        .unwrap();

    assert_eq!(dec("0.0"), val(account.available));
    assert_eq!(dec("0.0"), val(account.held));
    assert_eq!(TransactionState::Resolved, account.transactions[&0].state);
}

#[test]
fn test_process_resolve_withdrawal_success() {
    let mut account = with_one(TransactionState::Dispute, "-10.0", TransactionType::Withdrawal, "0.0", "10.0");
    account
        .process_record(&record(InputRecordType::Resolve, 0, None))
        .unwrap();

    assert_eq!(dec("10.0"), val(account.available));
    assert_eq!(dec("0.0"), val(account.held));
    assert_eq!(TransactionState::Resolved, account.transactions[&0].state);
}

#[test]
fn test_process_chargeback_deposit_success() {
    let mut account = with_one(TransactionState::Dispute, "10.0", TransactionType::Deposit, "0.0", "10.0");
    account
        .process_record(&record(InputRecordType::Chargeback, 0, None))
        .unwrap();

    assert_eq!(dec("0.0"), val(account.available));
    assert_eq!(dec("0.0"), val(account.held));
    assert!(account.locked);
    assert_eq!(TransactionState::ChargedBack, account.transactions[&0].state);
}

#[test]
fn test_process_locked_account_fails_everything() {
    let mut account = Account {
        client_id: 0,
        transactions: HashMap::default(),
        available: amt("0.0"),
        held: amt("10.0"),
        locked: true,
    };
    for kind in [
        InputRecordType::Deposit,
        InputRecordType::Withdrawal,
        InputRecordType::Dispute,
        InputRecordType::Resolve,
        InputRecordType::Chargeback,
    ] {
        assert!(matches!(
            account.process_record(&record(kind, 0, None)),
            Err(ProcessingError::AccountIsLocked)
        ));
    }
}

#[test]
fn test_process_transaction_already_exists() {
    let mut account = Account {
        client_id: 0,
        transactions: HashMap::from([(
            0,
            Transaction {
                state: TransactionState::Valid,
                amount: Amount::zero(),
                kind: TransactionType::Deposit,
            },
        )]),
        available: amt("0.0"),
        held: amt("0.0"),
        locked: false,
    };

    assert!(matches!(
        account.process_record(&record(InputRecordType::Deposit, 0, Some(amt("50.0")))),
        Err(ProcessingError::TransactionAlreadyExists(_))
    ));
    assert!(matches!(
        account.process_record(&record(InputRecordType::Withdrawal, 0, Some(amt("50.0")))),
        Err(ProcessingError::TransactionAlreadyExists(_))
    ));
}

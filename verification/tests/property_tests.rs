//! Concrete instances of the ledger's laws, the record dispatch, the
//! reporting helpers, and the amount arithmetic.
//!
//! Monetary values are written as counts of ten-thousandths: `10000` is
//! `1.0000`.

use transactor::amount::{Amount, MIN_UNITS};
use transactor::bank::{Bank, ClientId, Transaction, TransactionId};
use transactor::error::TransactorError;
use transactor::record::{
    apply_record, missing_data, parse_dispute_type_record, TransactionRecord,
    TransactionRecordType,
};

fn deposit(bank: &mut Bank, client: u16, tx: u32, units: i64) -> Result<(), TransactorError> {
    bank.transact(
        ClientId(client),
        Transaction::new(TransactionId(tx), Amount::new(units)),
    )
}

#[test]
fn deposits_with_distinct_ids_sum_exactly() -> Result<(), TransactorError> {
    let mut bank = Bank::new();
    let client = ClientId(1);
    deposit(&mut bank, 1, 1, 15000)?;
    deposit(&mut bank, 1, 2, 1)?;
    deposit(&mut bank, 1, 3, 29999)?;
    deposit(&mut bank, 1, 4, 2)?;
    assert_eq!(bank.account(client).available, Amount::new(45002));
    assert_eq!(bank.account(client).held, Amount::zero());
    assert!(!bank.account(client).locked);
    assert_eq!(bank.account(client).transaction_history.len(), 4);
    Ok(())
}

#[test]
fn overdraft_withdrawal_changes_nothing() -> Result<(), TransactorError> {
    let mut bank = Bank::new();
    let client = ClientId(1);
    deposit(&mut bank, 1, 1, 50000)?;
    bank.transact(
        client,
        Transaction::new(TransactionId(2), Amount::new(-100000)),
    )?;
    assert_eq!(bank.account(client).available, Amount::new(50000));
    assert_eq!(bank.account(client).held, Amount::zero());
    assert!(!bank.account(client).locked);
    assert_eq!(bank.account(client).transaction_history.len(), 1);
    assert!(!bank.account(client).transaction_history.contains_key(&2));
    Ok(())
}

#[test]
fn transaction_id_reuse_fails_and_preserves_state() -> Result<(), TransactorError> {
    let mut bank = Bank::new();
    let client = ClientId(1);
    deposit(&mut bank, 1, 1, 10000)?;
    let second = bank.transact(
        client,
        Transaction::new(TransactionId(1), Amount::new(70000)),
    );
    assert!(matches!(second, Err(TransactorError::TransactionIdReuse)));
    let third = bank.transact(
        client,
        Transaction::new(TransactionId(1), Amount::new(-5000)),
    );
    assert!(matches!(third, Err(TransactorError::TransactionIdReuse)));
    assert_eq!(bank.account(client).available, Amount::new(10000));
    assert_eq!(bank.account(client).held, Amount::zero());
    assert_eq!(bank.account(client).transaction_history.len(), 1);
    Ok(())
}

#[test]
fn dispute_then_resolve_restores_balances() -> Result<(), TransactorError> {
    let mut bank = Bank::new();
    let client = ClientId(1);
    deposit(&mut bank, 1, 1, 25000)?;
    deposit(&mut bank, 1, 2, 10000)?;

    bank.dispute_transaction(client, TransactionId(1))?;
    assert_eq!(bank.account(client).available, Amount::new(10000));
    assert_eq!(bank.account(client).held, Amount::new(25000));

    bank.resolve_disputed_transaction(client, TransactionId(1))?;
    assert_eq!(bank.account(client).available, Amount::new(35000));
    assert_eq!(bank.account(client).held, Amount::zero());
    assert!(bank.account(client).disputed_transactions.is_empty());
    assert_eq!(bank.account(client).transaction_history.len(), 2);
    Ok(())
}

#[test]
fn dispute_then_chargeback_forfeits_held_and_locks() -> Result<(), TransactorError> {
    let mut bank = Bank::new();
    let client = ClientId(1);
    deposit(&mut bank, 1, 1, 25000)?;
    deposit(&mut bank, 1, 2, 10000)?;
    bank.dispute_transaction(client, TransactionId(1))?;
    let available_after_dispute = bank.account(client).available;
    let held_after_dispute = bank.account(client).held;

    bank.chargeback(client, TransactionId(1))?;
    assert_eq!(bank.account(client).available, available_after_dispute);
    assert_eq!(
        bank.account(client).held,
        held_after_dispute.checked_sub(Amount::new(25000)).unwrap()
    );
    assert!(bank.account(client).locked);

    // a further resolve or chargeback of the same id is a no-op
    bank.resolve_disputed_transaction(client, TransactionId(1))?;
    bank.chargeback(client, TransactionId(1))?;
    assert_eq!(bank.account(client).available, available_after_dispute);
    assert_eq!(bank.account(client).held, Amount::zero());
    assert!(bank.account(client).locked);
    Ok(())
}

#[test]
fn dispute_of_open_dispute_is_noop() -> Result<(), TransactorError> {
    let mut bank = Bank::new();
    let client = ClientId(1);
    deposit(&mut bank, 1, 1, 25000)?;
    bank.dispute_transaction(client, TransactionId(1))?;
    let available = bank.account(client).available;
    let held = bank.account(client).held;

    bank.dispute_transaction(client, TransactionId(1))?;
    assert_eq!(bank.account(client).available, available);
    assert_eq!(bank.account(client).held, held);
    assert!(!bank.account(client).locked);
    assert_eq!(bank.account(client).transaction_history.len(), 1);
    assert_eq!(bank.account(client).disputed_transactions.len(), 1);
    Ok(())
}

#[test]
fn deposit_withdraw_dispute_chargeback_scenario() -> Result<(), TransactorError> {
    let mut bank = Bank::new();
    let client = ClientId(1);
    // deposit 100.0000, withdraw 30.0000
    deposit(&mut bank, 1, 1, 1000000)?;
    bank.transact(
        client,
        Transaction::new(TransactionId(2), Amount::new(-300000)),
    )?;
    assert_eq!(bank.account(client).available, Amount::new(700000));
    assert_eq!(bank.account(client).held, Amount::zero());
    assert_eq!(bank.account(client).total()?, Amount::new(700000));
    assert!(!bank.account(client).locked);

    bank.dispute_transaction(client, TransactionId(1))?;
    assert_eq!(bank.account(client).available, Amount::new(-300000));
    assert_eq!(bank.account(client).held, Amount::new(1000000));

    bank.chargeback(client, TransactionId(1))?;
    assert_eq!(bank.account(client).available, Amount::new(-300000));
    assert_eq!(bank.account(client).held, Amount::zero());
    assert!(bank.account(client).locked);

    // a following deposit is a no-op: state unchanged
    deposit(&mut bank, 1, 3, 50000)?;
    assert_eq!(bank.account(client).available, Amount::new(-300000));
    assert_eq!(bank.account(client).held, Amount::zero());
    assert!(bank.account(client).locked);
    assert!(!bank.account(client).transaction_history.contains_key(&3));
    Ok(())
}

#[test]
fn depositing_max_twice_overflows_and_records_one_entry() -> Result<(), TransactorError> {
    let mut bank = Bank::new();
    let client = ClientId(1);
    bank.transact(
        client,
        Transaction::new(TransactionId(1), Amount::max_value()),
    )?;
    let second = bank.transact(
        client,
        Transaction::new(TransactionId(2), Amount::max_value()),
    );
    assert!(matches!(second, Err(TransactorError::Overflow)));
    assert_eq!(bank.account(client).transaction_history.len(), 1);
    assert!(bank.account(client).transaction_history.contains_key(&1));
    Ok(())
}

#[test]
fn apply_record_rejects_deposit_without_amount() {
    let mut bank = Bank::new();
    let record = TransactionRecord {
        record_type: TransactionRecordType::Deposit,
        client: 1,
        tx: 1,
        amount: None,
    };
    let r = apply_record(&mut bank, record);
    assert!(
        matches!(r, Err(TransactorError::InvalidData(ref s)) if s == "Missing field in input")
    );
    assert!(bank.get_accounts().is_empty());
}

#[test]
fn apply_record_rejects_negative_deposit_and_withdrawal() {
    let mut bank = Bank::new();
    let r = apply_record(
        &mut bank,
        TransactionRecord {
            record_type: TransactionRecordType::Deposit,
            client: 1,
            tx: 1,
            amount: Some(Amount::new(-10000)),
        },
    );
    assert!(
        matches!(r, Err(TransactorError::InvalidData(ref s)) if s == "Deposit of negative amount attempted")
    );
    let r = apply_record(
        &mut bank,
        TransactionRecord {
            record_type: TransactionRecordType::Withdrawal,
            client: 1,
            tx: 1,
            amount: Some(Amount::new(-10000)),
        },
    );
    assert!(
        matches!(r, Err(TransactorError::InvalidData(ref s)) if s == "Withdrawal of a negative amount attempted")
    );
    assert!(bank.get_accounts().is_empty());
}

#[test]
fn apply_record_rejects_amount_on_dispute_kinds() {
    let mut bank = Bank::new();
    for record_type in [
        TransactionRecordType::Dispute,
        TransactionRecordType::Resolve,
        TransactionRecordType::Chargeback,
    ] {
        let r = apply_record(
            &mut bank,
            TransactionRecord {
                record_type,
                client: 1,
                tx: 1,
                amount: Some(Amount::new(10000)),
            },
        );
        assert!(
            matches!(r, Err(TransactorError::InvalidData(ref s)) if s == "Found amount in non-transaction type record")
        );
    }
    assert!(bank.get_accounts().is_empty());
}

#[test]
fn apply_record_runs_the_dispute_lifecycle() -> Result<(), TransactorError> {
    let mut bank = Bank::new();
    let deposit_record = TransactionRecord {
        record_type: TransactionRecordType::Deposit,
        client: 7,
        tx: 1,
        amount: Some(Amount::new(1000000)),
    };
    apply_record(&mut bank, deposit_record)?;
    let withdrawal_record = TransactionRecord {
        record_type: TransactionRecordType::Withdrawal,
        client: 7,
        tx: 2,
        amount: Some(Amount::new(300000)),
    };
    apply_record(&mut bank, withdrawal_record)?;
    assert_eq!(bank.account(ClientId(7)).available, Amount::new(700000));

    let dispute_record = TransactionRecord {
        record_type: TransactionRecordType::Dispute,
        client: 7,
        tx: 2,
        amount: None,
    };
    apply_record(&mut bank, dispute_record)?;
    assert_eq!(bank.account(ClientId(7)).available, Amount::new(400000));
    assert_eq!(bank.account(ClientId(7)).held, Amount::new(300000));

    let resolve_record = TransactionRecord {
        record_type: TransactionRecordType::Resolve,
        client: 7,
        tx: 2,
        amount: None,
    };
    apply_record(&mut bank, resolve_record)?;
    assert_eq!(bank.account(ClientId(7)).available, Amount::new(700000));
    assert_eq!(bank.account(ClientId(7)).held, Amount::zero());

    let chargeback_record = TransactionRecord {
        record_type: TransactionRecordType::Chargeback,
        client: 7,
        tx: 2,
        amount: None,
    };
    // no open dispute: ignored
    apply_record(&mut bank, chargeback_record)?;
    assert!(!bank.account(ClientId(7)).locked);
    Ok(())
}

#[test]
fn parse_dispute_type_record_splits_identifiers() {
    let record = TransactionRecord {
        record_type: TransactionRecordType::Dispute,
        client: 3,
        tx: 9,
        amount: None,
    };
    assert_eq!(
        parse_dispute_type_record(record).unwrap(),
        (ClientId(3), TransactionId(9))
    );
}

#[test]
fn missing_data_is_invalid_data() {
    assert!(
        matches!(missing_data(), TransactorError::InvalidData(ref s) if s == "Missing field in input")
    );
}

#[test]
fn get_accounts_enumerates_every_touched_client() -> Result<(), TransactorError> {
    let mut bank = Bank::new();
    deposit(&mut bank, 5, 1, 10000)?;
    deposit(&mut bank, 2, 2, 20000)?;
    bank.dispute_transaction(ClientId(9), TransactionId(3))?;
    let accounts = bank.get_accounts();
    assert_eq!(accounts.len(), 3);
    let clients: Vec<u16> = accounts.iter().map(|a| a.client_id.0).collect();
    assert_eq!(clients, vec![5, 2, 9]);
    Ok(())
}

#[test]
fn total_is_available_plus_held_or_overflow() -> Result<(), TransactorError> {
    let mut bank = Bank::new();
    let client = ClientId(1);
    deposit(&mut bank, 1, 1, 30000)?;
    deposit(&mut bank, 1, 2, 40000)?;
    bank.dispute_transaction(client, TransactionId(1))?;
    assert_eq!(bank.account(client).total()?, Amount::new(70000));

    bank.account(client).available = Amount::max_value();
    bank.account(client).held = Amount::max_value();
    assert!(matches!(
        bank.account(client).total(),
        Err(TransactorError::Overflow)
    ));
    Ok(())
}

#[test]
fn amount_checked_arithmetic_detects_range_overflow() {
    let max = Amount::max_value();
    assert_eq!(max.checked_add(Amount::new(-1)).unwrap(), Amount::new(i64::MAX - 1));
    assert!(max.checked_add(Amount::new(1)).is_none());
    assert!(max.neg().checked_sub(Amount::new(1)).is_none());
    assert_eq!(
        Amount::new(25000).checked_sub(Amount::new(5000)).unwrap(),
        Amount::new(20000)
    );
    // the range is symmetric: the negation of the maximum is representable,
    // one less is not
    assert_eq!(max.neg().checked_add(Amount::zero()).unwrap(), Amount::new(MIN_UNITS));
    assert!(Amount::new(MIN_UNITS).checked_sub(Amount::new(1)).is_none());
}

#[test]
fn amount_abs_neg_and_sign_queries() {
    let a = Amount::new(-12345);
    assert_eq!(a.abs(), Amount::new(12345));
    assert_eq!(a.neg(), Amount::new(12345));
    assert_eq!(a.neg().neg(), a);
    assert!(a.is_negative());
    assert!(!a.is_positive());
    assert!(Amount::new(1).is_positive());
    assert!(!Amount::zero().is_negative());
    assert!(!Amount::zero().is_positive());
    assert_eq!(Amount::zero().abs(), Amount::zero());
    assert_eq!(a.units(), -12345);
    assert_eq!(Amount::max_value().units(), i64::MAX);
}

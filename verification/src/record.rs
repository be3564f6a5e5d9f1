//! Typed input records and their dispatch onto the ledger.
//!
//! An input adapter decodes one external row into a [`TransactionRecord`];
//! [`apply_record`] validates the record's shape for its kind (amount
//! required and non-negative for deposit and withdrawal, absent for the
//! dispute lifecycle kinds) and applies it to the [`Bank`].

use vstd::prelude::*;

use crate::amount::Amount;
use crate::bank::{Bank, ClientId, Transaction, TransactionId};
use crate::error::TransactorError;
use crate::model::{account_or_new, spec_chargeback, spec_dispute, spec_resolve, spec_transact};

verus! {

broadcast use vstd::string::group_string_axioms;

/// The kind of one input record.
#[derive(Debug, Copy, Clone, Eq, PartialEq, Structural)]
pub enum TransactionRecordType {
    Deposit,
    Withdrawal,
    Dispute,
    Resolve,
    Chargeback,
}

/// One decoded input record: a kind, a client, a transaction id, and an
/// amount that is only meaningful for deposits and withdrawals.
#[derive(Debug, Copy, Clone)]
pub struct TransactionRecord {
    pub record_type: TransactionRecordType,
    pub client: u16,
    pub tx: u32,
    pub amount: Option<Amount>,
}

/// True when the record's shape fits its kind: deposits and withdrawals
/// carry a non-negative amount, the dispute lifecycle kinds carry none.
pub open spec fn record_wellformed(record: TransactionRecord) -> bool {
    match record.record_type {
        TransactionRecordType::Deposit | TransactionRecordType::Withdrawal => {
            record.amount matches Some(a) && a@ >= 0
        },
        _ => record.amount is None,
    }
}

/// The error for a record that lacks a required field.
pub fn missing_data() -> (e: TransactorError)
    ensures
        e matches TransactorError::InvalidData(s) && s@ == "Missing field in input"@,
{
    TransactorError::InvalidData("Missing field in input".to_string())
}

/// Splits a dispute, resolve or chargeback record into its identifiers,
/// rejecting a record that carries an amount.
pub fn parse_dispute_type_record(record: TransactionRecord) -> (r: Result<
    (ClientId, TransactionId),
    TransactorError,
>)
    ensures
        record.amount is Some ==> (r matches Err(e) && e matches TransactorError::InvalidData(s)
            && s@ == "Found amount in non-transaction type record"@),
        record.amount is None ==> r == Ok::<(ClientId, TransactionId), TransactorError>(
            (ClientId(record.client), TransactionId(record.tx)),
        ),
{
    if record.amount.is_some() {
        Err(
            TransactorError::InvalidData(
                "Found amount in non-transaction type record".to_string(),
            ),
        )
    } else {
        Ok((ClientId(record.client), TransactionId(record.tx)))
    }
}

/// Validates one record and applies it to the ledger.
///
/// A record whose shape is wrong for its kind fails with `InvalidData` and
/// leaves the ledger untouched; a well-formed record makes exactly the
/// transition of its kind's spec function on the client's account.
pub fn apply_record(bank: &mut Bank, record: TransactionRecord) -> (r: Result<
    (),
    TransactorError,
>)
    requires
        old(bank).inv(),
    ensures
        final(bank).inv(),
        !record_wellformed(record) ==> (final(bank)@ == old(bank)@ && final(bank).clients() == old(
            bank,
        ).clients() && (r matches Err(e) && e is InvalidData)),
        (record.record_type == TransactionRecordType::Deposit || record.record_type
            == TransactionRecordType::Withdrawal) && record.amount is None ==> (r matches Err(e)
            && e matches TransactorError::InvalidData(s) && s@ == "Missing field in input"@),
        record.record_type == TransactionRecordType::Deposit && (record.amount matches Some(a)
            && a@ < 0) ==> (r matches Err(e) && e matches TransactorError::InvalidData(s) && s@
            == "Deposit of negative amount attempted"@),
        record.record_type == TransactionRecordType::Withdrawal && (record.amount matches Some(a)
            && a@ < 0) ==> (r matches Err(e) && e matches TransactorError::InvalidData(s) && s@
            == "Withdrawal of a negative amount attempted"@),
        !(record.record_type == TransactionRecordType::Deposit || record.record_type
            == TransactionRecordType::Withdrawal) && record.amount is Some ==> (r matches Err(e)
            && e matches TransactorError::InvalidData(s) && s@
            == "Found amount in non-transaction type record"@),
        record_wellformed(record) ==> final(bank).clients() == if old(bank)@.contains_key(
            record.client,
        ) {
            old(bank).clients()
        } else {
            old(bank).clients().push(record.client)
        },
        record_wellformed(record) && record.record_type == TransactionRecordType::Deposit ==> {
            let a = record.amount.unwrap();
            &&& final(bank)@ == old(bank)@.insert(
                record.client,
                spec_transact(account_or_new(old(bank)@, record.client), record.tx, a@).0,
            )
            &&& r == spec_transact(account_or_new(old(bank)@, record.client), record.tx, a@).1
        },
        record_wellformed(record) && record.record_type == TransactionRecordType::Withdrawal ==> {
            let a = record.amount.unwrap();
            &&& final(bank)@ == old(bank)@.insert(
                record.client,
                spec_transact(account_or_new(old(bank)@, record.client), record.tx, -a@).0,
            )
            &&& r == spec_transact(account_or_new(old(bank)@, record.client), record.tx, -a@).1
        },
        record_wellformed(record) && record.record_type == TransactionRecordType::Dispute ==> {
            &&& final(bank)@ == old(bank)@.insert(
                record.client,
                spec_dispute(account_or_new(old(bank)@, record.client), record.tx).0,
            )
            &&& r == spec_dispute(account_or_new(old(bank)@, record.client), record.tx).1
        },
        record_wellformed(record) && record.record_type == TransactionRecordType::Resolve ==> {
            &&& final(bank)@ == old(bank)@.insert(
                record.client,
                spec_resolve(account_or_new(old(bank)@, record.client), record.tx).0,
            )
            &&& r == spec_resolve(account_or_new(old(bank)@, record.client), record.tx).1
        },
        record_wellformed(record) && record.record_type == TransactionRecordType::Chargeback ==> {
            &&& final(bank)@ == old(bank)@.insert(
                record.client,
                spec_chargeback(account_or_new(old(bank)@, record.client), record.tx).0,
            )
            &&& r == spec_chargeback(account_or_new(old(bank)@, record.client), record.tx).1
        },
{
    match record.record_type {
        TransactionRecordType::Deposit => {
            let amount = match record.amount {
                Some(a) => a,
                None => {
                    return Err(missing_data());
                },
            };
            if amount.is_negative() {
                Err(
                    TransactorError::InvalidData(
                        "Deposit of negative amount attempted".to_string(),
                    ),
                )
            } else {
                bank.transact(
                    ClientId(record.client),
                    Transaction::new(TransactionId(record.tx), amount),
                )
            }
        },
        TransactionRecordType::Withdrawal => {
            let amount = match record.amount {
                Some(a) => a,
                None => {
                    return Err(missing_data());
                },
            };
            if amount.is_negative() {
                Err(
                    TransactorError::InvalidData(
                        "Withdrawal of a negative amount attempted".to_string(),
                    ),
                )
            } else {
                bank.transact(
                    ClientId(record.client),
                    Transaction::new(TransactionId(record.tx), amount.neg()),
                )
            }
        },
        TransactionRecordType::Dispute => {
            match parse_dispute_type_record(record) {
                Ok((client, transaction)) => bank.dispute_transaction(client, transaction),
                Err(e) => Err(e),
            }
        },
        TransactionRecordType::Resolve => {
            match parse_dispute_type_record(record) {
                Ok((client, transaction)) => bank.resolve_disputed_transaction(
                    client,
                    transaction,
                ),
                Err(e) => Err(e),
            }
        },
        TransactionRecordType::Chargeback => {
            match parse_dispute_type_record(record) {
                Ok((client, transaction)) => bank.chargeback(client, transaction),
                Err(e) => Err(e),
            }
        },
    }
}

} // verus!

//! The mathematical model of an account and of the five operations.
//!
//! Every executable operation of the ledger promises, in its `ensures`, that
//! the account it touched made exactly the transition described by the spec
//! function of the same operation here. The model works on unbounded integers
//! (counts of ten-thousandths); the representable range of the executable
//! [`crate::amount::Amount`] enters only through [`crate::amount::in_range`].

use vstd::prelude::*;

use crate::amount::in_range;
use crate::error::TransactorError;

verus! {

/// The abstract state of one client account.
///
/// `history` maps the id of every accepted deposit or withdrawal to its
/// signed amount (positive for a deposit, negative for a withdrawal);
/// `disputes` holds the ids whose dispute is currently open.
#[verifier::ext_equal]
pub ghost struct AccountView {
    pub client: u16,
    pub available: int,
    pub held: int,
    pub locked: bool,
    pub history: Map<u32, int>,
    pub disputes: Set<u32>,
}

/// The state a fresh account materializes with on first reference.
pub open spec fn fresh_account(client: u16) -> AccountView {
    AccountView {
        client: client,
        available: 0,
        held: 0,
        locked: false,
        history: Map::empty(),
        disputes: Set::empty(),
    }
}

/// One deposit or withdrawal: `amount` is positive for a deposit and negative
/// for a withdrawal.
///
/// A locked account ignores the operation. A reused id is an error. A
/// balance leaving the representable range is an error. A withdrawal that
/// would make `available` negative is silently dropped; everything else
/// commits the new balance and records the transaction.
pub open spec fn spec_transact(a: AccountView, tx: u32, amount: int) -> (AccountView, Result<
    (),
    TransactorError,
>) {
    if a.locked {
        (a, Ok(()))
    } else if a.history.contains_key(tx) {
        (a, Err(TransactorError::TransactionIdReuse))
    } else {
        let new_balance = a.available + amount;
        if !in_range(new_balance) {
            (a, Err(TransactorError::Overflow))
        } else if amount > 0 || new_balance >= 0 {
            (
                AccountView {
                    available: new_balance,
                    history: a.history.insert(tx, amount),
                    ..a
                },
                Ok(()),
            )
        } else {
            (a, Ok(()))
        }
    }
}

/// A dispute: moves the absolute amount of the referenced transaction from
/// `available` to `held`, all-or-nothing, and opens the dispute.
///
/// An unknown or already-disputed id is a no-op.
pub open spec fn spec_dispute(a: AccountView, tx: u32) -> (AccountView, Result<
    (),
    TransactorError,
>) {
    if a.disputes.contains(tx) || !a.history.contains_key(tx) {
        (a, Ok(()))
    } else {
        let m = vstd::math::abs(a.history[tx]);
        let new_available = a.available - m;
        let new_held = a.held + m;
        if !in_range(new_available) || !in_range(new_held) {
            (a, Err(TransactorError::Overflow))
        } else {
            (
                AccountView {
                    available: new_available,
                    held: new_held,
                    disputes: a.disputes.insert(tx),
                    ..a
                },
                Ok(()),
            )
        }
    }
}

/// A resolve: the exact inverse of a dispute's fund move, all-or-nothing,
/// closing the dispute.
///
/// An id without an open dispute is a no-op.
pub open spec fn spec_resolve(a: AccountView, tx: u32) -> (AccountView, Result<
    (),
    TransactorError,
>) {
    if !a.disputes.contains(tx) || !a.history.contains_key(tx) {
        (a, Ok(()))
    } else {
        let m = vstd::math::abs(a.history[tx]);
        let new_available = a.available + m;
        let new_held = a.held - m;
        if !in_range(new_available) || !in_range(new_held) {
            (a, Err(TransactorError::Overflow))
        } else {
            (
                AccountView {
                    available: new_available,
                    held: new_held,
                    disputes: a.disputes.remove(tx),
                    ..a
                },
                Ok(()),
            )
        }
    }
}

/// A chargeback: forfeits the held funds of the disputed transaction,
/// closes the dispute and locks the account for good. `available` is
/// untouched: those funds were moved out when the dispute opened.
///
/// An id without an open dispute is a no-op.
pub open spec fn spec_chargeback(a: AccountView, tx: u32) -> (AccountView, Result<
    (),
    TransactorError,
>) {
    if !a.disputes.contains(tx) || !a.history.contains_key(tx) {
        (a, Ok(()))
    } else {
        let m = vstd::math::abs(a.history[tx]);
        let new_held = a.held - m;
        if !in_range(new_held) {
            (a, Err(TransactorError::Overflow))
        } else {
            (
                AccountView {
                    held: new_held,
                    locked: true,
                    disputes: a.disputes.remove(tx),
                    ..a
                },
                Ok(()),
            )
        }
    }
}

/// The account an operation acts on: the stored one, or a fresh one
/// materialized on first reference to the client.
pub open spec fn account_or_new(accounts: Map<u16, AccountView>, client: u16) -> AccountView {
    if accounts.contains_key(client) {
        accounts[client]
    } else {
        fresh_account(client)
    }
}

} // verus!

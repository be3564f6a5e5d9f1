//! The closed failure taxonomy of the ledger.

use vstd::prelude::*;

verus! {

/// A typed failure of a single ledger operation.
///
/// Business-logic denials (an overdraft-causing withdrawal, a dispute
/// lifecycle call that refers to an unknown or not-currently-open
/// transaction, a write against a locked account) are *not* errors: they
/// return success with no mutation.
#[derive(Debug)]
pub enum TransactorError {
    /// A checked arithmetic step on a balance would leave the representable
    /// range.
    Overflow,
    /// A record is structurally wrong for its kind (missing or extra amount,
    /// negative deposit or withdrawal amount).
    InvalidData(String),
    /// A deposit or withdrawal reuses a transaction id already present in the
    /// client's history.
    TransactionIdReuse,
}

} // verus!

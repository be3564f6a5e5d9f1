//! The laws of the ledger, proved once and for all over the model in
//! [`crate::model`]. Every executable operation promises exactly the
//! transition of its spec function, so each law transfers to the running
//! code.

use vstd::prelude::*;

use vstd::math::abs;

use crate::amount::in_range;
use crate::error::TransactorError;
use crate::model::{spec_chargeback, spec_dispute, spec_resolve, spec_transact, AccountView};

verus! {

/// The sum of the signed amounts of a sequence of transactions.
pub open spec fn sum_amounts(txs: Seq<(u32, int)>) -> int
    decreases txs.len(),
{
    if txs.len() == 0 {
        0
    } else {
        txs[0].1 + sum_amounts(txs.drop_first())
    }
}

/// The account state after replaying a sequence of deposits and
/// withdrawals in order, each given as an id and a signed amount.
pub open spec fn apply_transactions(a: AccountView, txs: Seq<(u32, int)>) -> AccountView
    decreases txs.len(),
{
    if txs.len() == 0 {
        a
    } else {
        apply_transactions(spec_transact(a, txs[0].0, txs[0].1).0, txs.drop_first())
    }
}

/// True when every transaction in the sequence is a deposit that commits:
/// its amount is positive, its id is new to the history reached at its turn
/// (so the ids are pairwise distinct), and the balance it produces stays in
/// the representable range.
pub open spec fn deposits_admissible(a: AccountView, txs: Seq<(u32, int)>) -> bool
    decreases txs.len(),
{
    txs.len() == 0 || {
        &&& txs[0].1 > 0
        &&& !a.history.contains_key(txs[0].0)
        &&& in_range(a.available + txs[0].1)
        &&& deposits_admissible(spec_transact(a, txs[0].0, txs[0].1).0, txs.drop_first())
    }
}

/// For any sequence of deposits with distinct ids on an unlocked account,
/// the final `available` is exactly the sum of their amounts — no rounding
/// drift — and `held` and the locked flag are untouched.
pub proof fn lemma_deposits_sum(a: AccountView, txs: Seq<(u32, int)>)
    requires
        !a.locked,
        deposits_admissible(a, txs),
    ensures
        apply_transactions(a, txs).available == a.available + sum_amounts(txs),
        apply_transactions(a, txs).held == a.held,
        apply_transactions(a, txs).locked == a.locked,
    decreases txs.len(),
{
    if txs.len() > 0 {
        let a1 = spec_transact(a, txs[0].0, txs[0].1).0;
        assert(a1.available == a.available + txs[0].1);
        lemma_deposits_sum(a1, txs.drop_first());
    }
}

/// A withdrawal that would make `available` negative changes nothing and is
/// never recorded.
pub proof fn lemma_overdraft_withdrawal_is_noop(a: AccountView, tx: u32, amount: int)
    requires
        amount < 0,
        !a.history.contains_key(tx),
        a.available + amount < 0,
    ensures
        spec_transact(a, tx, amount).0 == a,
        !spec_transact(a, tx, amount).0.history.contains_key(tx),
{
}

/// Reusing a transaction id on an unlocked account always fails with
/// `TransactionIdReuse` and leaves the account unchanged.
pub proof fn lemma_transaction_id_reuse(a: AccountView, tx: u32, amount: int)
    requires
        !a.locked,
        a.history.contains_key(tx),
    ensures
        spec_transact(a, tx, amount) == (
            a,
            Err::<(), TransactorError>(TransactorError::TransactionIdReuse),
        ),
{
}

/// Dispute followed by resolve of the same transaction succeeds and restores
/// the account exactly: `available`, `held`, the history, the open-dispute
/// set and the locked flag all return to their pre-dispute values.
pub proof fn lemma_dispute_resolve_roundtrip(a: AccountView, tx: u32)
    requires
        a.history.contains_key(tx),
        !a.disputes.contains(tx),
        in_range(a.available),
        in_range(a.held),
        in_range(a.available - abs(a.history[tx])),
        in_range(a.held + abs(a.history[tx])),
    ensures
        spec_dispute(a, tx).1 == Ok::<(), TransactorError>(()),
        spec_resolve(spec_dispute(a, tx).0, tx).1 == Ok::<(), TransactorError>(()),
        spec_resolve(spec_dispute(a, tx).0, tx).0 == a,
{
}

/// Dispute followed by chargeback: `held` ends exactly where it started
/// (the disputed amount moved in and was then forfeited), `available` keeps
/// its post-dispute value, the account is locked, and a further resolve or
/// chargeback of the same id is a no-op.
pub proof fn lemma_dispute_chargeback(a: AccountView, tx: u32)
    requires
        a.history.contains_key(tx),
        !a.disputes.contains(tx),
        in_range(a.held),
        in_range(a.available - abs(a.history[tx])),
        in_range(a.held + abs(a.history[tx])),
    ensures
        spec_dispute(a, tx).1 == Ok::<(), TransactorError>(()),
        spec_chargeback(spec_dispute(a, tx).0, tx).1 == Ok::<(), TransactorError>(()),
        ({
            let a1 = spec_dispute(a, tx).0;
            let a2 = spec_chargeback(a1, tx).0;
            &&& a2.held == a1.held - abs(a.history[tx])
            &&& a2.held == a.held
            &&& a2.available == a1.available
            &&& a2.locked
            &&& !a2.disputes.contains(tx)
            &&& spec_resolve(a2, tx) == (a2, Ok::<(), TransactorError>(()))
            &&& spec_chargeback(a2, tx) == (a2, Ok::<(), TransactorError>(()))
        }),
{
}

/// Once locked, an account never unlocks, whatever operation is applied.
pub proof fn lemma_locked_is_permanent(a: AccountView, tx: u32, amount: int)
    requires
        a.locked,
    ensures
        spec_transact(a, tx, amount).0.locked,
        spec_dispute(a, tx).0.locked,
        spec_resolve(a, tx).0.locked,
        spec_chargeback(a, tx).0.locked,
{
}

/// Disputing an id that is unknown or already under dispute is a no-op: the
/// operation succeeds and every part of the account is unchanged.
pub proof fn lemma_dispute_unknown_or_open_is_noop(a: AccountView, tx: u32)
    requires
        !a.history.contains_key(tx) || a.disputes.contains(tx),
    ensures
        spec_dispute(a, tx) == (a, Ok::<(), TransactorError>(())),
{
}

} // verus!

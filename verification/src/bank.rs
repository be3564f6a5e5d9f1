//! The ledger engine: accounts, accepted transactions, and the dispatcher
//! for the five operation kinds.

use std::collections::{HashMap, HashSet};

use vstd::prelude::*;

use crate::amount::{in_range, Amount};
use crate::error::TransactorError;
use crate::model::{
    account_or_new, fresh_account, spec_chargeback, spec_dispute, spec_resolve, spec_transact,
    AccountView,
};

verus! {

broadcast use vstd::std_specs::hash::group_hash_axioms, vstd::seq_lib::group_seq_properties;

/// The identifier of one deposit or withdrawal, unique across all accepted
/// transactions for the lifetime of a ledger.
#[derive(Copy, Clone, Debug, Eq, PartialEq, Hash, Structural)]
pub struct TransactionId(pub u32);

/// The identifier of one client account.
#[derive(Copy, Clone, Debug, Eq, PartialEq, Hash, Structural)]
pub struct ClientId(pub u16);

/// An immutable record of one accepted deposit or withdrawal. The sign of
/// `amount` encodes the kind: positive is a deposit, negative a withdrawal.
#[derive(Debug, Eq, PartialEq, Copy, Clone, Structural)]
pub struct Transaction {
    pub transaction_id: TransactionId,
    pub amount: Amount,
}

impl Transaction {
    /// Builds a transaction record.
    pub fn new(transaction_id: TransactionId, amount: Amount) -> (r: Transaction)
        ensures
            r.transaction_id == transaction_id,
            r.amount == amount,
    {
        Transaction { transaction_id, amount }
    }
}

/// Mutable per-client state. The balances and the locked flag may be
/// inspected (and, for test setups, written) directly; the transaction
/// history and the open-dispute set are written only by the ledger.
pub struct Account {
    pub client_id: ClientId,
    pub available: Amount,
    pub held: Amount,
    pub locked: bool,
    pub transaction_history: HashMap<u32, Transaction>,
    pub disputed_transactions: HashSet<u32>,
}

impl View for Account {
    type V = AccountView;

    /// The abstract state of the account: balances as integers, the history
    /// as a map from transaction id to signed amount, the open disputes as a
    /// set of ids.
    open spec fn view(&self) -> AccountView {
        AccountView {
            client: self.client_id.0,
            available: self.available@,
            held: self.held@,
            locked: self.locked,
            history: self.transaction_history@.map_values(|t: Transaction| t.amount@),
            disputes: self.disputed_transactions@,
        }
    }
}

impl Account {
    /// The account's internal invariant: every history entry is keyed by its
    /// own transaction id, and every open dispute refers to a history entry.
    pub open spec fn inv(&self) -> bool {
        &&& forall|t: u32| #[trigger]
            self.transaction_history@.contains_key(t)
                ==> self.transaction_history@[t].transaction_id.0 == t
        &&& self.disputed_transactions@.subset_of(self.transaction_history@.dom())
    }

    /// A fresh account: zero balances, unlocked, empty history and disputes.
    pub fn new(client_id: ClientId) -> (r: Account)
        ensures
            r@ == fresh_account(client_id.0),
            r.inv(),
            r.client_id == client_id,
    {
        let r = Account {
            client_id,
            available: Amount::zero(),
            held: Amount::zero(),
            locked: false,
            transaction_history: HashMap::new(),
            disputed_transactions: HashSet::new(),
        };
        proof {
            assert(r@ =~= fresh_account(client_id.0));
        }
        r
    }

    /// The account's total funds: available plus held.
    pub fn total(&self) -> (r: Result<Amount, TransactorError>)
        ensures
            in_range(self@.available + self@.held) ==> (r matches Ok(a) && a@ == self@.available
                + self@.held),
            !in_range(self@.available + self@.held) ==> r == Err::<Amount, TransactorError>(
                TransactorError::Overflow,
            ),
    {
        match self.available.checked_add(self.held) {
            Some(t) => Ok(t),
            None => Err(TransactorError::Overflow),
        }
    }

    /// Applies one deposit or withdrawal, as [`spec_transact`] describes.
    fn apply_transact(&mut self, transaction: Transaction) -> (r: Result<(), TransactorError>)
        requires
            old(self).inv(),
        ensures
            final(self).inv(),
            final(self).client_id == old(self).client_id,
            final(self)@ == spec_transact(
                old(self)@,
                transaction.transaction_id.0,
                transaction.amount@,
            ).0,
            r == spec_transact(old(self)@, transaction.transaction_id.0, transaction.amount@).1,
    {
        if self.locked {
            return Ok(());
        }
        if self.transaction_history.contains_key(&transaction.transaction_id.0) {
            return Err(TransactorError::TransactionIdReuse);
        }
        let new_balance = match self.available.checked_add(transaction.amount) {
            Some(b) => b,
            None => {
                return Err(TransactorError::Overflow);
            },
        };
        if transaction.amount.is_positive() || !new_balance.is_negative() {
            self.available = new_balance;
            self.transaction_history.insert(transaction.transaction_id.0, transaction);
            proof {
                assert(self@ =~= spec_transact(
                    old(self)@,
                    transaction.transaction_id.0,
                    transaction.amount@,
                ).0);
            }
        }
        Ok(())
    }

    /// Moves `amount` from `available` to `held`, all-or-nothing: on range
    /// overflow of either field, neither changes.
    fn move_funds_from_available_to_held(&mut self, amount: Amount) -> (r: Result<
        (),
        TransactorError,
    >)
        ensures
            final(self).client_id == old(self).client_id,
            final(self).locked == old(self).locked,
            final(self).transaction_history == old(self).transaction_history,
            final(self).disputed_transactions == old(self).disputed_transactions,
            in_range(old(self)@.available - amount@) && in_range(old(self)@.held + amount@) ==> (r
                == Ok::<(), TransactorError>(()) && final(self)@.available == old(self)@.available
                - amount@ && final(self)@.held == old(self)@.held + amount@),
            !(in_range(old(self)@.available - amount@) && in_range(old(self)@.held + amount@))
                ==> (r == Err::<(), TransactorError>(TransactorError::Overflow) && *final(self)
                == *old(self)),
    {
        let new_available = self.available.checked_sub(amount);
        let new_held = self.held.checked_add(amount);
        match (new_available, new_held) {
            (Some(a), Some(h)) => {
                self.available = a;
                self.held = h;
                Ok(())
            },
            _ => Err(TransactorError::Overflow),
        }
    }

    /// Applies one dispute, as [`spec_dispute`] describes.
    fn apply_dispute(&mut self, dispute: TransactionId) -> (r: Result<(), TransactorError>)
        requires
            old(self).inv(),
        ensures
            final(self).inv(),
            final(self).client_id == old(self).client_id,
            final(self)@ == spec_dispute(old(self)@, dispute.0).0,
            r == spec_dispute(old(self)@, dispute.0).1,
    {
        if self.disputed_transactions.contains(&dispute.0) || !self.transaction_history.contains_key(
            &dispute.0,
        ) {
            return Ok(());
        }
        let transaction_amount = match self.transaction_history.get(&dispute.0) {
            Some(t) => t.amount,
            None => vstd::pervasive::unreached(),
        };
        let disputed_amount = transaction_amount.abs();
        match self.move_funds_from_available_to_held(disputed_amount) {
            Ok(()) => {},
            Err(e) => {
                return Err(e);
            },
        }
        self.disputed_transactions.insert(dispute.0);
        proof {
            assert(self@ =~= spec_dispute(old(self)@, dispute.0).0);
        }
        Ok(())
    }

    /// Applies one resolve, as [`spec_resolve`] describes.
    fn apply_resolve(&mut self, disputed_transaction: TransactionId) -> (r: Result<
        (),
        TransactorError,
    >)
        requires
            old(self).inv(),
        ensures
            final(self).inv(),
            final(self).client_id == old(self).client_id,
            final(self)@ == spec_resolve(old(self)@, disputed_transaction.0).0,
            r == spec_resolve(old(self)@, disputed_transaction.0).1,
    {
        if !self.disputed_transactions.contains(&disputed_transaction.0)
            || !self.transaction_history.contains_key(&disputed_transaction.0) {
            return Ok(());
        }
        let transaction_amount = match self.transaction_history.get(&disputed_transaction.0) {
            Some(t) => t.amount,
            None => vstd::pervasive::unreached(),
        };
        let disputed_amount = transaction_amount.abs().neg();
        match self.move_funds_from_available_to_held(disputed_amount) {
            Ok(()) => {},
            Err(e) => {
                return Err(e);
            },
        }
        self.disputed_transactions.remove(&disputed_transaction.0);
        proof {
            assert(self@ =~= spec_resolve(old(self)@, disputed_transaction.0).0);
        }
        Ok(())
    }

    /// Applies one chargeback, as [`spec_chargeback`] describes.
    fn apply_chargeback(&mut self, disputed_transaction: TransactionId) -> (r: Result<
        (),
        TransactorError,
    >)
        requires
            old(self).inv(),
        ensures
            final(self).inv(),
            final(self).client_id == old(self).client_id,
            final(self)@ == spec_chargeback(old(self)@, disputed_transaction.0).0,
            r == spec_chargeback(old(self)@, disputed_transaction.0).1,
    {
        if !self.disputed_transactions.contains(&disputed_transaction.0)
            || !self.transaction_history.contains_key(&disputed_transaction.0) {
            return Ok(());
        }
        let transaction_amount = match self.transaction_history.get(&disputed_transaction.0) {
            Some(t) => t.amount,
            None => vstd::pervasive::unreached(),
        };
        let disputed_amount = transaction_amount.abs();
        let new_held = match self.held.checked_sub(disputed_amount) {
            Some(h) => h,
            None => {
                return Err(TransactorError::Overflow);
            },
        };
        self.held = new_held;
        self.locked = true;
        self.disputed_transactions.remove(&disputed_transaction.0);
        proof {
            assert(self@ =~= spec_chargeback(old(self)@, disputed_transaction.0).0);
        }
        Ok(())
    }
}

/// The ledger: owns the map from client id to account and is its sole
/// mutator. Accounts materialize lazily on first reference and persist for
/// the ledger's lifetime.
pub struct Bank {
    client_accounts: HashMap<u16, Account>,
    client_order: Vec<u16>,
}

impl View for Bank {
    type V = Map<u16, AccountView>;

    /// The abstract state: every known client's account model.
    closed spec fn view(&self) -> Map<u16, AccountView> {
        self.client_accounts@.map_values(|a: Account| a@)
    }
}

impl Bank {
    /// The stored accounts.
    pub closed spec fn accounts(&self) -> Map<u16, Account> {
        self.client_accounts@
    }

    /// The clients in order of first reference; enumeration follows it.
    pub closed spec fn clients(&self) -> Seq<u16> {
        self.client_order@
    }

    /// The ledger's internal invariant: the client list enumerates the
    /// account map's keys exactly once each, and every stored account is
    /// internally consistent and keyed by its own client id.
    pub open spec fn inv(&self) -> bool {
        &&& self.clients().no_duplicates()
        &&& self.clients().to_set() == self.accounts().dom()
        &&& forall|c: u16| #[trigger]
            self.accounts().contains_key(c) ==> self.accounts()[c].inv()
                && self.accounts()[c].client_id.0 == c
    }

    /// An empty ledger.
    pub fn new() -> (r: Bank)
        ensures
            r.inv(),
            r@ == Map::<u16, AccountView>::empty(),
            r.clients() == Seq::<u16>::empty(),
    {
        let r = Bank { client_accounts: HashMap::new(), client_order: Vec::new() };
        proof {
            assert(r@ =~= Map::<u16, AccountView>::empty());
            assert(r.clients().to_set() =~= r.accounts().dom());
        }
        r
    }

    /// Removes the client's account from the map, materializing a fresh one
    /// on first reference, and keeps the client list in step.
    fn take_account(&mut self, client_id: ClientId) -> (account: Account)
        requires
            old(self).inv(),
        ensures
            account.inv(),
            account.client_id == client_id,
            account@ == account_or_new(old(self)@, client_id.0),
            final(self).accounts() == old(self).accounts().remove(client_id.0),
            final(self).clients() == if old(self)@.contains_key(client_id.0) {
                old(self).clients()
            } else {
                old(self).clients().push(client_id.0)
            },
            final(self).clients().no_duplicates(),
            final(self).clients().to_set() == final(self).accounts().dom().insert(client_id.0),
            forall|c: u16| #[trigger]
                final(self).accounts().contains_key(c) ==> final(self).accounts()[c].inv()
                    && final(self).accounts()[c].client_id.0 == c,
    {
        proof {
            assert(old(self)@.dom() =~= old(self).accounts().dom());
        }
        match self.client_accounts.remove(&client_id.0) {
            Some(a) => {
                proof {
                    assert(self.clients().to_set() =~= self.accounts().dom().insert(client_id.0));
                }
                a
            },
            None => {
                self.client_order.push(client_id.0);
                proof {
                    assert(self.clients().to_set() =~= self.accounts().dom().insert(client_id.0));
                }
                Account::new(client_id)
            },
        }
    }

    /// Puts a (possibly updated) account back; the inverse of
    /// [`Bank::take_account`].
    fn put_account(&mut self, client_id: ClientId, account: Account)
        requires
            account.inv(),
            account.client_id == client_id,
            old(self).clients().no_duplicates(),
            old(self).clients().to_set() == old(self).accounts().dom().insert(client_id.0),
            forall|c: u16| #[trigger]
                old(self).accounts().contains_key(c) ==> old(self).accounts()[c].inv()
                    && old(self).accounts()[c].client_id.0 == c,
        ensures
            final(self).inv(),
            final(self)@ == old(self)@.insert(client_id.0, account@),
            final(self).clients() == old(self).clients(),
    {
        self.client_accounts.insert(client_id.0, account);
        proof {
            assert(self@ =~= old(self)@.insert(client_id.0, account@));
            assert(self.clients().to_set() =~= self.accounts().dom());
        }
    }

    /// Performs a deposit or withdrawal on a client's account; the account
    /// makes exactly the [`spec_transact`] transition.
    ///
    /// Errors: `Overflow` when the checked balance update leaves the
    /// representable range, `TransactionIdReuse` when the id was already
    /// recorded. A withdrawal into negative balance, or any transaction on a
    /// locked account, succeeds with no mutation and no recording.
    pub fn transact(&mut self, client_id: ClientId, transaction: Transaction) -> (r: Result<
        (),
        TransactorError,
    >)
        requires
            old(self).inv(),
        ensures
            final(self).inv(),
            final(self)@ == old(self)@.insert(
                client_id.0,
                spec_transact(
                    account_or_new(old(self)@, client_id.0),
                    transaction.transaction_id.0,
                    transaction.amount@,
                ).0,
            ),
            r == spec_transact(
                account_or_new(old(self)@, client_id.0),
                transaction.transaction_id.0,
                transaction.amount@,
            ).1,
            final(self).clients() == if old(self)@.contains_key(client_id.0) {
                old(self).clients()
            } else {
                old(self).clients().push(client_id.0)
            },
    {
        let mut account = self.take_account(client_id);
        let r = account.apply_transact(transaction);
        self.put_account(client_id, account);
        r
    }

    /// Handles a dispute of a transaction; the account makes exactly the
    /// [`spec_dispute`] transition.
    ///
    /// A dispute of an unknown or already-disputed id is ignored. Errors:
    /// `Overflow` when moving the disputed funds would leave the range.
    pub fn dispute_transaction(&mut self, client_id: ClientId, dispute: TransactionId) -> (r:
        Result<(), TransactorError>)
        requires
            old(self).inv(),
        ensures
            final(self).inv(),
            final(self)@ == old(self)@.insert(
                client_id.0,
                spec_dispute(account_or_new(old(self)@, client_id.0), dispute.0).0,
            ),
            r == spec_dispute(account_or_new(old(self)@, client_id.0), dispute.0).1,
            final(self).clients() == if old(self)@.contains_key(client_id.0) {
                old(self).clients()
            } else {
                old(self).clients().push(client_id.0)
            },
    {
        let mut account = self.take_account(client_id);
        let r = account.apply_dispute(dispute);
        self.put_account(client_id, account);
        r
    }

    /// Resolves a previously disputed transaction; the account makes exactly
    /// the [`spec_resolve`] transition.
    ///
    /// A resolve of an id without an open dispute is ignored. Errors:
    /// `Overflow` when moving the funds back would leave the range.
    pub fn resolve_disputed_transaction(
        &mut self,
        client_id: ClientId,
        disputed_transaction: TransactionId,
    ) -> (r: Result<(), TransactorError>)
        requires
            old(self).inv(),
        ensures
            final(self).inv(),
            final(self)@ == old(self)@.insert(
                client_id.0,
                spec_resolve(account_or_new(old(self)@, client_id.0), disputed_transaction.0).0,
            ),
            r == spec_resolve(
                account_or_new(old(self)@, client_id.0),
                disputed_transaction.0,
            ).1,
            final(self).clients() == if old(self)@.contains_key(client_id.0) {
                old(self).clients()
            } else {
                old(self).clients().push(client_id.0)
            },
    {
        let mut account = self.take_account(client_id);
        let r = account.apply_resolve(disputed_transaction);
        self.put_account(client_id, account);
        r
    }

    /// Charges back a disputed transaction; the account makes exactly the
    /// [`spec_chargeback`] transition.
    ///
    /// A chargeback of an id without an open dispute is ignored. Errors:
    /// `Overflow` when removing the held funds would leave the range.
    pub fn chargeback(&mut self, client_id: ClientId, disputed_transaction: TransactionId) -> (r:
        Result<(), TransactorError>)
        requires
            old(self).inv(),
        ensures
            final(self).inv(),
            final(self)@ == old(self)@.insert(
                client_id.0,
                spec_chargeback(account_or_new(old(self)@, client_id.0), disputed_transaction.0).0,
            ),
            r == spec_chargeback(
                account_or_new(old(self)@, client_id.0),
                disputed_transaction.0,
            ).1,
            final(self).clients() == if old(self)@.contains_key(client_id.0) {
                old(self).clients()
            } else {
                old(self).clients().push(client_id.0)
            },
    {
        let mut account = self.take_account(client_id);
        let r = account.apply_chargeback(disputed_transaction);
        self.put_account(client_id, account);
        r
    }

    /// The account of the given client, materializing a fresh one on first
    /// reference. The caller may read the balances and the locked flag, and
    /// a test harness may set them; the returned borrow's final value is what
    /// the ledger keeps.
    pub fn account(&mut self, client_id: ClientId) -> (account: &mut Account)
        requires
            old(self).inv(),
        ensures
            account.inv(),
            account.client_id == client_id,
            (*account)@ == account_or_new(old(self)@, client_id.0),
            old(self).accounts().contains_key(client_id.0) ==> *account == old(
                self,
            ).accounts()[client_id.0],
            final(self).accounts() == old(self).accounts().insert(client_id.0, *final(account)),
            final(self)@ == old(self)@.insert(client_id.0, (*final(account))@),
            final(self).clients() == if old(self)@.contains_key(client_id.0) {
                old(self).clients()
            } else {
                old(self).clients().push(client_id.0)
            },
            final(account).inv() && final(account).client_id == client_id ==> final(self).inv(),
    {
        proof {
            assert(old(self)@.dom() =~= old(self).accounts().dom());
        }
        if !self.client_accounts.contains_key(&client_id.0) {
            self.client_order.push(client_id.0);
        }
        proof {
            assert(self.clients().to_set() =~= self.client_accounts@.dom().insert(client_id.0));
        }
        self.client_accounts.entry(client_id.0).or_insert(Account::new(client_id))
    }

    /// Every account ever referenced, in order of first reference.
    pub fn get_accounts(&self) -> (r: Vec<&Account>)
        requires
            self.inv(),
        ensures
            r@.len() == self.clients().len(),
            forall|i: int|
                0 <= i < r@.len() ==> self@.contains_key(self.clients()[i]) && (#[trigger] r@[i])@
                    == self@[self.clients()[i]],
    {
        let mut result: Vec<&Account> = Vec::new();
        let mut i: usize = 0;
        while i < self.client_order.len()
            invariant
                self.inv(),
                i <= self.client_order.len(),
                result@.len() == i as int,
                forall|j: int|
                    0 <= j < i as int ==> self@.contains_key(self.clients()[j]) && (
                    #[trigger] result@[j])@ == self@[self.clients()[j]],
            decreases self.client_order.len() - i,
        {
            let c = self.client_order[i];
            proof {
                assert(self.clients().contains(c));
                assert(self.accounts().dom().contains(c));
                assert(self@.dom() =~= self.accounts().dom());
            }
            match self.client_accounts.get(&c) {
                Some(a) => {
                    result.push(a);
                },
                None => {
                    vstd::pervasive::unreached::<()>()
                },
            }
            i += 1;
        }
        result
    }
}

} // verus!

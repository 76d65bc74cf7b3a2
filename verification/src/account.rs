use vstd::prelude::*;

use std::collections::HashMap;

use crate::errors::TransactionError;
use crate::model::{
    account_wf, available, chargeback_error, chargeback_next, client_index, client_model,
    deposit_error, deposit_next, dispute_error, dispute_next, empty_account, has_client,
    ledger_next, movement_amount, record_error, record_fits, record_next, resolve_error,
    resolve_next, snapshot_row, withdraw_error, withdraw_next, AccountModel, Movement,
};
use crate::structs::{ClientRecord, Record, RecordType};

verus! {

broadcast use vstd::std_specs::hash::group_hash_axioms;

/// The account of one client: the state machine for deposits, withdrawals
/// and the dispute lifecycle. All amounts are fixed-point integers with
/// four implied decimal digits. Every operation is atomic: it either
/// applies fully or returns an error and leaves the account unchanged.
pub struct Customer {
    total_balance: i64,
    held_balance: i64,
    is_locked: bool,
    records: HashMap<u32, Movement>,
    disputed_transactions: Vec<u32>,
}

impl View for Customer {
    type V = AccountModel;

    closed spec fn view(&self) -> AccountModel {
        AccountModel {
            total: self.total_balance as int,
            held: self.held_balance as int,
            locked: self.is_locked,
            movements: self.records@,
            disputed: self.disputed_transactions@.to_set(),
        }
    }
}

/// The index of the first occurrence of `x` in `v`, if any.
fn vec_index_of(v: &Vec<u32>, x: u32) -> (r: Option<usize>)
    ensures
        match r {
            Some(i) => i < v@.len() && v@[i as int] == x,
            None => !v@.contains(x),
        },
{
    let mut j: usize = 0;
    while j < v.len()
        invariant
            j <= v@.len(),
            forall|k: int| 0 <= k < j ==> v@[k] != x,
        decreases v@.len() - j,
    {
        if v[j] == x {
            return Some(j);
        }
        j = j + 1;
    }
    None
}

/// Removing the element at `i` from a duplicate-free sequence removes
/// exactly that value from the sequence's set of elements.
proof fn lemma_remove_keeps_set_shape(s: Seq<u32>, i: int)
    requires
        0 <= i < s.len(),
        s.no_duplicates(),
    ensures
        s.remove(i).to_set() == s.to_set().remove(s[i]),
        s.remove(i).no_duplicates(),
{
    s.remove_ensures(i);
    let r = s.remove(i);
    let x = s[i];
    assert forall|j: int, k: int| 0 <= j < k < r.len() implies r[j] != r[k] by {
        let jj: int = if j < i { j } else { j + 1 };
        let kk: int = if k < i { k } else { k + 1 };
        assert(r[j] == s[jj]);
        assert(r[k] == s[kk]);
    }
    assert forall|y: u32| r.to_set().contains(y) implies s.to_set().remove(x).contains(y) by {
        let j = choose|j: int| 0 <= j < r.len() && r[j] == y;
        let jj: int = if j < i { j } else { j + 1 };
        assert(s[jj] == y);
        assert(s.contains(y));
        assert(jj != i);
        assert(y != x);
    }
    assert forall|y: u32| s.to_set().remove(x).contains(y) implies r.to_set().contains(y) by {
        let jj = choose|jj: int| 0 <= jj < s.len() && s[jj] == y;
        assert(jj != i);
        let j: int = if jj < i { jj } else { jj - 1 };
        assert(r[j] == y);
        assert(r.contains(y));
    }
    assert(r.to_set() =~= s.to_set().remove(x));
}

impl Default for Customer {
    /// A freshly created account: all balances zero, unlocked, no
    /// movements, nothing disputed.
    fn default() -> (c: Customer)
        ensures
            c@ == empty_account(),
            c.wf(),
    {
        let c = Customer {
            total_balance: 0,
            held_balance: 0,
            is_locked: false,
            records: HashMap::new(),
            disputed_transactions: Vec::new(),
        };
        proof {
            assert(c.disputed_transactions@.to_set() =~= Set::<u32>::empty());
            assert(c@ =~= empty_account());
        }
        c
    }
}

impl Customer {
    /// The account is well formed: a transaction can be disputed only if it
    /// is on record, recorded deposit amounts are non-negative, and the
    /// internal list of disputed transactions holds each id at most once.
    pub closed spec fn wf(&self) -> bool {
        &&& account_wf(self@)
        &&& self.disputed_transactions@.no_duplicates()
    }

    /// Rejects a negative amount, then a transaction id already on record.
    fn validate_amount_and_tx_id(&self, amount: i64, tx: u32) -> (r: Result<(), TransactionError>)
        ensures
            r == (if amount < 0 {
                Err::<(), TransactionError>(TransactionError::InvalidAmount)
            } else if self@.movements.contains_key(tx) {
                Err::<(), TransactionError>(TransactionError::DuplicateTransaction)
            } else {
                Ok::<(), TransactionError>(())
            }),
    {
        if amount < 0 {
            return Err(TransactionError::InvalidAmount);
        }
        if self.records.contains_key(&tx) {
            return Err(TransactionError::DuplicateTransaction);
        }
        Ok(())
    }

    /// Rejects the operation when the account is locked.
    fn validate_account_not_locked(&self) -> (r: Result<(), TransactionError>)
        ensures
            r == (if self@.locked {
                Err::<(), TransactionError>(TransactionError::AccountLocked)
            } else {
                Ok::<(), TransactionError>(())
            }),
    {
        if self.is_locked {
            return Err(TransactionError::AccountLocked);
        }
        Ok(())
    }

    /// Rejects a withdrawal that would drive the available balance (total
    /// minus held) negative. The difference is taken in a wider integer
    /// type, so the comparison is exact for every pair of balances.
    fn validate_sufficient_funds(&self, amount: i64) -> (r: Result<(), TransactionError>)
        ensures
            r == (if amount > available(self@) {
                Err::<(), TransactionError>(TransactionError::InsufficientFunds)
            } else {
                Ok::<(), TransactionError>(())
            }),
    {
        let avail: i128 = (self.total_balance as i128) - (self.held_balance as i128);
        if (amount as i128) > avail {
            return Err(TransactionError::InsufficientFunds);
        }
        Ok(())
    }

    /// Rejects a dispute-lifecycle operation on a transaction id that is
    /// not on record.
    fn validate_transaction_exists(&self, tx: u32) -> (r: Result<(), TransactionError>)
        ensures
            r == (if !self@.movements.contains_key(tx) {
                Err::<(), TransactionError>(TransactionError::UnknownTransaction)
            } else {
                Ok::<(), TransactionError>(())
            }),
    {
        if !self.records.contains_key(&tx) {
            return Err(TransactionError::UnknownTransaction);
        }
        Ok(())
    }

    /// Rejects a dispute of a transaction that is already under dispute.
    fn validate_transaction_not_disputed(&self, tx: u32) -> (r: Result<(), TransactionError>)
        ensures
            r == (if self@.disputed.contains(tx) {
                Err::<(), TransactionError>(TransactionError::AlreadyDisputed)
            } else {
                Ok::<(), TransactionError>(())
            }),
    {
        if vec_index_of(&self.disputed_transactions, tx).is_some() {
            return Err(TransactionError::AlreadyDisputed);
        }
        Ok(())
    }

    /// Rejects a resolve or chargeback of a transaction that is not under
    /// dispute.
    fn validate_transaction_disputed(&self, tx: u32) -> (r: Result<(), TransactionError>)
        ensures
            r == (if !self@.disputed.contains(tx) {
                Err::<(), TransactionError>(TransactionError::NotDisputed)
            } else {
                Ok::<(), TransactionError>(())
            }),
    {
        if vec_index_of(&self.disputed_transactions, tx).is_none() {
            return Err(TransactionError::NotDisputed);
        }
        Ok(())
    }

    /// The amount a dispute of the recorded movement freezes: the deposited
    /// amount, or zero for a withdrawal.
    fn get_transaction_amount(&self, tx: u32) -> (r: Result<i64, TransactionError>)
        requires
            self.wf(),
        ensures
            r == (if self@.movements.contains_key(tx) {
                Ok::<i64, TransactionError>((movement_amount(self@.movements[tx])) as i64)
            } else {
                Err::<i64, TransactionError>(TransactionError::UnknownTransaction)
            }),
            self@.movements.contains_key(tx) ==> (r matches Ok(a) && a >= 0),
    {
        match self.records.get(&tx) {
            Some(m) => match *m {
                Movement::Deposit(a) => Ok(a),
                Movement::Withdrawal => Ok(0),
            },
            None => Err(TransactionError::UnknownTransaction),
        }
    }

    /// Drops `tx` from the list of disputed transactions; everything else
    /// is left as it was.
    fn remove_disputed_transaction(&mut self, tx: u32)
        requires
            old(self).disputed_transactions@.no_duplicates(),
        ensures
            final(self).disputed_transactions@.to_set() == old(
                self,
            ).disputed_transactions@.to_set().remove(tx),
            final(self).disputed_transactions@.no_duplicates(),
            final(self).total_balance == old(self).total_balance,
            final(self).held_balance == old(self).held_balance,
            final(self).is_locked == old(self).is_locked,
            final(self).records == old(self).records,
    {
        match vec_index_of(&self.disputed_transactions, tx) {
            Some(index) => {
                proof {
                    lemma_remove_keeps_set_shape(self.disputed_transactions@, index as int);
                }
                self.disputed_transactions.remove(index);
            },
            None => {
                proof {
                    assert(self.disputed_transactions@.to_set()
                        =~= self.disputed_transactions@.to_set().remove(tx));
                }
            },
        }
    }

    /// Adds `amount` to the total balance and records the deposit under the
    /// fresh transaction id `tx`.
    pub fn deposit(&mut self, tx: u32, amount: i64) -> (r: Result<(), TransactionError>)
        requires
            old(self).wf(),
            deposit_error(old(self)@, tx, amount) is None ==> old(self)@.total + amount
                <= i64::MAX,
        ensures
            final(self).wf(),
            match deposit_error(old(self)@, tx, amount) {
                None => r is Ok && final(self)@ == deposit_next(old(self)@, tx, amount),
                Some(e) => r == Err::<(), TransactionError>(e) && final(self)@ == old(self)@,
            },
    {
        self.validate_amount_and_tx_id(amount, tx)?;
        self.validate_account_not_locked()?;

        self.total_balance = self.total_balance + amount;
        self.records.insert(tx, Movement::Deposit(amount));

        proof {
            assert(self@ =~= deposit_next(old(self)@, tx, amount));
        }
        Ok(())
    }

    /// Subtracts `amount` from the total balance, provided enough is
    /// available, and records the withdrawal under the fresh transaction id
    /// `tx` — without its amount, so a later dispute of it holds zero.
    pub fn withdraw(&mut self, tx: u32, amount: i64) -> (r: Result<(), TransactionError>)
        requires
            old(self).wf(),
        ensures
            final(self).wf(),
            match withdraw_error(old(self)@, tx, amount) {
                None => r is Ok && final(self)@ == withdraw_next(old(self)@, tx, amount),
                Some(e) => r == Err::<(), TransactionError>(e) && final(self)@ == old(self)@,
            },
    {
        self.validate_amount_and_tx_id(amount, tx)?;
        self.validate_account_not_locked()?;
        self.validate_sufficient_funds(amount)?;

        self.total_balance = self.total_balance - amount;
        self.records.insert(tx, Movement::Withdrawal);

        proof {
            assert(self@ =~= withdraw_next(old(self)@, tx, amount));
        }
        Ok(())
    }

    /// Opens a dispute on the recorded transaction `tx`: its amount moves
    /// to the held balance until the dispute is resolved or charged back.
    /// Disputes are allowed on a locked account.
    pub fn dispute(&mut self, tx: u32) -> (r: Result<(), TransactionError>)
        requires
            old(self).wf(),
            dispute_error(old(self)@, tx) is None ==> old(self)@.held + movement_amount(
                old(self)@.movements[tx],
            ) <= i64::MAX,
        ensures
            final(self).wf(),
            match dispute_error(old(self)@, tx) {
                None => r is Ok && final(self)@ == dispute_next(old(self)@, tx),
                Some(e) => r == Err::<(), TransactionError>(e) && final(self)@ == old(self)@,
            },
    {
        self.validate_transaction_exists(tx)?;
        self.validate_transaction_not_disputed(tx)?;

        let amount = self.get_transaction_amount(tx)?;
        self.held_balance = self.held_balance + amount;
        self.disputed_transactions.push(tx);

        proof {
            old(self).disputed_transactions@.lemma_push_to_set_commute(tx);
            assert(self.disputed_transactions@.to_set()
                =~= old(self).disputed_transactions@.to_set().insert(tx));
            assert(self@ =~= dispute_next(old(self)@, tx));
        }
        Ok(())
    }

    /// Closes the dispute on `tx` in the client's favour: the frozen amount
    /// returns to the available balance and `tx` may be disputed again.
    pub fn resolve(&mut self, tx: u32) -> (r: Result<(), TransactionError>)
        requires
            old(self).wf(),
            resolve_error(old(self)@, tx) is None ==> old(self)@.held - movement_amount(
                old(self)@.movements[tx],
            ) >= i64::MIN,
        ensures
            final(self).wf(),
            match resolve_error(old(self)@, tx) {
                None => r is Ok && final(self)@ == resolve_next(old(self)@, tx),
                Some(e) => r == Err::<(), TransactionError>(e) && final(self)@ == old(self)@,
            },
    {
        self.validate_transaction_exists(tx)?;
        self.validate_transaction_disputed(tx)?;

        let amount = self.get_transaction_amount(tx)?;
        self.held_balance = self.held_balance - amount;
        self.remove_disputed_transaction(tx);

        proof {
            assert(self@ =~= resolve_next(old(self)@, tx));
        }
        Ok(())
    }

    /// Closes the dispute on `tx` against the client: the disputed amount
    /// leaves both the held and the total balance, and the account is
    /// locked for good. The transaction id deliberately stays in the
    /// disputed set.
    pub fn chargeback(&mut self, tx: u32) -> (r: Result<(), TransactionError>)
        requires
            old(self).wf(),
            chargeback_error(old(self)@, tx) is None ==> old(self)@.held - movement_amount(
                old(self)@.movements[tx],
            ) >= i64::MIN && old(self)@.total - movement_amount(old(self)@.movements[tx])
                >= i64::MIN,
        ensures
            final(self).wf(),
            match chargeback_error(old(self)@, tx) {
                None => r is Ok && final(self)@ == chargeback_next(old(self)@, tx),
                Some(e) => r == Err::<(), TransactionError>(e) && final(self)@ == old(self)@,
            },
    {
        self.validate_transaction_exists(tx)?;
        self.validate_transaction_disputed(tx)?;

        let amount = self.get_transaction_amount(tx)?;
        self.held_balance = self.held_balance - amount;
        self.total_balance = self.total_balance - amount;
        self.is_locked = true;

        proof {
            assert(self@ =~= chargeback_next(old(self)@, tx));
        }
        Ok(())
    }

    /// Sum of settled deposits minus settled withdrawals minus chargebacks.
    pub fn total_balance(&self) -> (r: i64)
        ensures
            r as int == self@.total,
    {
        self.total_balance
    }

    /// Sum of the amounts currently frozen by open disputes.
    pub fn held_balance(&self) -> (r: i64)
        ensures
            r as int == self@.held,
    {
        self.held_balance
    }

    /// Whether a chargeback has permanently locked the account.
    pub fn is_locked(&self) -> (r: bool)
        ensures
            r == self@.locked,
    {
        self.is_locked
    }

    /// How many deposits and withdrawals the account has settled.
    pub fn movement_count(&self) -> (r: usize)
        ensures
            r as int == self@.movements.dom().len(),
    {
        self.records.len()
    }

    /// How many transactions are currently under dispute.
    pub fn disputed_count(&self) -> (r: usize)
        requires
            self.wf(),
        ensures
            r as int == self@.disputed.len(),
    {
        proof {
            self.disputed_transactions@.unique_seq_to_set();
        }
        self.disputed_transactions.len()
    }

    /// The recorded amount a dispute of `tx` would freeze, or `None` when
    /// `tx` is not on record.
    pub fn movement_amount_of(&self, tx: u32) -> (r: Option<i64>)
        requires
            self.wf(),
        ensures
            match r {
                Some(a) => self@.movements.contains_key(tx) && a as int == movement_amount(
                    self@.movements[tx],
                ),
                None => !self@.movements.contains_key(tx),
            },
    {
        match self.get_transaction_amount(tx) {
            Ok(a) => Some(a),
            Err(_) => None,
        }
    }

    /// Whether `tx` is currently under dispute.
    pub fn is_disputed(&self, tx: u32) -> (r: bool)
        ensures
            r == self@.disputed.contains(tx),
    {
        vec_index_of(&self.disputed_transactions, tx).is_some()
    }

    /// Whether a deposit or withdrawal was settled under `tx`.
    pub fn has_movement(&self, tx: u32) -> (r: bool)
        ensures
            r == self@.movements.contains_key(tx),
    {
        self.records.contains_key(&tx)
    }
}

/// The registry of accounts, keyed by client id. An account is created
/// lazily, the first time its client id is referenced; accounts keep their
/// registration order, so the final snapshot is deterministic.
pub struct Ledger {
    customer_map: Vec<(u16, Customer)>,
}

impl View for Ledger {
    type V = Seq<(u16, AccountModel)>;

    closed spec fn view(&self) -> Seq<(u16, AccountModel)> {
        self.customer_map@.map_values(|p: (u16, Customer)| (p.0, p.1@))
    }
}

impl Ledger {
    /// The registry is well formed: client ids are pairwise distinct and
    /// every registered account is well formed.
    pub closed spec fn wf(&self) -> bool {
        &&& forall|i: int, j: int|
            #![trigger self.customer_map@[i].0, self.customer_map@[j].0]
            0 <= i < self.customer_map@.len() && 0 <= j < self.customer_map@.len() && i != j
                ==> self.customer_map@[i].0 != self.customer_map@[j].0
        &&& forall|i: int|
            0 <= i < self.customer_map@.len() ==> (#[trigger] self.customer_map@[i].1).wf()
    }

    /// An empty registry: no client has been seen yet.
    pub fn new() -> (l: Ledger)
        ensures
            l@ == Seq::<(u16, AccountModel)>::empty(),
            l.wf(),
    {
        let l = Ledger { customer_map: Vec::new() };
        proof {
            assert(l@ =~= Seq::<(u16, AccountModel)>::empty());
        }
        l
    }

    /// Whether no client has been seen yet.
    pub fn is_empty(&self) -> (r: bool)
        ensures
            r == (self@.len() == 0),
    {
        self.customer_map.is_empty()
    }

    /// The position of the account registered for `client_id`, if any.
    fn find_client(&self, client_id: u16) -> (r: Option<usize>)
        requires
            self.wf(),
        ensures
            match r {
                Some(i) => has_client(self@, client_id) && i as int == client_index(self@, client_id)
                    && i < self@.len() && self@[i as int].0 == client_id,
                None => !has_client(self@, client_id),
            },
    {
        let mut j: usize = 0;
        while j < self.customer_map.len()
            invariant
                self.wf(),
                j <= self.customer_map@.len(),
                forall|k: int| 0 <= k < j ==> (#[trigger] self.customer_map@[k].0) != client_id,
            decreases self.customer_map@.len() - j,
        {
            if self.customer_map[j].0 == client_id {
                proof {
                    assert(self@[j as int].0 == client_id);
                    let ci = client_index(self@, client_id);
                    assert(0 <= ci < self@.len() && self@[ci].0 == client_id);
                    assert(self.customer_map@[ci].0 == client_id);
                    assert(self.customer_map@[j as int].0 == client_id);
                    assert(ci == j as int);
                }
                return Some(j);
            }
            j = j + 1;
        }
        proof {
            assert forall|i: int| 0 <= i < self@.len() implies self@[i].0 != client_id by {
                assert(self.customer_map@[i].0 != client_id);
            }
        }
        None
    }

    /// Makes sure an account is registered for `client_id`, creating an
    /// empty one if none was, and returns its position in the registry.
    pub fn get_or_insert_customer(&mut self, client_id: u16) -> (i: usize)
        requires
            old(self).wf(),
        ensures
            final(self).wf(),
            i < final(self)@.len(),
            final(self)@[i as int].0 == client_id,
            has_client(final(self)@, client_id),
            i as int == client_index(final(self)@, client_id),
            final(self)@[i as int].1 == client_model(old(self)@, client_id),
            if has_client(old(self)@, client_id) {
                final(self)@ == old(self)@
            } else {
                final(self)@ == old(self)@.push((client_id, empty_account()))
            },
    {
        match self.find_client(client_id) {
            Some(i) => i,
            None => {
                let i = self.customer_map.len();
                self.customer_map.push((client_id, Customer::default()));
                proof {
                    assert(self@ =~= old(self)@.push((client_id, empty_account())));
                    assert forall|k: int, l: int|
                        #![trigger self.customer_map@[k].0, self.customer_map@[l].0]
                        0 <= k < self.customer_map@.len() && 0 <= l < self.customer_map@.len()
                            && k != l implies self.customer_map@[k].0
                        != self.customer_map@[l].0 by {
                        if l == i as int && k < l {
                            assert(old(self)@[k].0 == old(self).customer_map@[k].0);
                        }
                        if k == i as int && l < k {
                            assert(old(self)@[l].0 == old(self).customer_map@[l].0);
                        }
                    }
                    let ci = client_index(self@, client_id);
                    assert(self@[i as int].0 == client_id);
                    assert(0 <= ci < self@.len() && self@[ci].0 == client_id);
                    if ci != i as int {
                        assert(old(self)@[ci].0 == old(self).customer_map@[ci].0);
                        assert(false);
                    }
                }
                i
            },
        }
    }

    /// Applies one validated record: the account it addresses is created if
    /// absent, the matching operation runs on it, and the operation's
    /// outcome is returned. A failing record leaves every balance as it
    /// was; processing may simply continue with the next record.
    pub fn apply(&mut self, record: &Record) -> (r: Result<(), TransactionError>)
        requires
            old(self).wf(),
            record.valid(),
            record_fits(client_model(old(self)@, record.client), *record),
        ensures
            final(self).wf(),
            final(self)@ == ledger_next(old(self)@, *record),
            match record_error(client_model(old(self)@, record.client), *record) {
                None => r is Ok,
                Some(e) => r == Err::<(), TransactionError>(e),
            },
    {
        let i = self.get_or_insert_customer(record.client);
        let ghost mid: Seq<(u16, AccountModel)> = self@;
        let ghost midvec: Seq<(u16, Customer)> = self.customer_map@;

        let mut pair = self.customer_map.remove(i);
        let res = match record.record_type {
            RecordType::Deposit => {
                let amount: i64 = match record.amount {
                    Some(a) => a,
                    None => 0,
                };
                pair.1.deposit(record.tx, amount)
            },
            RecordType::Withdrawal => {
                let amount: i64 = match record.amount {
                    Some(a) => a,
                    None => 0,
                };
                pair.1.withdraw(record.tx, amount)
            },
            RecordType::Dispute => pair.1.dispute(record.tx),
            RecordType::Resolve => pair.1.resolve(record.tx),
            RecordType::Chargeback => pair.1.chargeback(record.tx),
        };
        let ghost newpair: (u16, Customer) = pair;
        self.customer_map.insert(i, pair);

        proof {
            assert(newpair.0 == record.client);
            assert(newpair.1@ == record_next(mid[i as int].1, *record));
            vstd::seq_lib::lemma_update_is_remove_insert(midvec, i as int, newpair);
            assert(self.customer_map@ == midvec.update(i as int, newpair));
            assert(self@ =~= mid.update(i as int, (record.client, newpair.1@)));
            if has_client(old(self)@, record.client) {
                assert(self@ == ledger_next(old(self)@, *record));
            } else {
                assert(self@ =~= old(self)@.push(
                    (record.client, record_next(empty_account(), *record)),
                ));
            }
            assert forall|k: int, l: int|
                #![trigger self.customer_map@[k].0, self.customer_map@[l].0]
                0 <= k < self.customer_map@.len() && 0 <= l < self.customer_map@.len() && k != l
                    implies self.customer_map@[k].0 != self.customer_map@[l].0 by {
                assert(self.customer_map@[k].0 == midvec[k].0);
                assert(self.customer_map@[l].0 == midvec[l].0);
            }
        }
        res
    }

    /// A read-only view of the account registered for `client_id`.
    pub fn customer(&self, client_id: u16) -> (r: Option<&Customer>)
        requires
            self.wf(),
        ensures
            match r {
                Some(c) => has_client(self@, client_id) && c@ == client_model(self@, client_id)
                    && c.wf(),
                None => !has_client(self@, client_id),
            },
    {
        match self.find_client(client_id) {
            Some(i) => Some(&self.customer_map[i].1),
            None => None,
        }
    }

    /// The final snapshot: one row per known client, in registration order.
    /// Every row's `available` amount is its total minus its held balance.
    /// No account is changed.
    pub fn client_records(&self) -> (out: Vec<ClientRecord>)
        ensures
            out@.len() == self@.len(),
            forall|k: int| 0 <= k < self@.len() ==> out@[k] == snapshot_row(
                self@[k].0,
                self@[k].1,
            ),
    {
        let mut out: Vec<ClientRecord> = Vec::new();
        let mut j: usize = 0;
        while j < self.customer_map.len()
            invariant
                j <= self.customer_map@.len(),
                out@.len() == j,
                forall|k: int| 0 <= k < j ==> out@[k] == snapshot_row(self@[k].0, self@[k].1),
            decreases self.customer_map@.len() - j,
        {
            let client: u16 = self.customer_map[j].0;
            let total: i64 = self.customer_map[j].1.total_balance();
            let held: i64 = self.customer_map[j].1.held_balance();
            let locked: bool = self.customer_map[j].1.is_locked();
            let row = ClientRecord {
                client,
                available: (total as i128) - (held as i128),
                held: held as i128,
                total: total as i128,
                locked,
            };
            out.push(row);
            j = j + 1;
        }
        out
    }
}

} // verus!

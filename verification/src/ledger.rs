use vstd::prelude::*;

use crate::account::Ledger;
use crate::errors::TransactionError;
use crate::model::{client_index, client_model, empty_account, has_client, ledger_next,
    record_error, record_fits, snapshot_row, AccountModel};
use crate::structs::{ClientRecord, Record};

pub use crate::account::Customer;

verus! {

/// The account registry under the name the processing loop uses. It tracks
/// one account per client id, creates accounts lazily and projects the
/// final snapshot; it behaves exactly like [`Ledger`], which carries the
/// implementation.
pub struct Tracker {
    map: Ledger,
}

impl View for Tracker {
    type V = Seq<(u16, AccountModel)>;

    closed spec fn view(&self) -> Seq<(u16, AccountModel)> {
        self.map@
    }
}

impl Tracker {
    /// The registry is well formed: client ids are pairwise distinct and
    /// every registered account is well formed.
    pub closed spec fn wf(&self) -> bool {
        self.map.wf()
    }

    /// An empty registry: no client has been seen yet.
    pub fn new() -> (t: Tracker)
        ensures
            t@ == Seq::<(u16, AccountModel)>::empty(),
            t.wf(),
    {
        Tracker { map: Ledger::new() }
    }

    /// Whether no client has been seen yet.
    pub fn is_empty(&self) -> (r: bool)
        ensures
            r == (self@.len() == 0),
    {
        self.map.is_empty()
    }

    /// Makes sure an account is registered for `client_id`, creating an
    /// empty one if none was, and returns its position in the registry.
    pub fn get_or_create_customer(&mut self, client_id: u16) -> (i: usize)
        requires
            old(self).wf(),
        ensures
            final(self).wf(),
            i < final(self)@.len(),
            final(self)@[i as int].0 == client_id,
            has_client(final(self)@, client_id),
            i as int == client_index(final(self)@, client_id),
            final(self)@[i as int].1 == client_model(old(self)@, client_id),
            if has_client(old(self)@, client_id) {
                final(self)@ == old(self)@
            } else {
                final(self)@ == old(self)@.push((client_id, empty_account()))
            },
    {
        self.map.get_or_insert_customer(client_id)
    }

    /// Applies one validated record: the account it addresses is created if
    /// absent, the matching operation runs on it, and the operation's
    /// outcome is returned. A failing record leaves every balance as it
    /// was; processing may simply continue with the next record.
    pub fn apply(&mut self, record: &Record) -> (r: Result<(), TransactionError>)
        requires
            old(self).wf(),
            record.valid(),
            record_fits(client_model(old(self)@, record.client), *record),
        ensures
            final(self).wf(),
            final(self)@ == ledger_next(old(self)@, *record),
            match record_error(client_model(old(self)@, record.client), *record) {
                None => r is Ok,
                Some(e) => r == Err::<(), TransactionError>(e),
            },
    {
        self.map.apply(record)
    }

    /// A read-only view of the account registered for `client_id`.
    pub fn customer(&self, client_id: u16) -> (r: Option<&Customer>)
        requires
            self.wf(),
        ensures
            match r {
                Some(c) => has_client(self@, client_id) && c@ == client_model(self@, client_id)
                    && c.wf(),
                None => !has_client(self@, client_id),
            },
    {
        self.map.customer(client_id)
    }

    /// The final snapshot: one row per known client, in registration order.
    /// Every row's `available` amount is its total minus its held balance.
    /// No account is changed.
    pub fn printable_accounts(&self) -> (out: Vec<ClientRecord>)
        ensures
            out@.len() == self@.len(),
            forall|k: int| 0 <= k < self@.len() ==> out@[k] == snapshot_row(
                self@[k].0,
                self@[k].1,
            ),
    {
        self.map.client_records()
    }
}

} // verus!

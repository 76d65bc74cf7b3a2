use vstd::prelude::*;

use crate::errors::TransactionError;
use crate::structs::{ClientRecord, Record, RecordType};

verus! {

/// A movement recorded against a transaction id.
///
/// A withdrawal is deliberately recorded without its amount: disputing a
/// withdrawal then holds zero instead of the withdrawn amount, so the
/// dispute lifecycle cannot be abused to re-inflate a balance. Disputing a
/// withdrawal is a benign no-op on the balances, not an error.
#[derive(Clone, Copy, Debug, PartialEq, Eq, Structural)]
pub enum Movement {
    /// A settled deposit of the given (non-negative) fixed-point amount.
    Deposit(i64),
    /// A settled withdrawal; the amount is intentionally not retained.
    Withdrawal,
}

/// The amount that a dispute of this movement freezes.
pub open spec fn movement_amount(m: Movement) -> int {
    match m {
        Movement::Deposit(a) => a as int,
        Movement::Withdrawal => 0,
    }
}

/// The mathematical state of one account: what the executable account type
/// means. Balances are unbounded integers here; the executable code carries
/// them as `i64` fixed-point values.
#[verifier::ext_equal]
pub struct AccountModel {
    /// Sum of settled deposits minus settled withdrawals minus chargebacks.
    pub total: int,
    /// Sum of the amounts currently frozen by open disputes.
    pub held: int,
    /// Once true, deposits and withdrawals are permanently rejected.
    pub locked: bool,
    /// Every deposit or withdrawal ever settled, by transaction id.
    pub movements: Map<u32, Movement>,
    /// The transaction ids currently under dispute.
    pub disputed: Set<u32>,
}

/// The state of a freshly created account.
pub open spec fn empty_account() -> AccountModel {
    AccountModel {
        total: 0,
        held: 0,
        locked: false,
        movements: Map::empty(),
        disputed: Set::empty(),
    }
}

/// Well-formedness of an account model: a transaction can be disputed only
/// if it is on record, and recorded deposit amounts are non-negative.
pub open spec fn account_wf(m: AccountModel) -> bool {
    &&& forall|tx: u32| m.disputed.contains(tx) ==> #[trigger] m.movements.contains_key(tx)
    &&& forall|tx: u32| #[trigger] m.movements.contains_key(tx) ==> movement_amount(m.movements[tx]) >= 0
}

/// The funds a client may withdraw.
pub open spec fn available(m: AccountModel) -> int {
    m.total - m.held
}

/// The error a deposit returns, or `None` when it succeeds. The checks are
/// made in this order, so the first failing one names the error.
pub open spec fn deposit_error(m: AccountModel, tx: u32, amount: i64) -> Option<TransactionError> {
    if amount < 0 {
        Some(TransactionError::InvalidAmount)
    } else if m.movements.contains_key(tx) {
        Some(TransactionError::DuplicateTransaction)
    } else if m.locked {
        Some(TransactionError::AccountLocked)
    } else {
        None
    }
}

/// The state after a successful deposit.
pub open spec fn deposit_next(m: AccountModel, tx: u32, amount: i64) -> AccountModel {
    AccountModel {
        total: m.total + amount,
        movements: m.movements.insert(tx, Movement::Deposit(amount)),
        ..m
    }
}

/// The error a withdrawal returns, or `None` when it succeeds.
pub open spec fn withdraw_error(m: AccountModel, tx: u32, amount: i64) -> Option<TransactionError> {
    if amount < 0 {
        Some(TransactionError::InvalidAmount)
    } else if m.movements.contains_key(tx) {
        Some(TransactionError::DuplicateTransaction)
    } else if m.locked {
        Some(TransactionError::AccountLocked)
    } else if amount > available(m) {
        Some(TransactionError::InsufficientFunds)
    } else {
        None
    }
}

/// The state after a successful withdrawal: the total shrinks and the
/// movement is recorded without its amount.
pub open spec fn withdraw_next(m: AccountModel, tx: u32, amount: i64) -> AccountModel {
    AccountModel {
        total: m.total - amount,
        movements: m.movements.insert(tx, Movement::Withdrawal),
        ..m
    }
}

/// The error a dispute returns, or `None` when it succeeds. Locked state is
/// not checked: the dispute lifecycle stays open on a locked account.
pub open spec fn dispute_error(m: AccountModel, tx: u32) -> Option<TransactionError> {
    if !m.movements.contains_key(tx) {
        Some(TransactionError::UnknownTransaction)
    } else if m.disputed.contains(tx) {
        Some(TransactionError::AlreadyDisputed)
    } else {
        None
    }
}

/// The state after a successful dispute: the movement's amount is frozen.
pub open spec fn dispute_next(m: AccountModel, tx: u32) -> AccountModel {
    AccountModel {
        held: m.held + movement_amount(m.movements[tx]),
        disputed: m.disputed.insert(tx),
        ..m
    }
}

/// The error a resolve returns, or `None` when it succeeds.
pub open spec fn resolve_error(m: AccountModel, tx: u32) -> Option<TransactionError> {
    if !m.movements.contains_key(tx) {
        Some(TransactionError::UnknownTransaction)
    } else if !m.disputed.contains(tx) {
        Some(TransactionError::NotDisputed)
    } else {
        None
    }
}

/// The state after a successful resolve: the frozen amount is released and
/// the transaction may be disputed again.
pub open spec fn resolve_next(m: AccountModel, tx: u32) -> AccountModel {
    AccountModel {
        held: m.held - movement_amount(m.movements[tx]),
        disputed: m.disputed.remove(tx),
        ..m
    }
}

/// The error a chargeback returns, or `None` when it succeeds. The checks
/// are the same as for a resolve.
pub open spec fn chargeback_error(m: AccountModel, tx: u32) -> Option<TransactionError> {
    resolve_error(m, tx)
}

/// The state after a successful chargeback: the disputed amount leaves both
/// the held and the total balance, and the account is locked for good.
/// The transaction id deliberately stays in the disputed set.
pub open spec fn chargeback_next(m: AccountModel, tx: u32) -> AccountModel {
    AccountModel {
        held: m.held - movement_amount(m.movements[tx]),
        total: m.total - movement_amount(m.movements[tx]),
        locked: true,
        ..m
    }
}

/// Whether the ledger model `s` already has an account for `id`.
pub open spec fn has_client(s: Seq<(u16, AccountModel)>, id: u16) -> bool {
    exists|i: int| 0 <= i < s.len() && s[i].0 == id
}

/// The position of the account for `id` in the ledger model. Meaningful
/// when `has_client(s, id)` holds and client ids are distinct.
pub open spec fn client_index(s: Seq<(u16, AccountModel)>, id: u16) -> int {
    choose|i: int| 0 <= i < s.len() && s[i].0 == id
}

/// The account the next record addressed to `id` acts on: the registered
/// one, or a fresh empty account when `id` was never seen.
pub open spec fn client_model(s: Seq<(u16, AccountModel)>, id: u16) -> AccountModel {
    if has_client(s, id) {
        s[client_index(s, id)].1
    } else {
        empty_account()
    }
}

/// The amount a record carries, with zero standing in for a record that
/// carries none (dispute-lifecycle records never read it).
pub open spec fn record_amount(r: Record) -> i64 {
    match r.amount {
        Some(a) => a,
        None => 0,
    }
}

/// The error the operation a record dispatches to returns on account `m`,
/// or `None` when it succeeds.
pub open spec fn record_error(m: AccountModel, r: Record) -> Option<TransactionError> {
    match r.record_type {
        RecordType::Deposit => deposit_error(m, r.tx, record_amount(r)),
        RecordType::Withdrawal => withdraw_error(m, r.tx, record_amount(r)),
        RecordType::Dispute => dispute_error(m, r.tx),
        RecordType::Resolve => resolve_error(m, r.tx),
        RecordType::Chargeback => chargeback_error(m, r.tx),
    }
}

/// The account after a record is applied: the successor state on success,
/// the same account when the operation reports an error.
pub open spec fn record_next(m: AccountModel, r: Record) -> AccountModel {
    if record_error(m, r) is Some {
        m
    } else {
        match r.record_type {
            RecordType::Deposit => deposit_next(m, r.tx, record_amount(r)),
            RecordType::Withdrawal => withdraw_next(m, r.tx, record_amount(r)),
            RecordType::Dispute => dispute_next(m, r.tx),
            RecordType::Resolve => resolve_next(m, r.tx),
            RecordType::Chargeback => chargeback_next(m, r.tx),
        }
    }
}

/// The machine-limit side condition for applying a record to account `m`:
/// when the operation succeeds, the balance it writes back must still fit
/// in a 64-bit fixed-point value.
pub open spec fn record_fits(m: AccountModel, r: Record) -> bool {
    match r.record_type {
        RecordType::Deposit => deposit_error(m, r.tx, record_amount(r)) is None ==> m.total
            + record_amount(r) <= i64::MAX,
        RecordType::Withdrawal => true,
        RecordType::Dispute => dispute_error(m, r.tx) is None ==> m.held + movement_amount(
            m.movements[r.tx],
        ) <= i64::MAX,
        RecordType::Resolve => resolve_error(m, r.tx) is None ==> m.held - movement_amount(
            m.movements[r.tx],
        ) >= i64::MIN,
        RecordType::Chargeback => chargeback_error(m, r.tx) is None ==> m.held - movement_amount(
            m.movements[r.tx],
        ) >= i64::MIN && m.total - movement_amount(m.movements[r.tx]) >= i64::MIN,
    }
}

/// The ledger after a record is applied: the addressed account is created
/// empty if absent, then stepped by the record; every other account is
/// untouched and the registration order is kept.
pub open spec fn ledger_next(s: Seq<(u16, AccountModel)>, r: Record) -> Seq<(u16, AccountModel)> {
    if has_client(s, r.client) {
        s.update(client_index(s, r.client), (r.client, record_next(s[client_index(s, r.client)].1, r)))
    } else {
        s.push((r.client, record_next(empty_account(), r)))
    }
}

/// The snapshot row exported for one account: every balance is read off the
/// account, and `available` is its total minus its held balance.
pub open spec fn snapshot_row(id: u16, m: AccountModel) -> ClientRecord {
    ClientRecord {
        client: id,
        available: (m.total - m.held) as i128,
        held: m.held as i128,
        total: m.total as i128,
        locked: m.locked,
    }
}

} // verus!

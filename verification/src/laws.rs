use vstd::prelude::*;

use crate::errors::TransactionError;
use crate::model::{
    chargeback_error, chargeback_next, deposit_error, deposit_next, dispute_error, dispute_next,
    movement_amount, resolve_error, resolve_next, withdraw_error, withdraw_next, AccountModel,
};

verus! {

/// Law: depositing an amount and then withdrawing that same amount (which
/// succeeds exactly when it does not exceed the available balance) returns
/// the total balance to its value before the deposit.
pub proof fn lemma_deposit_then_withdraw_restores_total(
    m: AccountModel,
    tx1: u32,
    tx2: u32,
    amount: i64,
)
    requires
        deposit_error(m, tx1, amount) is None,
        withdraw_error(deposit_next(m, tx1, amount), tx2, amount) is None,
    ensures
        withdraw_next(deposit_next(m, tx1, amount), tx2, amount).total == m.total,
{
}

/// Law: a deposit or withdrawal that reuses a transaction id already on
/// record fails with `DuplicateTransaction`, whatever the balances, the
/// lock state or the disputes. (A negative amount is reported as
/// `InvalidAmount` before the id is looked at, so the law speaks of
/// non-negative amounts.)
pub proof fn lemma_duplicate_tx_always_rejected(m: AccountModel, tx: u32, amount: i64)
    requires
        amount >= 0,
        m.movements.contains_key(tx),
    ensures
        deposit_error(m, tx, amount) == Some(TransactionError::DuplicateTransaction),
        withdraw_error(m, tx, amount) == Some(TransactionError::DuplicateTransaction),
{
}

/// Law: disputing a transaction id that is not on record fails with
/// `UnknownTransaction`.
pub proof fn lemma_dispute_unknown_tx_rejected(m: AccountModel, tx: u32)
    requires
        !m.movements.contains_key(tx),
    ensures
        dispute_error(m, tx) == Some(TransactionError::UnknownTransaction),
{
}

/// Law: disputing the same transaction twice fails the second time with
/// `AlreadyDisputed`.
pub proof fn lemma_second_dispute_rejected(m: AccountModel, tx: u32)
    requires
        dispute_error(m, tx) is None,
    ensures
        dispute_error(dispute_next(m, tx), tx) == Some(TransactionError::AlreadyDisputed),
{
}

/// Law: a resolve right after a dispute is always accepted, restores the
/// held balance to its pre-dispute value, removes the transaction from the
/// disputed set, and leaves the account exactly as it was — in particular
/// the transaction may be disputed again.
pub proof fn lemma_resolve_undoes_dispute(m: AccountModel, tx: u32)
    requires
        dispute_error(m, tx) is None,
    ensures
        resolve_error(dispute_next(m, tx), tx) is None,
        resolve_next(dispute_next(m, tx), tx).held == m.held,
        !resolve_next(dispute_next(m, tx), tx).disputed.contains(tx),
        dispute_error(resolve_next(dispute_next(m, tx), tx), tx) is None,
        resolve_next(dispute_next(m, tx), tx) == m,
{
    assert(m.disputed.insert(tx).remove(tx) =~= m.disputed);
    assert(resolve_next(dispute_next(m, tx), tx) =~= m);
}

/// Law: a chargeback right after a dispute is always accepted, takes the
/// disputed amount out of both the total and the held balance — so the held
/// balance returns to its pre-dispute value — and locks the account.
pub proof fn lemma_chargeback_settles_dispute(m: AccountModel, tx: u32)
    requires
        dispute_error(m, tx) is None,
    ensures
        chargeback_error(dispute_next(m, tx), tx) is None,
        chargeback_next(dispute_next(m, tx), tx).total == m.total - movement_amount(
            m.movements[tx],
        ),
        chargeback_next(dispute_next(m, tx), tx).held == m.held,
        chargeback_next(dispute_next(m, tx), tx).locked,
{
}

/// Law: the lock is permanent — no operation resets it — and a deposit or
/// withdrawal on a locked account fails with `AccountLocked` whenever its
/// amount is non-negative and its transaction id is fresh (a negative
/// amount or a reused id is reported as its own error first).
pub proof fn lemma_lock_is_permanent(m: AccountModel, tx: u32, amount: i64)
    requires
        m.locked,
    ensures
        deposit_next(m, tx, amount).locked,
        withdraw_next(m, tx, amount).locked,
        dispute_next(m, tx).locked,
        resolve_next(m, tx).locked,
        chargeback_next(m, tx).locked,
        amount >= 0 && !m.movements.contains_key(tx) ==> deposit_error(m, tx, amount) == Some(
            TransactionError::AccountLocked,
        ) && withdraw_error(m, tx, amount) == Some(TransactionError::AccountLocked),
{
}

} // verus!

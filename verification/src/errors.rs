use vstd::prelude::*;

verus! {

/// Why an account operation was rejected. Every operation either succeeds
/// or returns exactly one of these kinds; a failed operation never changes
/// the account.
#[derive(Clone, Copy, Debug, PartialEq, Eq, Structural)]
pub enum TransactionError {
    /// A negative amount was passed to a deposit or withdrawal.
    InvalidAmount,
    /// The transaction id was already used by an earlier deposit or withdrawal.
    DuplicateTransaction,
    /// A deposit or withdrawal was attempted on a locked account.
    AccountLocked,
    /// A withdrawal asked for more than the available balance.
    InsufficientFunds,
    /// A dispute, resolve or chargeback named a transaction id not on record.
    UnknownTransaction,
    /// A dispute named a transaction that is already under dispute.
    AlreadyDisputed,
    /// A resolve or chargeback named a transaction that is not under dispute.
    NotDisputed,
}

impl TransactionError {
    /// A human-readable description of the error, for per-record reporting.
    pub open spec fn spec_message(self) -> Seq<char> {
        match self {
            TransactionError::InvalidAmount => "amount has to be positive"@,
            TransactionError::DuplicateTransaction => "customer already has a transaction with this tx id"@,
            TransactionError::AccountLocked => "this account is locked"@,
            TransactionError::InsufficientFunds => "insufficient funds"@,
            TransactionError::UnknownTransaction => "customer does not have a transaction with this tx id"@,
            TransactionError::AlreadyDisputed => "transaction is already disputed"@,
            TransactionError::NotDisputed => "transaction is not disputed"@,
        }
    }

    /// A human-readable description of the error, for per-record reporting.
    pub fn message(&self) -> (r: &'static str)
        ensures
            r@ == self.spec_message(),
    {
        match self {
            TransactionError::InvalidAmount => "amount has to be positive",
            TransactionError::DuplicateTransaction => "customer already has a transaction with this tx id",
            TransactionError::AccountLocked => "this account is locked",
            TransactionError::InsufficientFunds => "insufficient funds",
            TransactionError::UnknownTransaction => "customer does not have a transaction with this tx id",
            TransactionError::AlreadyDisputed => "transaction is already disputed",
            TransactionError::NotDisputed => "transaction is not disputed",
        }
    }
}

/// Why an input record was rejected before it reached any account.
#[derive(Clone, Copy, Debug, PartialEq, Eq, Structural)]
pub enum RecordError {
    /// A deposit or withdrawal record carries no amount.
    MissingAmount,
    /// A dispute, resolve or chargeback record carries an amount.
    UnexpectedAmount,
}

impl RecordError {
    /// A human-readable description of the error, for per-record reporting.
    pub fn message(&self) -> &'static str {
        match self {
            RecordError::MissingAmount => "missing amount in record",
            RecordError::UnexpectedAmount => "dispute, resolve and chargeback records may not carry an amount",
        }
    }
}

} // verus!

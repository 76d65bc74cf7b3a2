use vstd::prelude::*;

use crate::errors::RecordError;

verus! {

/// The kind of one input record.
#[derive(Clone, Copy, Debug, PartialEq, Eq, Structural)]
pub enum RecordType {
    Deposit,
    Withdrawal,
    Dispute,
    Resolve,
    Chargeback,
}

impl RecordType {
    /// The lower-case name of the record kind, as it appears in input files.
    pub open spec fn spec_label(self) -> Seq<char> {
        match self {
            RecordType::Deposit => "deposit"@,
            RecordType::Withdrawal => "withdrawal"@,
            RecordType::Dispute => "dispute"@,
            RecordType::Resolve => "resolve"@,
            RecordType::Chargeback => "chargeback"@,
        }
    }

    /// The lower-case name of the record kind, as it appears in input files.
    pub fn label(&self) -> (r: &'static str)
        ensures
            r@ == self.spec_label(),
    {
        match self {
            RecordType::Deposit => "deposit",
            RecordType::Withdrawal => "withdrawal",
            RecordType::Dispute => "dispute",
            RecordType::Resolve => "resolve",
            RecordType::Chargeback => "chargeback",
        }
    }
}

/// One input record, already reduced to plain values: the record kind, the
/// client it addresses, its transaction id and, for deposits and
/// withdrawals, the fixed-point amount.
#[derive(Clone, Copy, Debug)]
pub struct Record {
    pub record_type: RecordType,
    pub client: u16,
    pub tx: u32,
    pub amount: Option<i64>,
}

impl Record {
    /// A record is well-formed when deposits and withdrawals carry an
    /// amount and dispute-lifecycle records carry none.
    pub open spec fn valid(self) -> bool {
        match self.record_type {
            RecordType::Deposit | RecordType::Withdrawal => self.amount is Some,
            RecordType::Dispute | RecordType::Resolve | RecordType::Chargeback => self.amount is None,
        }
    }

    /// What `validate` returns.
    pub open spec fn spec_validate(self) -> Result<(), RecordError> {
        match self.record_type {
            RecordType::Deposit | RecordType::Withdrawal => {
                if self.amount is None {
                    Err(RecordError::MissingAmount)
                } else {
                    Ok(())
                }
            },
            RecordType::Dispute | RecordType::Resolve | RecordType::Chargeback => {
                if self.amount is Some {
                    Err(RecordError::UnexpectedAmount)
                } else {
                    Ok(())
                }
            },
        }
    }

    /// Checks the amount rule: deposits and withdrawals must carry an
    /// amount, dispute-lifecycle records must not.
    pub fn validate(&self) -> (r: Result<(), RecordError>)
        ensures
            r == self.spec_validate(),
            r is Ok <==> self.valid(),
    {
        match (&self.record_type, &self.amount) {
            (RecordType::Deposit | RecordType::Withdrawal, Option::None) => {
                Err(RecordError::MissingAmount)
            },
            (RecordType::Chargeback | RecordType::Resolve | RecordType::Dispute, Option::Some(_)) => {
                Err(RecordError::UnexpectedAmount)
            },
            _ => Ok(()),
        }
    }
}

/// The snapshot row exported for one client at the end of a run. All three
/// balances are derived from the account when the snapshot is taken, not
/// stored. The wider integer type lets `available` be exact even when the
/// difference of two extreme `i64` balances leaves the `i64` range.
#[derive(Clone, Copy, Debug, PartialEq, Eq, Structural)]
pub struct ClientRecord {
    pub client: u16,
    pub available: i128,
    pub held: i128,
    pub total: i128,
    pub locked: bool,
}

} // verus!

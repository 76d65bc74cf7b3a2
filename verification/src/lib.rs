//! A verified transaction-processing core: per-client accounts with
//! deposits, withdrawals and a dispute lifecycle (dispute, resolve,
//! chargeback), plus a ledger that registers accounts by client id and
//! projects a final balance snapshot.
//!
//! All monetary quantities are fixed-point integers with four implied
//! decimal digits, so one unit of currency is stored as `10_000`.

pub mod account;
pub mod errors;
pub mod laws;
pub mod ledger;
pub mod model;
pub mod structs;

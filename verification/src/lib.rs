//! A per-client account ledger driven by five kinds of transactions.
//!
//! Amounts and balances are signed 64-bit counts of the smallest currency
//! unit. The behaviour of every operation is stated against a mathematical
//! model in which balances are unbounded integers: [`AccountState`] for one
//! account, [`BankState`] for the accounts of all clients.

pub mod account;
pub mod bank;
pub mod laws;
pub mod model;
pub mod summary;
pub mod transaction;

pub use account::Account;
pub use bank::Bank;
pub use model::{AccountState, BankState};
pub use summary::AccountSummary;
pub use transaction::{Transaction, TxType};

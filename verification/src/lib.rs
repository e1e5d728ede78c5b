//! A best-effort client ledger: deposits, withdrawals and the dispute
//! lifecycle, applied one record at a time to per-client accounts.
//!
//! Amounts and balances are integers that count ten-thousandths of the
//! currency unit. `account` and `ledger` hold the mathematical model,
//! `client` and `bank` the executable types whose contracts are stated over
//! it, `render` the text of the snapshot, and `laws` what is proved of the
//! model.

pub mod account;
pub mod bank;
pub mod client;
pub mod laws;
pub mod ledger;
pub mod render;
pub mod transaction;

pub use crate::bank::Bank;
pub use crate::client::Client;
pub use crate::transaction::{Outcome, Rejection, Transaction, TransactionType};

//! The input unit of the ledger: one transaction record.

use vstd::prelude::*;

verus! {

/// What a record asks the ledger to do.
#[derive(Clone, Copy, Debug, PartialEq, Eq, Structural)]
pub enum TransactionType {
    Withdrawal,
    Deposit,
    Dispute,
    Resolve,
    Chargeback,
}

/// One record of the input stream.
///
/// `amount` counts ten-thousandths of the currency unit, so that every value
/// with four fractional digits is held exactly. It is read for withdrawals
/// and deposits only.
#[derive(Clone, Copy, Debug, PartialEq, Eq, Structural)]
pub struct Transaction {
    pub tx_type: TransactionType,
    pub client: u16,
    pub tx: u32,
    pub amount: u64,
}

/// Why a record was discarded.
#[derive(Clone, Copy, Debug, PartialEq, Eq, Structural)]
pub enum Rejection {
    /// The account is frozen.
    Frozen,
    /// A deposit or withdrawal under an id that the account already holds.
    Duplicate,
    /// A deposit or withdrawal of nothing.
    ZeroAmount,
    /// A dispute of an id that the account does not hold.
    UnknownTransaction,
    /// A dispute of a record that is no deposit.
    NotDisputable,
    /// A resolve or chargeback of an id that is not under dispute.
    NotDisputed,
    /// A record other than a deposit for a client without an account.
    NoAccount,
}

/// What became of a record.
#[derive(Clone, Copy, Debug, PartialEq, Eq, Structural)]
pub enum Outcome {
    Applied,
    Rejected(Rejection),
}

} // verus!

//! The account state machine, as mathematics.
//!
//! An account is modelled by [`AccountState`]: unbounded balances, the
//! latch, and the two maps of records. Each kind of record has a transition
//! function, and [`apply`] dispatches on the kind. The executable types state
//! their contracts over these functions.

use vstd::prelude::*;
use crate::transaction::{Outcome, Rejection, Transaction, TransactionType};

verus! {

/// The state of one client's account.
pub struct AccountState {
    /// Identity of the owner, fixed when the account is opened.
    pub client: u16,
    /// Funds free to use, in ten-thousandths. May be negative.
    pub available: int,
    /// Funds under dispute, in ten-thousandths. May be negative.
    pub held: int,
    /// One-way latch: a frozen account ignores every record.
    pub locked: bool,
    /// Accepted withdrawals and deposits, by transaction id.
    pub accepted: Map<u32, Transaction>,
    /// Records under an open dispute, by transaction id.
    pub disputes: Map<u32, Transaction>,
}

/// The account as it is opened: empty, unlocked.
pub open spec fn opened(client: u16) -> AccountState {
    AccountState {
        client,
        available: 0,
        held: 0,
        locked: false,
        accepted: Map::empty(),
        disputes: Map::empty(),
    }
}

/// The derived total of an account.
pub open spec fn total(s: AccountState) -> int {
    s.available + s.held
}

/// A withdrawal or deposit is taken only on an active account, under a fresh
/// id, and with a non-zero amount.
pub open spec fn takes(s: AccountState, t: Transaction) -> bool {
    !s.locked && !s.accepted.contains_key(t.tx) && t.amount != 0
}

/// A dispute is taken when the id names an accepted deposit of an active
/// account. An id already under dispute is taken again.
pub open spec fn disputable(s: AccountState, tx: u32) -> bool {
    !s.locked && s.accepted.contains_key(tx) && s.accepted[tx].tx_type
        == TransactionType::Deposit
}

/// A resolve or chargeback is taken when the id is under dispute on an active
/// account.
pub open spec fn closable(s: AccountState, tx: u32) -> bool {
    !s.locked && s.disputes.contains_key(tx)
}

/// Withdrawal: the amount leaves `available`, without a balance check, and
/// the record is kept.
pub open spec fn withdraw(s: AccountState, t: Transaction) -> AccountState {
    if takes(s, t) {
        AccountState {
            available: s.available - t.amount,
            accepted: s.accepted.insert(t.tx, t),
            ..s
        }
    } else {
        s
    }
}

/// Deposit: the amount enters `available`, and the record is kept.
pub open spec fn deposit(s: AccountState, t: Transaction) -> AccountState {
    if takes(s, t) {
        AccountState {
            available: s.available + t.amount,
            accepted: s.accepted.insert(t.tx, t),
            ..s
        }
    } else {
        s
    }
}

/// Dispute: the amount of the accepted deposit moves from `available` to
/// `held`, and the record is entered among the open disputes.
pub open spec fn dispute(s: AccountState, tx: u32) -> AccountState {
    if disputable(s, tx) {
        let rec = s.accepted[tx];
        AccountState {
            available: s.available - rec.amount,
            held: s.held + rec.amount,
            disputes: s.disputes.insert(tx, rec),
            ..s
        }
    } else {
        s
    }
}

/// Resolve: the disputed amount moves back from `held` to `available`, and
/// the dispute is closed.
pub open spec fn resolve(s: AccountState, tx: u32) -> AccountState {
    if closable(s, tx) {
        let rec = s.disputes[tx];
        AccountState {
            available: s.available + rec.amount,
            held: s.held - rec.amount,
            disputes: s.disputes.remove(tx),
            ..s
        }
    } else {
        s
    }
}

/// Chargeback: the disputed amount leaves `held`, the dispute is closed, and
/// the account is frozen.
pub open spec fn chargeback(s: AccountState, tx: u32) -> AccountState {
    if closable(s, tx) {
        let rec = s.disputes[tx];
        AccountState {
            held: s.held - rec.amount,
            locked: true,
            disputes: s.disputes.remove(tx),
            ..s
        }
    } else {
        s
    }
}

/// One step of the state machine: the record is dispatched on its kind.
/// A record that is not taken leaves the state as it was.
pub open spec fn apply(s: AccountState, t: Transaction) -> AccountState {
    match t.tx_type {
        TransactionType::Withdrawal => withdraw(s, t),
        TransactionType::Deposit => deposit(s, t),
        TransactionType::Dispute => dispute(s, t.tx),
        TransactionType::Resolve => resolve(s, t.tx),
        TransactionType::Chargeback => chargeback(s, t.tx),
    }
}

/// What becomes of a record on a given state: applied, or discarded and why.
/// Of two reasons the first in this order is given: frozen, then the id, then
/// the amount or the kind of the record found.
pub open spec fn verdict(s: AccountState, t: Transaction) -> Outcome {
    if s.locked {
        Outcome::Rejected(Rejection::Frozen)
    } else {
        match t.tx_type {
            TransactionType::Withdrawal | TransactionType::Deposit => {
                if s.accepted.contains_key(t.tx) {
                    Outcome::Rejected(Rejection::Duplicate)
                } else if t.amount == 0 {
                    Outcome::Rejected(Rejection::ZeroAmount)
                } else {
                    Outcome::Applied
                }
            },
            TransactionType::Dispute => {
                if !s.accepted.contains_key(t.tx) {
                    Outcome::Rejected(Rejection::UnknownTransaction)
                } else if s.accepted[t.tx].tx_type != TransactionType::Deposit {
                    Outcome::Rejected(Rejection::NotDisputable)
                } else {
                    Outcome::Applied
                }
            },
            TransactionType::Resolve | TransactionType::Chargeback => {
                if s.disputes.contains_key(t.tx) {
                    Outcome::Applied
                } else {
                    Outcome::Rejected(Rejection::NotDisputed)
                }
            },
        }
    }
}

/// The state after a whole sequence of records, applied in order.
pub open spec fn apply_all(s: AccountState, ts: Seq<Transaction>) -> AccountState
    decreases ts.len(),
{
    if ts.len() == 0 {
        s
    } else {
        apply(apply_all(s, ts.drop_last()), ts.last())
    }
}

/// What holds of the two maps of every account: a record is kept under its
/// own id and with a non-zero amount, and an open dispute stands for the
/// accepted deposit of the same id.
pub open spec fn consistent(s: AccountState) -> bool {
    &&& s.accepted.dom().finite()
    &&& s.disputes.dom().finite()
    &&& forall|tx: u32| #[trigger]
        s.accepted.contains_key(tx) ==> s.accepted[tx].tx == tx && s.accepted[tx].amount != 0
    &&& forall|tx: u32| #[trigger]
        s.disputes.contains_key(tx) ==> s.accepted.contains_key(tx) && s.accepted[tx]
            == s.disputes[tx] && s.disputes[tx].tx_type == TransactionType::Deposit
}

/// The balances, and their total, are within what the executable account
/// can hold.
pub open spec fn representable(s: AccountState) -> bool {
    &&& i128::MIN <= s.available <= i128::MAX
    &&& i128::MIN <= s.held <= i128::MAX
    &&& i128::MIN <= total(s) <= i128::MAX
}

} // verus!

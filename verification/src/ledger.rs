//! The ledger, as mathematics: a map from client to account state, and the
//! routing of records to accounts.

use vstd::prelude::*;
use crate::account::{apply, consistent, opened, representable, verdict, AccountState};
use crate::render::row;
use crate::transaction::{Outcome, Rejection, Transaction, TransactionType};

verus! {

/// The accounts of a ledger, by client.
pub type Accounts = Map<u16, AccountState>;

/// The ledger after `client` has been given an account, unless it had one.
pub open spec fn enrol(m: Accounts, client: u16) -> Accounts {
    if m.contains_key(client) {
        m
    } else {
        m.insert(client, opened(client))
    }
}

/// The ledger after one record: a record for a known client is applied to
/// that client's account alone; a deposit that carries an amount opens the
/// account of an unknown client and is its first record; any other record
/// for an unknown client is dropped, and no account is opened for it.
pub open spec fn route(m: Accounts, t: Transaction) -> Accounts {
    if m.contains_key(t.client) {
        m.insert(t.client, apply(m[t.client], t))
    } else if t.tx_type == TransactionType::Deposit && t.amount != 0 {
        m.insert(t.client, apply(opened(t.client), t))
    } else {
        m
    }
}

/// What becomes of a record at the ledger: what the account it reaches makes
/// of it; for a deposit to an unknown client, what a newly opened account
/// would make of it; for any other record to an unknown client, that there
/// is no account.
pub open spec fn route_verdict(m: Accounts, t: Transaction) -> Outcome {
    if m.contains_key(t.client) {
        verdict(m[t.client], t)
    } else if t.tx_type == TransactionType::Deposit {
        verdict(opened(t.client), t)
    } else {
        Outcome::Rejected(Rejection::NoAccount)
    }
}

/// The ledger after a whole sequence of records, routed in order.
pub open spec fn route_all(m: Accounts, ts: Seq<Transaction>) -> Accounts
    decreases ts.len(),
{
    if ts.len() == 0 {
        m
    } else {
        route(route_all(m, ts.drop_last()), ts.last())
    }
}

/// What holds of every ledger: each account stands under its own client,
/// is consistent, and has representable balances.
pub open spec fn sound(m: Accounts) -> bool {
    &&& m.dom().finite()
    &&& forall|c: u16| #[trigger]
        m.contains_key(c) ==> m[c].client == c && consistent(m[c]) && representable(m[c])
}

/// The record can be routed without a balance leaving what the executable
/// account can hold.
pub open spec fn admissible(m: Accounts, t: Transaction) -> bool {
    route(m, t).contains_key(t.client) ==> representable(route(m, t)[t.client])
}

/// The first line of a snapshot.
pub open spec fn header() -> Seq<char> {
    "client, available, held, total, locked\n"@
}

/// The rows of the clients in `order`, each ended by a line feed.
pub open spec fn rows(m: Accounts, order: Seq<u16>) -> Seq<char>
    decreases order.len(),
{
    if order.len() == 0 {
        Seq::<char>::empty()
    } else {
        rows(m, order.drop_last()) + row(m[order.last()]) + "\n"@
    }
}

/// `order` names every client of the ledger exactly once.
pub open spec fn enumerates(order: Seq<u16>, m: Accounts) -> bool {
    order.no_duplicates() && order.to_set() == m.dom()
}

} // verus!

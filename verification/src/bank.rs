//! The executable ledger: accounts by client, routing, and the snapshot.

use std::collections::HashMap;
use vstd::prelude::*;
use vstd::std_specs::hash::spec_keys_iter;
use vstd::std_specs::iter::IteratorSpec;
use crate::account::AccountState;
use crate::client::Client;
use crate::render::row;
use crate::ledger::{
    admissible, enrol, enumerates, header, route, route_verdict, rows, sound, Accounts,
};
use crate::transaction::{Outcome, Rejection, Transaction, TransactionType};

verus! {

broadcast use vstd::std_specs::hash::group_hash_axioms;

/// All accounts of one run, by client.
#[derive(Debug)]
pub struct Bank {
    bank: HashMap<u16, Client>,
}

impl View for Bank {
    type V = Accounts;

    closed spec fn view(&self) -> Accounts {
        Map::new(|c: u16| self.bank@.contains_key(c), |c: u16| self.bank@[c]@)
    }
}

impl Bank {
    /// The ledger's invariant, over its view.
    pub open spec fn wf(&self) -> bool {
        sound(self@)
    }

    /// A ledger without accounts.
    pub fn new() -> (r: Bank)
        ensures
            r@ == Map::<u16, AccountState>::empty(),
            r.wf(),
    {
        let r = Bank { bank: HashMap::new() };
        assert(r@ =~= Map::<u16, AccountState>::empty());
        r
    }

    /// Opens an account for `client_id` unless one exists.
    pub fn add_client(&mut self, client_id: u16)
        requires
            old(self).wf(),
        ensures
            final(self)@ == enrol(old(self)@, client_id),
            final(self).wf(),
    {
        if !self.bank.contains_key(&client_id) {
            let client = Client::new(client_id);
            self.bank.insert(client_id, client);
        }
        assert(final(self)@ =~= enrol(old(self)@, client_id));
    }

    /// Routes one record to the account of the client it names. A client
    /// without an account gets one with its first deposit that carries an
    /// amount; until then its records are dropped.
    pub fn insert_txn(&mut self, txn: Transaction)
        requires
            old(self).wf(),
            admissible(old(self)@, txn),
        ensures
            final(self)@ == route(old(self)@, txn),
            final(self).wf(),
    {
        if !self.bank.contains_key(&txn.client) {
            if txn.tx_type == TransactionType::Deposit && txn.amount != 0 {
                self.add_client(txn.client);
            }
        }
        let ghost routed = self@;
        assert(routed.contains_key(txn.client) == self.bank@.contains_key(txn.client));
        match self.bank.remove(&txn.client) {
            Some(account) => {
                let mut account = account;
                assert(account@ == routed[txn.client]);
                account.process_txn(txn);
                self.bank.insert(txn.client, account);
            },
            None => {},
        }
        assert(final(self)@ =~= route(old(self)@, txn));
    }

    /// Tells what `insert_txn` would make of `txn`, without routing it.
    pub fn verdict(&self, txn: Transaction) -> (r: Outcome)
        requires
            self.wf(),
        ensures
            r == route_verdict(self@, txn),
    {
        assert(self@.contains_key(txn.client) == self.bank@.contains_key(txn.client));
        match self.bank.get(&txn.client) {
            Some(account) => {
                assert(account@ == self@[txn.client]);
                account.verdict(txn)
            },
            None => {
                if txn.tx_type == TransactionType::Deposit {
                    Client::new(txn.client).verdict(txn)
                } else {
                    Outcome::Rejected(Rejection::NoAccount)
                }
            },
        }
    }

    /// Routes one record as `insert_txn` does, and tells what became of it.
    pub fn try_insert_txn(&mut self, txn: Transaction) -> (r: Outcome)
        requires
            old(self).wf(),
            admissible(old(self)@, txn),
        ensures
            r == route_verdict(old(self)@, txn),
            final(self)@ == route(old(self)@, txn),
            final(self).wf(),
    {
        let r = self.verdict(txn);
        self.insert_txn(txn);
        r
    }

    /// Tells whether `txn` can be routed with the balances of the account it
    /// reaches staying within what the account can hold.
    pub fn admits(&self, txn: Transaction) -> (r: bool)
        requires
            self.wf(),
        ensures
            r == admissible(self@, txn),
    {
        assert(self@.contains_key(txn.client) == self.bank@.contains_key(txn.client));
        match self.bank.get(&txn.client) {
            Some(account) => {
                assert(account@ == self@[txn.client]);
                account.admits(txn)
            },
            None => true,
        }
    }

    /// The account of `client_id`, if the ledger has one.
    pub fn get(&self, client_id: u16) -> (r: Option<&Client>)
        requires
            self.wf(),
        ensures
            r is Some == self@.contains_key(client_id),
            r matches Some(account) ==> account@ == self@[client_id] && account.wf(),
    {
        assert(self@.contains_key(client_id) == self.bank@.contains_key(client_id));
        self.bank.get(&client_id)
    }

    /// The number of accounts.
    pub fn len(&self) -> (r: usize)
        ensures
            r == self@.dom().len(),
    {
        assert(self@.dom() =~= self.bank@.dom());
        self.bank.len()
    }

    /// The snapshot: the header line, then one row per client, each ended by
    /// a line feed. The order of the rows is that in which the map hands out
    /// its keys, and is not fixed.
    pub fn to_string(&self) -> (r: String)
        requires
            self.wf(),
        ensures
            exists|order: Seq<u16>| enumerates(order, self@) && r@ == header() + rows(self@, order),
    {
        let mut out = String::from_str("client, available, held, total, locked\n");
        proof {
            assert(out@ =~= header() + rows(self@, Seq::<u16>::empty()));
        }
        for client_id in it: self.bank.keys()
            invariant
                self.wf(),
                it.seq() == spec_keys_iter(&self.bank).remaining(),
                out@ == header() + rows(self@, it.seq().unref().take(it.index())),
        {
            let ghost listed = it.seq().unref();
            let ghost n = it.index();
            proof {
                assert(listed[n] == *client_id);
                assert(listed.to_set().contains(*client_id));
                assert(self@.contains_key(*client_id));
                lemma_rows_step(self@, listed, n);
            }
            let line = self.bank.get(client_id).unwrap().to_string();
            out.append(line.as_str());
            out.append("\n");
            assert(out@ =~= header() + rows(self@, listed.take(n + 1)));
        }
        proof {
            let order = spec_keys_iter(&self.bank).remaining().unref();
            assert(order.take(order.len() as int) =~= order);
            assert(self@.dom() =~= self.bank@.dom());
            assert(enumerates(order, self@));
        }
        out
    }
}

/// The rows of one more client follow those of the clients before it.
proof fn lemma_rows_step(m: Accounts, order: Seq<u16>, n: int)
    requires
        0 <= n < order.len(),
    ensures
        rows(m, order.take(n + 1)) == rows(m, order.take(n)) + row(m[order[n]]) + "\n"@,
{
    assert(order.take(n + 1).drop_last() =~= order.take(n));
}

} // verus!

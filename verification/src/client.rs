//! The executable account of one client.

use std::collections::HashMap;
use vstd::prelude::*;
use crate::account::{
    apply, chargeback, consistent, deposit, dispute, opened, representable, resolve, total,
    verdict, withdraw, AccountState,
};
use crate::render::{push_digits, push_fixed4, row};
use crate::transaction::{Outcome, Rejection, Transaction, TransactionType};

verus! {

broadcast use vstd::std_specs::hash::group_hash_axioms;

/// One client's balances, the records it accepted and its open disputes.
///
/// Balances count ten-thousandths of the currency unit.
#[derive(Debug)]
pub struct Client {
    client: u16,
    txns: HashMap<u32, Transaction>,
    available: i128,
    held: i128,
    locked: bool,
    disputes: HashMap<u32, Transaction>,
}

impl View for Client {
    type V = AccountState;

    closed spec fn view(&self) -> AccountState {
        AccountState {
            client: self.client,
            available: self.available as int,
            held: self.held as int,
            locked: self.locked,
            accepted: self.txns@,
            disputes: self.disputes@,
        }
    }
}

/// True when both balances were computed without overflow and their total
/// can be computed too.
fn holds(available: Option<i128>, held: Option<i128>) -> (r: bool)
    ensures
        r == (available is Some && held is Some && i128::MIN <= available.unwrap() + held.unwrap()
            <= i128::MAX),
{
    match (available, held) {
        (Some(a), Some(h)) => a.checked_add(h).is_some(),
        _ => false,
    }
}

impl Client {
    /// The account's invariant: its maps are consistent, and its balances and
    /// their total are representable.
    pub open spec fn wf(&self) -> bool {
        consistent(self@) && representable(self@)
    }

    /// Opens the account of `client`: no funds, no records, not locked.
    pub fn new(client: u16) -> (r: Client)
        ensures
            r@ == opened(client),
            r.wf(),
    {
        let r = Client {
            client,
            txns: HashMap::new(),
            available: 0,
            held: 0,
            locked: false,
            disputes: HashMap::new(),
        };
        assert(r@.accepted =~= Map::<u32, Transaction>::empty());
        assert(r@.disputes =~= Map::<u32, Transaction>::empty());
        r
    }

    /// Applies one record to the account. The account the record names is not
    /// examined: routing is the ledger's work.
    pub fn process_txn(&mut self, txn: Transaction)
        requires
            old(self).wf(),
            representable(apply(old(self)@, txn)),
        ensures
            final(self)@ == apply(old(self)@, txn),
            final(self).wf(),
    {
        if !self.locked {
            match txn.tx_type {
                TransactionType::Withdrawal => self.withdrawal(txn),
                TransactionType::Deposit => self.deposit(txn),
                TransactionType::Dispute => self.dispute(txn.tx),
                TransactionType::Resolve => self.resolve(txn.tx),
                TransactionType::Chargeback => self.chargeback(txn.tx),
            }
        }
    }

    /// Tells what `process_txn` would make of `txn`, without applying it.
    pub fn verdict(&self, txn: Transaction) -> (r: Outcome)
        ensures
            r == verdict(self@, txn),
    {
        if self.locked {
            return Outcome::Rejected(Rejection::Frozen);
        }
        match txn.tx_type {
            TransactionType::Withdrawal | TransactionType::Deposit => {
                if self.txns.contains_key(&txn.tx) {
                    Outcome::Rejected(Rejection::Duplicate)
                } else if txn.amount == 0 {
                    Outcome::Rejected(Rejection::ZeroAmount)
                } else {
                    Outcome::Applied
                }
            },
            TransactionType::Dispute => {
                match self.txns.get(&txn.tx) {
                    Some(rec) => {
                        if rec.tx_type == TransactionType::Deposit {
                            Outcome::Applied
                        } else {
                            Outcome::Rejected(Rejection::NotDisputable)
                        }
                    },
                    None => Outcome::Rejected(Rejection::UnknownTransaction),
                }
            },
            TransactionType::Resolve | TransactionType::Chargeback => {
                if self.disputes.contains_key(&txn.tx) {
                    Outcome::Applied
                } else {
                    Outcome::Rejected(Rejection::NotDisputed)
                }
            },
        }
    }

    /// Applies one record as `process_txn` does, and tells what became of it.
    pub fn try_apply(&mut self, txn: Transaction) -> (r: Outcome)
        requires
            old(self).wf(),
            representable(apply(old(self)@, txn)),
        ensures
            r == verdict(old(self)@, txn),
            final(self)@ == apply(old(self)@, txn),
            final(self).wf(),
    {
        let r = self.verdict(txn);
        self.process_txn(txn);
        r
    }

    /// Takes `txn` as a withdrawal, whatever kind it states: unless the
    /// account is frozen, the id is already known or the amount is zero, the
    /// amount leaves `available` and the record is kept as given.
    pub fn withdrawal(&mut self, txn: Transaction)
        requires
            old(self).wf(),
            representable(withdraw(old(self)@, txn)),
        ensures
            final(self)@ == withdraw(old(self)@, txn),
            final(self).wf(),
    {
        if !self.locked && !self.txns.contains_key(&txn.tx) && txn.amount != 0 {
            self.available = self.available - (txn.amount as i128);
            self.txns.insert(txn.tx, txn);
        }
    }

    fn deposit(&mut self, txn: Transaction)
        requires
            old(self).wf(),
            representable(deposit(old(self)@, txn)),
        ensures
            final(self)@ == deposit(old(self)@, txn),
            final(self).wf(),
    {
        if !self.locked && !self.txns.contains_key(&txn.tx) && txn.amount != 0 {
            self.available = self.available + (txn.amount as i128);
            self.txns.insert(txn.tx, txn);
        }
    }

    fn dispute(&mut self, tx: u32)
        requires
            old(self).wf(),
            representable(dispute(old(self)@, tx)),
        ensures
            final(self)@ == dispute(old(self)@, tx),
            final(self).wf(),
    {
        if self.locked {
            return ;
        }
        match self.txns.get(&tx) {
            Some(txn) => {
                if txn.tx_type == TransactionType::Deposit {
                    let rec: Transaction = *txn;
                    self.available = self.available - (rec.amount as i128);
                    self.held = self.held + (rec.amount as i128);
                    self.disputes.insert(tx, rec);
                }
            },
            None => {},
        }
    }

    fn resolve(&mut self, tx: u32)
        requires
            old(self).wf(),
            representable(resolve(old(self)@, tx)),
        ensures
            final(self)@ == resolve(old(self)@, tx),
            final(self).wf(),
    {
        if self.locked {
            return ;
        }
        match self.disputes.remove(&tx) {
            Some(rec) => {
                self.available = self.available + (rec.amount as i128);
                self.held = self.held - (rec.amount as i128);
            },
            None => {
                assert(self.disputes@ =~= old(self).disputes@);
            },
        }
    }

    fn chargeback(&mut self, tx: u32)
        requires
            old(self).wf(),
            representable(chargeback(old(self)@, tx)),
        ensures
            final(self)@ == chargeback(old(self)@, tx),
            final(self).wf(),
    {
        if self.locked {
            return ;
        }
        match self.disputes.remove(&tx) {
            Some(rec) => {
                self.held = self.held - (rec.amount as i128);
                self.locked = true;
            },
            None => {
                assert(self.disputes@ =~= old(self).disputes@);
            },
        }
    }

    /// Tells whether `txn` can be applied with the balances, and their
    /// total, staying within what the account can hold. A record that would
    /// be discarded is always admitted.
    pub fn admits(&self, txn: Transaction) -> (r: bool)
        requires
            self.wf(),
        ensures
            r == representable(apply(self@, txn)),
    {
        if self.locked {
            return true;
        }
        let amount: i128 = txn.amount as i128;
        match txn.tx_type {
            TransactionType::Withdrawal => {
                self.txns.contains_key(&txn.tx) || txn.amount == 0 || holds(
                    self.available.checked_sub(amount),
                    Some(self.held),
                )
            },
            TransactionType::Deposit => {
                self.txns.contains_key(&txn.tx) || txn.amount == 0 || holds(
                    self.available.checked_add(amount),
                    Some(self.held),
                )
            },
            TransactionType::Dispute => {
                match self.txns.get(&txn.tx) {
                    Some(rec) => {
                        let disputed: i128 = rec.amount as i128;
                        rec.tx_type != TransactionType::Deposit || holds(
                            self.available.checked_sub(disputed),
                            self.held.checked_add(disputed),
                        )
                    },
                    None => true,
                }
            },
            TransactionType::Resolve => {
                match self.disputes.get(&txn.tx) {
                    Some(rec) => {
                        let disputed: i128 = rec.amount as i128;
                        holds(
                            self.available.checked_add(disputed),
                            self.held.checked_sub(disputed),
                        )
                    },
                    None => true,
                }
            },
            TransactionType::Chargeback => {
                match self.disputes.get(&txn.tx) {
                    Some(rec) => {
                        let disputed: i128 = rec.amount as i128;
                        holds(Some(self.available), self.held.checked_sub(disputed))
                    },
                    None => true,
                }
            },
        }
    }

    /// The account's row of the snapshot: client, available, held, total and
    /// locked, the three balances with four fractional digits.
    pub fn to_string(&self) -> (r: String)
        requires
            self.wf(),
        ensures
            r@ == row(self@),
    {
        let mut out = String::new();
        push_digits(&mut out, self.client as u128);
        out.append(", ");
        push_fixed4(&mut out, self.available);
        out.append(", ");
        push_fixed4(&mut out, self.held);
        out.append(", ");
        push_fixed4(&mut out, self.available + self.held);
        out.append(", ");
        if self.locked {
            out.append("true");
        } else {
            out.append("false");
        }
        assert(out@ =~= row(self@));
        out
    }

    /// The client this account belongs to.
    pub fn client(&self) -> (r: u16)
        ensures
            r == self@.client,
    {
        self.client
    }

    /// Funds free to use, in ten-thousandths.
    pub fn available(&self) -> (r: i128)
        ensures
            r == self@.available,
    {
        self.available
    }

    /// Funds under dispute, in ten-thousandths.
    pub fn held(&self) -> (r: i128)
        ensures
            r == self@.held,
    {
        self.held
    }

    /// `available + held`, derived at each call.
    pub fn total(&self) -> (r: i128)
        requires
            self.wf(),
        ensures
            r == total(self@),
            r == self@.available + self@.held,
    {
        self.available + self.held
    }

    /// True once a chargeback has frozen the account.
    pub fn locked(&self) -> (r: bool)
        ensures
            r == self@.locked,
    {
        self.locked
    }
}

} // verus!

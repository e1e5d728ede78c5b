//! Laws of the state machine, proved over the model.

use vstd::prelude::*;
use crate::account::{
    apply, apply_all, closable, consistent, disputable, opened, takes, total, verdict,
    AccountState,
};
use crate::ledger::{enumerates, route, route_all, route_verdict, Accounts};
use crate::render::{digits, fixed4, row, truth};
use crate::transaction::{Outcome, Transaction, TransactionType};

verus! {

/// After any sequence of records, and so after every record of it, the total
/// of an account is its available funds plus its held funds.
pub proof fn lemma_total_is_available_plus_held(s: AccountState, ts: Seq<Transaction>)
    ensures
        total(apply_all(s, ts)) == apply_all(s, ts).available + apply_all(s, ts).held,
        forall|n: int|
            0 <= n <= ts.len() ==> total(#[trigger] apply_all(s, ts.take(n))) == apply_all(
                s,
                ts.take(n),
            ).available + apply_all(s, ts.take(n)).held,
{
}

/// A record changes the total only when it is a deposit or withdrawal that is
/// taken, by its amount, or a chargeback that is taken, by the disputed
/// amount: disputes and resolves move funds between the two balances.
pub proof fn lemma_total_moves_only_with_funds(s: AccountState, t: Transaction)
    ensures
        t.tx_type == TransactionType::Dispute || t.tx_type == TransactionType::Resolve ==> total(
            apply(s, t),
        ) == total(s),
        t.tx_type == TransactionType::Deposit ==> total(apply(s, t)) == total(s) + (if takes(s, t) {
            t.amount as int
        } else {
            0
        }),
        t.tx_type == TransactionType::Withdrawal ==> total(apply(s, t)) == total(s) - (if takes(
            s,
            t,
        ) {
            t.amount as int
        } else {
            0
        }),
        t.tx_type == TransactionType::Chargeback ==> total(apply(s, t)) == total(s) - (if closable(
            s,
            t.tx,
        ) {
            s.disputes[t.tx].amount as int
        } else {
            0
        }),
{
}

/// The row of an account shows, as its total, the sum of the two balances
/// that it shows before it.
pub proof fn lemma_row_total_is_sum(s: AccountState)
    ensures
        row(s) == digits(s.client as nat) + ", "@ + fixed4(s.available) + ", "@ + fixed4(s.held)
            + ", "@ + fixed4(s.available + s.held) + ", "@ + truth(s.locked),
{
}

/// A chargeback of an open dispute on an active account takes the disputed
/// amount out of `held`, leaves `available` as it is, closes the dispute,
/// keeps every accepted record, and locks the account.
pub proof fn lemma_chargeback_step(s: AccountState, cb: Transaction)
    requires
        cb.tx_type == TransactionType::Chargeback,
        closable(s, cb.tx),
    ensures
        apply(s, cb).held == s.held - s.disputes[cb.tx].amount,
        apply(s, cb).available == s.available,
        apply(s, cb).locked,
        apply(s, cb).disputes == s.disputes.remove(cb.tx),
        apply(s, cb).accepted == s.accepted,
        apply(s, cb).client == s.client,
{
}

/// A resolve of an open dispute on an active account moves the disputed
/// amount from `held` back to `available` and closes the dispute; nothing
/// else changes.
pub proof fn lemma_resolve_step(s: AccountState, res: Transaction)
    requires
        res.tx_type == TransactionType::Resolve,
        closable(s, res.tx),
    ensures
        apply(s, res).held == s.held - s.disputes[res.tx].amount,
        apply(s, res).available == s.available + s.disputes[res.tx].amount,
        apply(s, res).locked == s.locked,
        apply(s, res).disputes == s.disputes.remove(res.tx),
        apply(s, res).accepted == s.accepted,
        apply(s, res).client == s.client,
{
}

/// A dispute of an accepted deposit on an active account moves the deposited
/// amount from `available` to `held` and opens the dispute; nothing else
/// changes. On a consistent account this holds also where the dispute was
/// open already: the amount moves again.
pub proof fn lemma_dispute_step(s: AccountState, dis: Transaction)
    requires
        dis.tx_type == TransactionType::Dispute,
        disputable(s, dis.tx),
    ensures
        apply(s, dis).available == s.available - s.accepted[dis.tx].amount,
        apply(s, dis).held == s.held + s.accepted[dis.tx].amount,
        apply(s, dis).locked == s.locked,
        apply(s, dis).disputes == s.disputes.insert(dis.tx, s.accepted[dis.tx]),
        apply(s, dis).accepted == s.accepted,
        apply(s, dis).client == s.client,
{
}

/// Discarding is silent and complete: a record that is rejected leaves the
/// account exactly as it was. A record that is applied to a consistent
/// account changes it.
pub proof fn lemma_rejected_changes_nothing(s: AccountState, t: Transaction)
    ensures
        verdict(s, t) is Rejected ==> apply(s, t) == s,
        consistent(s) && verdict(s, t) is Applied ==> apply(s, t) != s,
{
    if consistent(s) && verdict(s, t) is Applied {
        match t.tx_type {
            TransactionType::Withdrawal | TransactionType::Deposit => {
                assert(apply(s, t).accepted.contains_key(t.tx));
            },
            TransactionType::Dispute => {
                assert(s.accepted[t.tx].amount != 0);
            },
            TransactionType::Resolve => {
                assert(s.accepted[t.tx].amount != 0);
            },
            TransactionType::Chargeback => {},
        }
    }
}

/// At the ledger too, a rejected record leaves no trace: every account is
/// as it was, and none is opened.
pub proof fn lemma_rejected_changes_no_account(m: Accounts, t: Transaction)
    requires
        route_verdict(m, t) is Rejected,
    ensures
        route(m, t) == m,
{
    if m.contains_key(t.client) {
        lemma_rejected_changes_nothing(m[t.client], t);
        assert(route(m, t) =~= m);
    }
}

/// At the ledger, a record that is applied changes the ledger, given that
/// the account it reaches is consistent.
pub proof fn lemma_applied_changes_the_ledger(m: Accounts, t: Transaction)
    requires
        route_verdict(m, t) is Applied,
        m.contains_key(t.client) ==> consistent(m[t.client]),
    ensures
        route(m, t) != m,
        route(m, t).contains_key(t.client),
{
    if m.contains_key(t.client) {
        lemma_rejected_changes_nothing(m[t.client], t);
        assert(route(m, t)[t.client] != m[t.client]);
    }
}

/// Every record keeps an account consistent.
pub proof fn lemma_apply_keeps_consistent(s: AccountState, t: Transaction)
    requires
        consistent(s),
    ensures
        consistent(apply(s, t)),
{
}

/// Every sequence of records keeps an account consistent.
pub proof fn lemma_apply_all_keeps_consistent(s: AccountState, ts: Seq<Transaction>)
    requires
        consistent(s),
    ensures
        consistent(apply_all(s, ts)),
    decreases ts.len(),
{
    if ts.len() > 0 {
        lemma_apply_all_keeps_consistent(s, ts.drop_last());
        lemma_apply_keeps_consistent(apply_all(s, ts.drop_last()), ts.last());
    }
}

/// The latch is one-way, and a frozen account is frozen for good: no sequence
/// of records changes anything of it.
pub proof fn lemma_frozen_is_final(s: AccountState, ts: Seq<Transaction>)
    requires
        s.locked,
    ensures
        apply_all(s, ts) == s,
    decreases ts.len(),
{
    if ts.len() > 0 {
        lemma_frozen_is_final(s, ts.drop_last());
    }
}

/// Once locked, always locked: no record unlocks an account.
pub proof fn lemma_lock_is_one_way(s: AccountState, t: Transaction)
    ensures
        s.locked ==> apply(s, t).locked,
        apply(s, t).client == s.client,
{
}

/// An accepted record is never replaced or dropped.
pub proof fn lemma_accepted_is_kept(s: AccountState, t: Transaction, tx: u32)
    requires
        s.accepted.contains_key(tx),
    ensures
        apply(s, t).accepted.contains_key(tx),
        apply(s, t).accepted[tx] == s.accepted[tx],
{
}

/// Round trip: after a deposit, a dispute of it followed by a resolve leaves
/// both balances as the deposit left them. Where the deposit was taken, the
/// whole account is as the deposit left it.
pub proof fn lemma_dispute_then_resolve_restores(
    s: AccountState,
    dep: Transaction,
    dis: Transaction,
    res: Transaction,
)
    requires
        consistent(s),
        dep.tx_type == TransactionType::Deposit,
        dis.tx_type == TransactionType::Dispute,
        res.tx_type == TransactionType::Resolve,
        dis.tx == dep.tx,
        res.tx == dep.tx,
    ensures
        ({
            let before = apply(s, dep);
            let after = apply(apply(before, dis), res);
            &&& after.available == before.available
            &&& after.held == before.held
            &&& after.locked == before.locked
            &&& takes(s, dep) ==> after == before
        }),
{
    let before = apply(s, dep);
    let after = apply(apply(before, dis), res);
    if takes(s, dep) {
        assert(!s.disputes.contains_key(dep.tx));
        assert(after.disputes =~= before.disputes);
    }
}

/// After a deposit that is taken, a dispute of it followed by a chargeback
/// takes the deposited amount out again: both balances are what they were
/// before the deposit, and the account is locked and ignores every record
/// that follows.
pub proof fn lemma_dispute_then_chargeback_freezes(
    s: AccountState,
    dep: Transaction,
    dis: Transaction,
    cb: Transaction,
    later: Seq<Transaction>,
)
    requires
        consistent(s),
        takes(s, dep),
        dep.tx_type == TransactionType::Deposit,
        dis.tx_type == TransactionType::Dispute,
        cb.tx_type == TransactionType::Chargeback,
        dis.tx == dep.tx,
        cb.tx == dep.tx,
    ensures
        ({
            let after = apply(apply(apply(s, dep), dis), cb);
            &&& after.locked
            &&& after.available == s.available
            &&& after.held == s.held
            &&& apply_all(after, later) == after
        }),
{
    let after = apply(apply(apply(s, dep), dis), cb);
    lemma_frozen_is_final(after, later);
}

/// Of two deposits under one id, the second is discarded: the account is as
/// the first left it. The first must carry an amount, or else the second
/// must be one that would be discarded anyway.
pub proof fn lemma_second_deposit_is_discarded(
    s: AccountState,
    first: Transaction,
    second: Transaction,
)
    requires
        first.tx_type == TransactionType::Deposit,
        second.tx_type == TransactionType::Deposit,
        second.tx == first.tx,
        first.amount != 0 || !takes(s, second),
    ensures
        apply(apply(s, first), second) == apply(s, first),
{
}

/// The same at the ledger: two deposits of one client under one id leave the
/// ledger as the first alone does.
pub proof fn lemma_second_deposit_is_discarded_by_ledger(
    m: Accounts,
    first: Transaction,
    second: Transaction,
)
    requires
        first.tx_type == TransactionType::Deposit,
        second.tx_type == TransactionType::Deposit,
        second.tx == first.tx,
        second.client == first.client,
        first.amount != 0,
    ensures
        route(route(m, first), second) == route(m, first),
{
    let once = route(m, first);
    assert(once.contains_key(first.client));
    lemma_second_deposit_is_discarded(
        if m.contains_key(first.client) {
            m[first.client]
        } else {
            opened(first.client)
        },
        first,
        second,
    );
    assert(route(once, second) =~= once);
}

/// A record for a client without an account leaves the ledger as it was,
/// unless it is a deposit that carries an amount.
pub proof fn lemma_only_deposits_open(m: Accounts, t: Transaction)
    requires
        !m.contains_key(t.client),
        t.tx_type != TransactionType::Deposit || t.amount == 0,
    ensures
        route(m, t) == m,
{
}

/// The deposit that opens an account is accepted by it.
pub proof fn lemma_opening_deposit_is_accepted(m: Accounts, t: Transaction)
    requires
        !m.contains_key(t.client),
        t.tx_type == TransactionType::Deposit,
        t.amount != 0,
    ensures
        route_verdict(m, t) is Applied,
        route(m, t).contains_key(t.client),
        route(m, t)[t.client].accepted.contains_key(t.tx),
        route(m, t)[t.client].accepted[t.tx] == t,
        route(m, t)[t.client].available == t.amount,
{
}

/// Some record of `ts` is a deposit for `client` that carries an amount.
pub open spec fn has_deposit_for(ts: Seq<Transaction>, client: u16) -> bool {
    exists|i: int|
        0 <= i < ts.len() && (#[trigger] ts[i]).client == client && ts[i].tx_type
            == TransactionType::Deposit && ts[i].amount != 0
}

/// The account holds an accepted deposit.
pub open spec fn holds_a_deposit(s: AccountState) -> bool {
    exists|tx: u32| #[trigger]
        s.accepted.contains_key(tx) && s.accepted[tx].tx_type == TransactionType::Deposit
}

/// After any sequence of records, a client has an account exactly if it had
/// one before or the sequence holds a deposit for it that carries an amount.
pub proof fn lemma_account_exists_iff_deposited(m: Accounts, ts: Seq<Transaction>, client: u16)
    ensures
        route_all(m, ts).contains_key(client) <==> m.contains_key(client) || has_deposit_for(
            ts,
            client,
        ),
    decreases ts.len(),
{
    if ts.len() > 0 {
        let front = ts.drop_last();
        lemma_account_exists_iff_deposited(m, front, client);
        if has_deposit_for(front, client) {
            let i = choose|i: int|
                0 <= i < front.len() && (#[trigger] front[i]).client == client && front[i].tx_type
                    == TransactionType::Deposit && front[i].amount != 0;
            assert(ts[i] == front[i]);
        }
        if has_deposit_for(ts, client) {
            let i = choose|i: int|
                0 <= i < ts.len() && (#[trigger] ts[i]).client == client && ts[i].tx_type
                    == TransactionType::Deposit && ts[i].amount != 0;
            if i < front.len() {
                assert(front[i] == ts[i]);
            }
        }
        if ts.last().client == client && ts.last().tx_type == TransactionType::Deposit
            && ts.last().amount != 0 {
            assert(ts[ts.len() - 1] == ts.last());
        }
    }
}

/// In a ledger that began empty, an account exists only where a deposit was
/// accepted: every account holds an accepted deposit, whatever came after.
pub proof fn lemma_every_account_holds_a_deposit(ts: Seq<Transaction>, client: u16)
    requires
        route_all(Map::<u16, AccountState>::empty(), ts).contains_key(client),
    ensures
        holds_a_deposit(route_all(Map::<u16, AccountState>::empty(), ts)[client]),
    decreases ts.len(),
{
    let start = Map::<u16, AccountState>::empty();
    if ts.len() > 0 {
        let before = route_all(start, ts.drop_last());
        let t = ts.last();
        let after = route(before, t);
        if before.contains_key(client) {
            lemma_every_account_holds_a_deposit(ts.drop_last(), client);
            let tx = choose|tx: u32| #[trigger]
                before[client].accepted.contains_key(tx) && before[client].accepted[tx].tx_type
                    == TransactionType::Deposit;
            if t.client == client {
                lemma_accepted_is_kept(before[client], t, tx);
            }
            assert(after[client].accepted.contains_key(tx));
        } else {
            lemma_opening_deposit_is_accepted(before, t);
            assert(after[client].accepted.contains_key(t.tx));
        }
    }
}

/// A snapshot has a row for a client only if the client has an account.
pub proof fn lemma_rows_are_of_accounts(m: Accounts, order: Seq<u16>, client: u16)
    requires
        enumerates(order, m),
    ensures
        order.contains(client) <==> m.contains_key(client),
{
    assert(order.to_set().contains(client) <==> order.contains(client));
}

/// A record touches the account of the client it names and no other, and no
/// account is ever removed.
pub proof fn lemma_route_is_local(m: Accounts, t: Transaction, other: u16)
    ensures
        m.contains_key(other) ==> route(m, t).contains_key(other),
        other != t.client ==> route(m, t).contains_key(other) == m.contains_key(other),
        other != t.client && m.contains_key(other) ==> route(m, t)[other] == m[other],
{
}

/// A dispute of an id whose accepted record is no deposit, such as a
/// withdrawal, changes nothing.
pub proof fn lemma_dispute_of_withdrawal_is_ignored(s: AccountState, dis: Transaction)
    requires
        dis.tx_type == TransactionType::Dispute,
        s.accepted.contains_key(dis.tx),
        s.accepted[dis.tx].tx_type == TransactionType::Withdrawal,
    ensures
        apply(s, dis) == s,
{
}

/// A withdrawal that is taken cannot be disputed afterwards.
pub proof fn lemma_withdrawal_then_dispute(s: AccountState, w: Transaction, dis: Transaction)
    requires
        w.tx_type == TransactionType::Withdrawal,
        dis.tx_type == TransactionType::Dispute,
        dis.tx == w.tx,
        takes(s, w),
    ensures
        apply(apply(s, w), dis) == apply(s, w),
{
}

/// Resolve is idempotent: the second of two resolves of one id finds no open
/// dispute and changes nothing.
pub proof fn lemma_resolve_is_idempotent(s: AccountState, first: Transaction, second: Transaction)
    requires
        first.tx_type == TransactionType::Resolve,
        second.tx_type == TransactionType::Resolve,
        second.tx == first.tx,
    ensures
        apply(apply(s, first), second) == apply(s, first),
{
}

} // verus!

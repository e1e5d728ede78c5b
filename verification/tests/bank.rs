use ledger::{Bank, Outcome, Rejection, Transaction, TransactionType};

const HEADER: &str = "client, available, held, total, locked\n";

fn record(tx_type: TransactionType, client: u16, tx: u32, amount: u64) -> Transaction {
    Transaction { tx_type, client, tx, amount }
}

fn deposit(client: u16, tx: u32, amount: u64) -> Transaction {
    record(TransactionType::Deposit, client, tx, amount)
}

fn withdrawal(client: u16, tx: u32, amount: u64) -> Transaction {
    record(TransactionType::Withdrawal, client, tx, amount)
}

fn dispute(client: u16, tx: u32) -> Transaction {
    record(TransactionType::Dispute, client, tx, 0)
}

fn resolve(client: u16, tx: u32) -> Transaction {
    record(TransactionType::Resolve, client, tx, 0)
}

fn chargeback(client: u16, tx: u32) -> Transaction {
    record(TransactionType::Chargeback, client, tx, 0)
}

fn state(bank: &Bank, client: u16) -> Option<(i128, i128, i128, bool)> {
    bank.get(client).map(|c| (c.available(), c.held(), c.total(), c.locked()))
}

fn sorted_lines(text: &str) -> Vec<String> {
    let mut lines: Vec<String> = text.lines().skip(1).map(|l| l.to_string()).collect();
    lines.sort();
    lines
}

#[test]
fn new_bank_has_no_accounts() {
    let bank = Bank::new();
    assert_eq!(bank.len(), 0);
    assert!(bank.get(1).is_none());
    assert_eq!(bank.to_string(), HEADER);
}

#[test]
fn add_client_opens_an_empty_account_once() {
    let mut bank = Bank::new();
    bank.add_client(3);
    assert_eq!(bank.len(), 1);
    assert_eq!(state(&bank, 3), Some((0, 0, 0, false)));
    assert_eq!(bank.get(3).unwrap().client(), 3);
    bank.insert_txn(deposit(3, 1, 50_000));
    bank.add_client(3);
    assert_eq!(bank.len(), 1);
    assert_eq!(state(&bank, 3), Some((50_000, 0, 50_000, false)));
}

#[test]
fn first_deposit_opens_the_account() {
    let mut bank = Bank::new();
    bank.insert_txn(deposit(1, 1, 100_000));
    assert_eq!(bank.len(), 1);
    assert_eq!(state(&bank, 1), Some((100_000, 0, 100_000, false)));
    assert_eq!(bank.to_string(), "client, available, held, total, locked\n1, 10.0000, 0.0000, 10.0000, false\n");
}

#[test]
fn withdrawal_without_prior_deposit_opens_no_account() {
    let mut bank = Bank::new();
    bank.insert_txn(withdrawal(1, 1, 50_000));
    assert_eq!(bank.len(), 0);
    assert!(bank.get(1).is_none());
    assert_eq!(bank.to_string(), HEADER);
    bank.insert_txn(dispute(1, 1));
    bank.insert_txn(resolve(1, 1));
    bank.insert_txn(chargeback(1, 1));
    assert_eq!(bank.len(), 0);
    assert_eq!(bank.to_string(), HEADER);
    bank.insert_txn(deposit(2, 2, 10_000));
    assert!(bank.get(1).is_none());
    assert!(!bank.to_string().contains("\n1, "));
}

#[test]
fn zero_deposit_opens_no_account() {
    let mut bank = Bank::new();
    bank.insert_txn(deposit(1, 1, 0));
    assert_eq!(bank.len(), 0);
    assert!(bank.get(1).is_none());
    assert_eq!(bank.to_string(), HEADER);

    assert_eq!(bank.try_insert_txn(deposit(4, 1, 0)), Outcome::Rejected(Rejection::ZeroAmount));
    assert_eq!(bank.len(), 0);
    assert_eq!(state(&bank, 4), None);
    assert_eq!(bank.to_string(), HEADER);
    assert_eq!(bank.try_insert_txn(withdrawal(4, 2, 15_000)), Outcome::Rejected(Rejection::NoAccount));
    assert_eq!(bank.len(), 0);
    assert_eq!(bank.to_string(), HEADER);
    assert_eq!(bank.try_insert_txn(deposit(4, 1, 20_000)), Outcome::Applied);
    assert_eq!(state(&bank, 4), Some((20_000, 0, 20_000, false)));
    assert_eq!(bank.try_insert_txn(deposit(4, 3, 0)), Outcome::Rejected(Rejection::ZeroAmount));
    assert_eq!(bank.try_insert_txn(withdrawal(4, 2, 15_000)), Outcome::Applied);
    assert_eq!(state(&bank, 4), Some((5_000, 0, 5_000, false)));
    assert_eq!(bank.to_string(), "client, available, held, total, locked\n4, 0.5000, 0.0000, 0.5000, false\n");
}

#[test]
fn rejected_records_leave_the_ledger_as_it_was() {
    let mut bank = Bank::new();
    bank.insert_txn(deposit(1, 1, 100_000));
    bank.insert_txn(withdrawal(1, 2, 40_000));
    let before = bank.to_string();
    let rejected = [
        deposit(1, 1, 5),
        deposit(1, 3, 0),
        withdrawal(1, 2, 5),
        withdrawal(1, 3, 0),
        dispute(1, 2),
        dispute(1, 9),
        resolve(1, 1),
        chargeback(1, 1),
        deposit(2, 4, 0),
        withdrawal(2, 4, 5),
        dispute(2, 1),
        resolve(2, 1),
        chargeback(2, 1),
    ];
    for t in rejected {
        assert!(matches!(bank.try_insert_txn(t), Outcome::Rejected(_)));
        assert_eq!(bank.len(), 1);
        assert_eq!(bank.to_string(), before);
    }
    assert_eq!(state(&bank, 1), Some((60_000, 0, 60_000, false)));
}

#[test]
fn deposit_dispute_resolve_round_trip() {
    let mut bank = Bank::new();
    bank.insert_txn(deposit(1, 1, 100_000));
    assert_eq!(state(&bank, 1), Some((100_000, 0, 100_000, false)));
    bank.insert_txn(dispute(1, 1));
    assert_eq!(state(&bank, 1), Some((0, 100_000, 100_000, false)));
    bank.insert_txn(resolve(1, 1));
    assert_eq!(state(&bank, 1), Some((100_000, 0, 100_000, false)));
    bank.insert_txn(resolve(1, 1));
    assert_eq!(state(&bank, 1), Some((100_000, 0, 100_000, false)));
}

#[test]
fn deposit_dispute_chargeback_locks() {
    let mut bank = Bank::new();
    bank.insert_txn(deposit(1, 1, 100_000));
    bank.insert_txn(dispute(1, 1));
    bank.insert_txn(chargeback(1, 1));
    assert_eq!(state(&bank, 1), Some((0, 0, 0, true)));
    bank.insert_txn(deposit(1, 2, 50_000));
    assert_eq!(state(&bank, 1), Some((0, 0, 0, true)));
    assert_eq!(bank.to_string(), "client, available, held, total, locked\n1, 0.0000, 0.0000, 0.0000, true\n");
}

#[test]
fn duplicate_deposit_counts_once() {
    let mut bank = Bank::new();
    bank.insert_txn(deposit(1, 1, 100_000));
    bank.insert_txn(deposit(1, 1, 100_000));
    assert_eq!(state(&bank, 1), Some((100_000, 0, 100_000, false)));
    bank.insert_txn(deposit(1, 1, 30_000));
    assert_eq!(state(&bank, 1), Some((100_000, 0, 100_000, false)));
}

#[test]
fn same_id_under_two_clients_is_two_records() {
    let mut bank = Bank::new();
    bank.insert_txn(deposit(1, 1, 100_000));
    bank.insert_txn(deposit(2, 1, 30_000));
    assert_eq!(state(&bank, 1), Some((100_000, 0, 100_000, false)));
    assert_eq!(state(&bank, 2), Some((30_000, 0, 30_000, false)));
}

#[test]
fn dispute_of_withdrawal_changes_nothing() {
    let mut bank = Bank::new();
    bank.insert_txn(deposit(1, 1, 100_000));
    bank.insert_txn(withdrawal(1, 2, 40_000));
    bank.insert_txn(dispute(1, 2));
    assert_eq!(state(&bank, 1), Some((60_000, 0, 60_000, false)));
}

#[test]
fn records_touch_only_their_own_client() {
    let mut bank = Bank::new();
    bank.insert_txn(deposit(1, 1, 100_000));
    bank.insert_txn(deposit(2, 2, 20_000));
    bank.insert_txn(dispute(2, 1));
    assert_eq!(state(&bank, 1), Some((100_000, 0, 100_000, false)));
    assert_eq!(state(&bank, 2), Some((20_000, 0, 20_000, false)));
    bank.insert_txn(dispute(1, 1));
    bank.insert_txn(chargeback(1, 1));
    bank.insert_txn(withdrawal(2, 3, 5_000));
    assert_eq!(state(&bank, 1), Some((0, 0, 0, true)));
    assert_eq!(state(&bank, 2), Some((15_000, 0, 15_000, false)));
    assert_eq!(bank.len(), 2);
}

#[test]
fn snapshot_has_one_row_per_client() {
    let mut bank = Bank::new();
    bank.insert_txn(deposit(1, 1, 10_000));
    bank.insert_txn(deposit(2, 2, 20_000));
    bank.insert_txn(deposit(1, 3, 20_000));
    bank.insert_txn(withdrawal(1, 4, 15_000));
    bank.insert_txn(withdrawal(2, 5, 30_000));
    bank.insert_txn(deposit(300, 6, 12_345));
    bank.insert_txn(dispute(300, 6));
    bank.insert_txn(withdrawal(7, 8, 1));
    let text = bank.to_string();
    assert!(text.starts_with(HEADER));
    assert!(text.ends_with('\n'));
    assert_eq!(text.lines().count(), 4);
    assert_eq!(
        sorted_lines(&text),
        vec![
            "1, 1.5000, 0.0000, 1.5000, false".to_string(),
            "2, -1.0000, 0.0000, -1.0000, false".to_string(),
            "300, 0.0000, 1.2345, 1.2345, false".to_string(),
        ]
    );
    for line in text.lines().skip(1) {
        let id: u16 = line.split(", ").next().unwrap().parse().unwrap();
        assert_eq!(bank.get(id).unwrap().to_string(), line);
    }
}

#[test]
fn ledger_verdicts() {
    let mut bank = Bank::new();
    assert_eq!(bank.verdict(withdrawal(1, 1, 5)), Outcome::Rejected(Rejection::NoAccount));
    assert_eq!(bank.verdict(dispute(1, 1)), Outcome::Rejected(Rejection::NoAccount));
    assert_eq!(bank.verdict(resolve(1, 1)), Outcome::Rejected(Rejection::NoAccount));
    assert_eq!(bank.verdict(chargeback(1, 1)), Outcome::Rejected(Rejection::NoAccount));
    assert_eq!(bank.verdict(deposit(1, 1, 5)), Outcome::Applied);
    assert_eq!(bank.verdict(deposit(1, 1, 0)), Outcome::Rejected(Rejection::ZeroAmount));
    assert_eq!(bank.try_insert_txn(deposit(1, 1, 0)), Outcome::Rejected(Rejection::ZeroAmount));
    assert_eq!(bank.len(), 0);
    assert_eq!(bank.try_insert_txn(withdrawal(1, 1, 5)), Outcome::Rejected(Rejection::NoAccount));
    assert_eq!(bank.len(), 0);
    assert_eq!(bank.try_insert_txn(deposit(1, 1, 5)), Outcome::Applied);
    assert_eq!(bank.try_insert_txn(deposit(1, 1, 5)), Outcome::Rejected(Rejection::Duplicate));
    assert_eq!(bank.try_insert_txn(dispute(1, 2)), Outcome::Rejected(Rejection::UnknownTransaction));
    assert_eq!(bank.try_insert_txn(withdrawal(1, 2, 1)), Outcome::Applied);
    assert_eq!(bank.try_insert_txn(dispute(1, 2)), Outcome::Rejected(Rejection::NotDisputable));
    assert_eq!(bank.try_insert_txn(chargeback(1, 1)), Outcome::Rejected(Rejection::NotDisputed));
    assert_eq!(bank.try_insert_txn(dispute(1, 1)), Outcome::Applied);
    assert_eq!(bank.try_insert_txn(chargeback(1, 1)), Outcome::Applied);
    assert_eq!(bank.try_insert_txn(deposit(1, 9, 5)), Outcome::Rejected(Rejection::Frozen));
    assert_eq!(state(&bank, 1), Some((-1, 0, -1, true)));
}

#[test]
fn admits_every_ordinary_record() {
    let mut bank = Bank::new();
    let records = [
        withdrawal(1, 1, u64::MAX),
        deposit(1, 2, u64::MAX),
        deposit(1, 3, u64::MAX),
        withdrawal(1, 4, u64::MAX),
        dispute(1, 2),
        dispute(1, 2),
        resolve(1, 2),
        chargeback(1, 2),
        deposit(2, 5, 1),
    ];
    for t in records {
        assert!(bank.admits(t));
        bank.insert_txn(t);
    }
    let m = u64::MAX as i128;
    assert_eq!(state(&bank, 1), Some((0, m, m, false)));
    assert_eq!(state(&bank, 2), Some((1, 0, 1, false)));
}

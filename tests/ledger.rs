use payments_engine::models::amount_from_decimal;
use payments_engine::report::format_amount;
use payments_engine::{Account, AccountRow, Engine, Transaction, TxType};

fn deposit(client: u16, tx: u32, amount: i128) -> Transaction {
    Transaction { kind: TxType::Deposit, client, tx, amount: Some(amount) }
}

fn withdrawal(client: u16, tx: u32, amount: i128) -> Transaction {
    Transaction { kind: TxType::Withdrawal, client, tx, amount: Some(amount) }
}

fn refer(kind: TxType, client: u16, tx: u32) -> Transaction {
    Transaction { kind, client, tx, amount: None }
}

fn run(txs: &[Transaction]) -> Engine {
    let mut eng = Engine::new();
    for t in txs {
        eng.process(*t);
    }
    eng
}

fn acc(available: i128, held: i128, locked: bool) -> Account {
    Account { available, held, locked }
}

#[test]
fn deposit_then_partial_withdrawal() {
    let eng = run(&[deposit(1, 1, 20000), withdrawal(1, 2, 15000)]);
    let a = eng.account(1).unwrap();
    assert_eq!(a, acc(5000, 0, false));
    let row = AccountRow::from_account(1, &a);
    assert_eq!(row.available, "0.5000");
    assert_eq!(row.held, "0.0000");
    assert_eq!(row.total, "0.5000");
    assert!(!row.locked);
}

#[test]
fn chargeback_locks_and_ignores_later_deposit() {
    let eng = run(&[
        deposit(1, 1, 30000),
        refer(TxType::Dispute, 1, 1),
        refer(TxType::Chargeback, 1, 1),
        deposit(1, 2, 10000),
    ]);
    let a = eng.account(1).unwrap();
    assert_eq!(a, acc(0, 0, true));
    assert_eq!(a.total(), 0);
    let row = AccountRow::from_account(1, &a);
    assert_eq!(row.available, "0.0000");
    assert_eq!(row.total, "0.0000");
    assert!(row.locked);
}

#[test]
fn duplicate_dispute_is_ignored() {
    let eng = run(&[
        deposit(1, 10, 50000),
        refer(TxType::Dispute, 1, 10),
        refer(TxType::Dispute, 1, 10),
    ]);
    let a = eng.account(1).unwrap();
    assert_eq!(a, acc(0, 50000, false));
    let row = AccountRow::from_account(1, &a);
    assert_eq!(row.available, "0.0000");
    assert_eq!(row.held, "5.0000");
}

#[test]
fn rejected_amounts_create_no_account() {
    let eng = run(&[deposit(1, 20, 0), withdrawal(1, 21, -10000)]);
    assert!(eng.account(1).is_none());
    assert!(eng.accounts.is_empty());
}

#[test]
fn resolve_then_full_withdrawal() {
    let eng = run(&[
        deposit(2, 30, 100000),
        refer(TxType::Dispute, 2, 30),
        refer(TxType::Resolve, 2, 30),
        withdrawal(2, 31, 100000),
    ]);
    assert_eq!(eng.account(2).unwrap(), acc(0, 0, false));
}

#[test]
fn total_is_available_plus_held() {
    let eng = run(&[
        deposit(1, 1, 12345),
        deposit(1, 2, 5000),
        refer(TxType::Dispute, 1, 2),
        withdrawal(1, 3, 2345),
    ]);
    let a = eng.account(1).unwrap();
    assert_eq!(a, acc(10000, 5000, false));
    assert_eq!(a.total(), a.available + a.held);
    assert_eq!(a.total(), 15000);
}

#[test]
fn locked_account_rejects_everything() {
    let mut eng = run(&[
        deposit(1, 1, 30000),
        deposit(1, 2, 20000),
        refer(TxType::Dispute, 1, 1),
        refer(TxType::Dispute, 1, 2),
        refer(TxType::Chargeback, 1, 1),
    ]);
    let before = eng.account(1).unwrap();
    assert_eq!(before, acc(0, 20000, true));
    for t in [
        deposit(1, 3, 10000),
        withdrawal(1, 4, 1),
        refer(TxType::Resolve, 1, 2),
        refer(TxType::Chargeback, 1, 2),
        refer(TxType::Dispute, 1, 1),
    ] {
        eng.process(t);
        assert_eq!(eng.account(1).unwrap(), before);
    }
}

#[test]
fn same_deposit_twice_counts_once() {
    let eng = run(&[deposit(1, 7, 10000), deposit(1, 7, 10000)]);
    assert_eq!(eng.account(1).unwrap(), acc(10000, 0, false));
}

#[test]
fn deposit_id_is_global_across_clients() {
    let eng = run(&[deposit(1, 7, 10000), deposit(2, 7, 10000)]);
    assert_eq!(eng.account(1).unwrap(), acc(10000, 0, false));
    assert!(eng.account(2).is_none());
}

#[test]
fn dispute_of_unknown_tx_is_noop() {
    let eng = run(&[deposit(1, 1, 10000), refer(TxType::Dispute, 1, 99)]);
    assert_eq!(eng.account(1).unwrap(), acc(10000, 0, false));
}

#[test]
fn dispute_by_other_client_is_noop() {
    let eng = run(&[
        deposit(1, 1, 10000),
        deposit(2, 2, 10000),
        refer(TxType::Dispute, 2, 1),
    ]);
    assert_eq!(eng.account(1).unwrap(), acc(10000, 0, false));
    assert_eq!(eng.account(2).unwrap(), acc(10000, 0, false));
}

#[test]
fn settle_without_dispute_is_noop() {
    let eng = run(&[
        deposit(1, 1, 10000),
        refer(TxType::Resolve, 1, 1),
        refer(TxType::Chargeback, 1, 1),
        refer(TxType::Resolve, 1, 2),
    ]);
    assert_eq!(eng.account(1).unwrap(), acc(10000, 0, false));
}

#[test]
fn resolve_replayed_is_noop() {
    let eng = run(&[
        deposit(1, 1, 10000),
        refer(TxType::Dispute, 1, 1),
        refer(TxType::Resolve, 1, 1),
        refer(TxType::Resolve, 1, 1),
        refer(TxType::Chargeback, 1, 1),
    ]);
    assert_eq!(eng.account(1).unwrap(), acc(10000, 0, false));
}

#[test]
fn overdraft_is_noop() {
    let eng = run(&[deposit(1, 1, 10000), withdrawal(1, 2, 10001)]);
    assert_eq!(eng.account(1).unwrap(), acc(10000, 0, false));
}

#[test]
fn withdrawal_without_account_is_noop() {
    let eng = run(&[withdrawal(3, 1, 10000)]);
    assert!(eng.account(3).is_none());
}

#[test]
fn dispute_after_spending_goes_negative() {
    let eng = run(&[
        deposit(1, 1, 10000),
        withdrawal(1, 2, 8000),
        refer(TxType::Dispute, 1, 1),
    ]);
    let a = eng.account(1).unwrap();
    assert_eq!(a, acc(-8000, 10000, false));
    let row = AccountRow::from_account(1, &a);
    assert_eq!(row.available, "-0.8000");
    assert_eq!(row.held, "1.0000");
    assert_eq!(row.total, "0.2000");
}

#[test]
fn missing_amount_is_ignored() {
    let eng = run(&[
        Transaction { kind: TxType::Deposit, client: 1, tx: 1, amount: None },
        deposit(1, 2, 10000),
        Transaction { kind: TxType::Withdrawal, client: 1, tx: 3, amount: None },
    ]);
    assert_eq!(eng.account(1).unwrap(), acc(10000, 0, false));
}

#[test]
fn amount_on_dispute_is_not_read() {
    let eng = run(&[
        deposit(1, 1, 10000),
        Transaction { kind: TxType::Dispute, client: 1, tx: 1, amount: Some(-5) },
    ]);
    assert_eq!(eng.account(1).unwrap(), acc(0, 10000, false));
}

#[test]
fn deposit_overflow_is_dropped() {
    let eng = run(&[deposit(1, 1, i128::MAX), deposit(1, 2, 1)]);
    assert_eq!(eng.account(1).unwrap(), acc(i128::MAX, 0, false));
}

#[test]
fn decimal_to_amount() {
    assert_eq!(amount_from_decimal(15, 1), Some(15000));
    assert_eq!(amount_from_decimal(2, 0), Some(20000));
    assert_eq!(amount_from_decimal(-12345, 4), Some(-12345));
    assert_eq!(amount_from_decimal(123, 2), Some(12300));
    assert_eq!(amount_from_decimal(100005, 5), None);
    assert_eq!(amount_from_decimal(i128::MAX, 0), None);
}

#[test]
fn amounts_are_written_with_four_places() {
    assert_eq!(format_amount(0), "0.0000");
    assert_eq!(format_amount(5000), "0.5000");
    assert_eq!(format_amount(120500), "12.0500");
    assert_eq!(format_amount(-1), "-0.0001");
    assert_eq!(format_amount(1234567891), "123456.7891");
    assert_eq!(format_amount(i128::MIN), "-17014118346046923173168730371588410.5728");
}

#[test]
fn reused_deposit_id_later_is_ignored() {
    let eng = run(&[
        deposit(1, 5, 10000),
        withdrawal(1, 6, 4000),
        refer(TxType::Dispute, 1, 5),
        refer(TxType::Resolve, 1, 5),
        deposit(1, 5, 70000),
    ]);
    assert_eq!(eng.account(1).unwrap(), acc(6000, 0, false));
    assert_eq!(eng.deposits.len(), 1);
}

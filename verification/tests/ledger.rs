use wallet_backend::domain::{AccountId, AmountMinor, Currency, EntryDirection};
use wallet_backend::error::AppError;
use wallet_backend::ledger::{
    post_hold_authorize, post_hold_cancel, post_hold_capture, post_refund, post_topup, post_transfer, BalanceRow,
    BalanceTable,
};

const SYSTEM: i64 = 1;
const ALICE: i64 = 10;
const BOB: i64 = 11;

fn row(account: i64, currency: &str, available: i64, hold: i64) -> BalanceRow {
    BalanceRow {
        account_id: AccountId::new(account),
        currency: Currency::parse(currency).unwrap(),
        available_minor: available,
        hold_minor: hold,
    }
}

fn table(alice: i64, bob: i64) -> BalanceTable {
    BalanceTable { rows: vec![row(SYSTEM, "UZS", 0, 0), row(ALICE, "UZS", alice, 0), row(BOB, "UZS", bob, 0)] }
}

fn amounts(t: &BalanceTable, account: i64) -> (i64, i64) {
    for r in &t.rows {
        if r.account_id == AccountId::new(account) {
            return (r.available_minor, r.hold_minor);
        }
    }
    panic!("no row for {account}")
}

fn uzs() -> Currency {
    Currency::parse("UZS").unwrap()
}

fn amt(v: u64) -> AmountMinor {
    AmountMinor::new(v).unwrap()
}

fn currency_sum(t: &BalanceTable) -> i64 {
    t.rows.iter().map(|r| r.available_minor + r.hold_minor).sum()
}

#[test]
fn topup_updates_balance() {
    let mut t = table(0, 0);
    let entries = post_topup(&mut t, AccountId::new(SYSTEM), AccountId::new(ALICE), &uzs(), amt(100_000)).unwrap();
    assert_eq!(amounts(&t, ALICE), (100_000, 0));
    assert_eq!(amounts(&t, SYSTEM), (-100_000, 0));
    assert_eq!(entries[0].account_id, AccountId::new(SYSTEM));
    assert_eq!(entries[0].direction, EntryDirection::Debit);
    assert_eq!(entries[1].account_id, AccountId::new(ALICE));
    assert_eq!(entries[1].direction, EntryDirection::Credit);
    assert_eq!(currency_sum(&t), 0);
}

#[test]
fn topup_without_projection_row_is_internal_error() {
    let mut t = BalanceTable { rows: vec![row(SYSTEM, "UZS", 0, 0)] };
    match post_topup(&mut t, AccountId::new(SYSTEM), AccountId::new(ALICE), &uzs(), amt(5)) {
        Err(AppError::Internal(m)) => assert_eq!(m, "projection row missing"),
        other => panic!("unexpected {:?}", other),
    }
}

#[test]
fn transfer_moves_funds() {
    let mut t = table(50_000, 0);
    post_transfer(&mut t, AccountId::new(ALICE), AccountId::new(BOB), &uzs(), amt(20_000)).unwrap();
    assert_eq!(amounts(&t, ALICE), (30_000, 0));
    assert_eq!(amounts(&t, BOB), (20_000, 0));
    assert_eq!(currency_sum(&t), 50_000);
}

#[test]
fn transfer_rejects_insufficient_funds() {
    let mut t = table(10_000, 0);
    match post_transfer(&mut t, AccountId::new(ALICE), AccountId::new(BOB), &uzs(), amt(20_000)) {
        Err(AppError::Conflict(m)) => assert_eq!(m, "insufficient funds"),
        other => panic!("unexpected {:?}", other),
    }
    assert_eq!(amounts(&t, ALICE), (10_000, 0));
    assert_eq!(amounts(&t, BOB), (0, 0));
}

#[test]
fn transfer_in_other_currency_is_refused() {
    let mut t = table(10_000, 0);
    let usd = Currency::parse("USD").unwrap();
    assert!(matches!(
        post_transfer(&mut t, AccountId::new(ALICE), AccountId::new(BOB), &usd, amt(1)),
        Err(AppError::Conflict("insufficient funds"))
    ));
}

#[test]
fn hold_capture_refund_flow_updates_available_and_hold() {
    let mut t = table(100_000, 0);
    post_hold_authorize(&mut t, AccountId::new(ALICE), &uzs(), amt(30_000)).unwrap();
    assert_eq!(amounts(&t, ALICE), (70_000, 30_000));
    let entries = post_hold_capture(&mut t, AccountId::new(ALICE), AccountId::new(SYSTEM), &uzs(), amt(30_000)).unwrap();
    assert_eq!(amounts(&t, ALICE), (70_000, 0));
    assert_eq!(amounts(&t, SYSTEM), (30_000, 0));
    assert_eq!(entries[0].account_id, AccountId::new(ALICE));
    assert_eq!(entries[0].direction, EntryDirection::Debit);
    post_refund(&mut t, AccountId::new(SYSTEM), AccountId::new(ALICE), &uzs(), amt(30_000)).unwrap();
    assert_eq!(amounts(&t, ALICE), (100_000, 0));
    assert_eq!(amounts(&t, SYSTEM), (0, 0));
}

#[test]
fn hold_can_be_canceled_without_posting_entries() {
    let mut t = table(50_000, 0);
    post_hold_authorize(&mut t, AccountId::new(ALICE), &uzs(), amt(10_000)).unwrap();
    assert_eq!(amounts(&t, ALICE), (40_000, 10_000));
    post_hold_cancel(&mut t, AccountId::new(ALICE), &uzs(), amt(10_000)).unwrap();
    assert_eq!(amounts(&t, ALICE), (50_000, 0));
}

#[test]
fn hold_beyond_available_is_refused_and_changes_nothing() {
    let mut t = table(5_000, 0);
    assert!(matches!(
        post_hold_authorize(&mut t, AccountId::new(ALICE), &uzs(), amt(5_001)),
        Err(AppError::Conflict("insufficient funds"))
    ));
    assert_eq!(amounts(&t, ALICE), (5_000, 0));
}

#[test]
fn release_or_capture_beyond_hold_is_refused() {
    let mut t = table(5_000, 0);
    post_hold_authorize(&mut t, AccountId::new(ALICE), &uzs(), amt(1_000)).unwrap();
    assert!(matches!(
        post_hold_cancel(&mut t, AccountId::new(ALICE), &uzs(), amt(1_001)),
        Err(AppError::Conflict("hold is smaller than amount"))
    ));
    assert!(matches!(
        post_hold_capture(&mut t, AccountId::new(ALICE), AccountId::new(SYSTEM), &uzs(), amt(1_001)),
        Err(AppError::Conflict("hold is smaller than amount"))
    ));
    assert_eq!(amounts(&t, ALICE), (4_000, 1_000));
}

#[test]
fn credit_overflow_is_an_internal_error() {
    let mut t = table(0, i64::MAX);
    let mut t2 = BalanceTable { rows: vec![row(SYSTEM, "UZS", 0, 0), row(BOB, "UZS", i64::MAX, 0)] };
    assert!(matches!(
        post_topup(&mut t2, AccountId::new(SYSTEM), AccountId::new(BOB), &uzs(), amt(1)),
        Err(AppError::Internal("balance overflow"))
    ));
    assert_eq!(amounts(&t, BOB), (i64::MAX, 0));
}

#[test]
fn find_row_finds_first_match() {
    let t = table(1, 2);
    assert_eq!(t.find_row(AccountId::new(BOB), &uzs()), Some(2));
    assert_eq!(t.find_row(AccountId::new(99), &uzs()), None);
}

#[test]
fn total_is_kept_by_every_posting() {
    let mut t = table(0, 0);
    let before = currency_sum(&t);
    post_topup(&mut t, AccountId::new(SYSTEM), AccountId::new(ALICE), &uzs(), amt(900)).unwrap();
    post_transfer(&mut t, AccountId::new(ALICE), AccountId::new(BOB), &uzs(), amt(300)).unwrap();
    post_hold_authorize(&mut t, AccountId::new(BOB), &uzs(), amt(100)).unwrap();
    post_hold_capture(&mut t, AccountId::new(BOB), AccountId::new(SYSTEM), &uzs(), amt(100)).unwrap();
    assert_eq!(currency_sum(&t), before);
    assert_eq!(amounts(&t, ALICE), (600, 0));
    assert_eq!(amounts(&t, BOB), (200, 0));
}

#[test]
fn failed_posting_leaves_every_row_as_it_was() {
    // The receiver has no row: the sender's debit is given back.
    let mut t = BalanceTable { rows: vec![row(ALICE, "UZS", 50_000, 0)] };
    assert!(matches!(
        post_transfer(&mut t, AccountId::new(ALICE), AccountId::new(BOB), &uzs(), amt(20_000)),
        Err(AppError::Internal("projection row missing"))
    ));
    assert_eq!(amounts(&t, ALICE), (50_000, 0));

    // The user's credit would overflow: the system debit is given back.
    let mut t = BalanceTable { rows: vec![row(SYSTEM, "UZS", 7, 0), row(BOB, "UZS", i64::MAX, 0)] };
    assert!(post_topup(&mut t, AccountId::new(SYSTEM), AccountId::new(BOB), &uzs(), amt(1)).is_err());
    assert_eq!(amounts(&t, SYSTEM), (7, 0));
    assert_eq!(amounts(&t, BOB), (i64::MAX, 0));

    // The system cash row is missing: the user's spent hold is given back.
    let mut t = BalanceTable { rows: vec![row(ALICE, "UZS", 0, 300)] };
    assert!(post_hold_capture(&mut t, AccountId::new(ALICE), AccountId::new(SYSTEM), &uzs(), amt(300)).is_err());
    assert_eq!(amounts(&t, ALICE), (0, 300));
}

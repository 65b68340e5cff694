use wallet_backend::domain::{AccountId, AmountMinor, Currency, EntryDirection, IdempotencyKey, TxId, TxState, TxType};
use wallet_backend::error::AppError;
use wallet_backend::events::EventValue;
use wallet_backend::flow::SettleTarget;
use wallet_backend::ledger::{BalanceRow, BalanceTable};
use wallet_backend::models::PostOpResponse;
use wallet_backend::posting::{
    HoldAuthorizeFlow, HoldCancelFlow, HoldCaptureFlow, IdempotencyOutcome, RefundFlow, TopupFlow, TransferFlow,
};

const TX: &str = "67e55044-10b1-426f-9247-bb680e5fe0c8";
const TX2: &str = "11111111-2222-4333-8444-555555555555";

fn uzs() -> Currency {
    Currency::parse("UZS").unwrap()
}

fn row(account: i64, available: i64, hold: i64) -> BalanceRow {
    BalanceRow { account_id: AccountId::new(account), currency: uzs(), available_minor: available, hold_minor: hold }
}

fn key(k: &str) -> IdempotencyKey {
    IdempotencyKey::parse(k).unwrap()
}

fn tx(s: &str) -> TxId {
    TxId::parse(s).unwrap()
}

fn amt(v: u64) -> AmountMinor {
    AmountMinor::new(v).unwrap()
}

#[test]
fn topup_flow_runs_through_its_states() {
    let f = TopupFlow::start(AccountId::new(2), AccountId::new(1), &key("k1"), uzs(), amt(500), tx(TX), "t0".into());
    assert_eq!(f.user_account_id(), AccountId::new(2));
    let f = match f.check_idempotency(None, Some("active".into())).unwrap() {
        IdempotencyOutcome::Proceed(f) => f,
        IdempotencyOutcome::Existing(..) => panic!("nothing was stored"),
    };
    let row_to_insert = f.new_tx();
    assert_eq!(row_to_insert.tx_type, TxType::Topup);
    assert_eq!(row_to_insert.state, TxState::Posted);
    assert_eq!(row_to_insert.idempotency_key.as_str(), "k1");
    assert_eq!(row_to_insert.created_at, "t0");
    assert!(row_to_insert.metadata_json.is_none());
    let f = f.insert_tx(Ok(())).unwrap();
    let mut table = BalanceTable { rows: vec![row(1, 0, 0), row(2, 0, 0)] };
    let (f, entries) = f.apply(&mut table).unwrap();
    assert_eq!(entries[0].account_id, AccountId::new(1));
    assert_eq!(entries[0].direction, EntryDirection::Debit);
    assert_eq!(table.rows[1].available_minor, 500);
    assert_eq!(table.rows[0].available_minor, -500);
    let (resp, id) = f.finish();
    assert_eq!(id, tx(TX));
    assert_eq!(resp.state, "posted");
    assert_eq!(resp.tx_id, TX);
}

#[test]
fn topup_flow_replays_stored_transaction() {
    let f = TopupFlow::start(AccountId::new(2), AccountId::new(1), &key("k1"), uzs(), amt(500), tx(TX2), "t0".into());
    let stored = PostOpResponse { tx_id: TX.into(), state: "posted".into(), currency: "UZS".into(), amount_minor: 500 };
    match f.check_idempotency(Some(stored), None).unwrap() {
        IdempotencyOutcome::Existing(resp, id) => {
            assert_eq!(id, tx(TX));
            assert_eq!(resp.amount_minor, 500);
        },
        IdempotencyOutcome::Proceed(_) => panic!("the stored transaction must be answered"),
    }
}

#[test]
fn transfer_flow_rejects_closed_account() {
    let f = TransferFlow::start(AccountId::new(2), AccountId::new(3), &key("k"), uzs(), amt(10_000), tx(TX), "t".into(), "{}".into());
    assert!(matches!(
        f.check_idempotency(None, Some("active".into()), Some("closed".into())),
        Err(AppError::AccountClosed)
    ));
    let f = TransferFlow::start(AccountId::new(2), AccountId::new(3), &key("k"), uzs(), amt(10_000), tx(TX), "t".into(), "{}".into());
    assert!(matches!(f.check_idempotency(None, None, Some("active".into())), Err(AppError::NotFound(_))));
}

#[test]
fn transfer_flow_posts_and_keeps_metadata() {
    let f = TransferFlow::start(AccountId::new(2), AccountId::new(3), &key("t-1"), uzs(), amt(20_000), tx(TX), "t".into(), "{\"a\":1}".into());
    assert_eq!(f.source_account_id(), AccountId::new(2));
    let f = match f.check_idempotency(None, Some("active".into()), Some("active".into())).unwrap() {
        IdempotencyOutcome::Proceed(f) => f,
        IdempotencyOutcome::Existing(..) => panic!("nothing was stored"),
    };
    assert_eq!(f.new_tx().metadata_json.as_deref(), Some("{\"a\":1}"));
    let f = f.insert_tx(Ok(())).unwrap();
    let mut table = BalanceTable { rows: vec![row(2, 50_000, 0), row(3, 0, 0)] };
    let (f, _) = f.apply(&mut table).unwrap();
    assert_eq!((table.rows[0].available_minor, table.rows[1].available_minor), (30_000, 20_000));
    assert_eq!(f.finish().0.amount_minor, 20_000);
}

#[test]
fn failed_insert_stops_the_flow() {
    let f = HoldAuthorizeFlow::start(AccountId::new(2), &key("h"), uzs(), amt(1), tx(TX), "t".into());
    let f = match f.check_idempotency(None, Some("active".into())).unwrap() {
        IdempotencyOutcome::Proceed(f) => f,
        IdempotencyOutcome::Existing(..) => panic!("nothing was stored"),
    };
    assert!(matches!(f.insert_tx(Err(AppError::Conflict("duplicate idempotency key"))), Err(AppError::Conflict(_))));
}

#[test]
fn hold_authorize_then_cancel() {
    let f = HoldAuthorizeFlow::start(AccountId::new(2), &key("h"), uzs(), amt(10_000), tx(TX), "t".into());
    let f = match f.check_idempotency(None, Some("active".into())).unwrap() {
        IdempotencyOutcome::Proceed(f) => f,
        IdempotencyOutcome::Existing(..) => panic!("nothing was stored"),
    };
    assert_eq!(f.new_tx().state, TxState::Authorized);
    let f = f.insert_tx(Ok(())).unwrap();
    let mut table = BalanceTable { rows: vec![row(2, 50_000, 0)] };
    let (resp, id) = f.apply(&mut table).unwrap().finish();
    assert_eq!(resp.state, "authorized");
    assert_eq!((table.rows[0].available_minor, table.rows[0].hold_minor), (40_000, 10_000));

    let target = SettleTarget { user_account_id: AccountId::new(2), currency: uzs(), amount: amt(10_000) };
    let c = HoldCancelFlow::start(&id, target, Some("active".into()), "t2".into()).unwrap();
    let (resp, _) = c.apply(true, &mut table).unwrap().finish();
    assert_eq!(resp.state, "reversed");
    assert_eq!((table.rows[0].available_minor, table.rows[0].hold_minor), (50_000, 0));
}

#[test]
fn concurrent_state_change_is_a_conflict() {
    let target = SettleTarget { user_account_id: AccountId::new(2), currency: uzs(), amount: amt(5) };
    let c = HoldCaptureFlow::start(&tx(TX), target, Some("active".into()), "t".into()).unwrap();
    let mut table = BalanceTable { rows: vec![row(1, 0, 0), row(2, 0, 5)] };
    assert!(matches!(c.apply(false, AccountId::new(1), &mut table), Err(AppError::Conflict("concurrent state change"))));
    assert_eq!(table.rows[1].hold_minor, 5);
}

#[test]
fn capture_then_refund_restores_balances() {
    let mut table = BalanceTable { rows: vec![row(1, 0, 0), row(2, 70_000, 30_000)] };
    let target = SettleTarget { user_account_id: AccountId::new(2), currency: uzs(), amount: amt(30_000) };
    let c = HoldCaptureFlow::start(&tx(TX), target, Some("active".into()), "t".into()).unwrap();
    let (c, entries) = c.apply(true, AccountId::new(1), &mut table).unwrap();
    assert_eq!(entries[1].account_id, AccountId::new(1));
    assert_eq!(c.finish().0.state, "posted");
    assert_eq!((table.rows[1].available_minor, table.rows[1].hold_minor), (70_000, 0));

    let target = SettleTarget { user_account_id: AccountId::new(2), currency: uzs(), amount: amt(30_000) };
    let r = RefundFlow::start(&tx(TX), target, Some("active".into()), "t3".into()).unwrap();
    let new_row = r.refund_tx(true, &tx(TX2)).unwrap();
    assert_eq!(new_row.id, tx(TX2));
    assert_eq!(new_row.tx_type, TxType::Refund);
    assert_eq!(new_row.idempotency_key.as_str(), format!("refund:{TX2}"));
    let meta: serde_json::Value = serde_json::from_str(new_row.metadata_json.as_deref().unwrap()).unwrap();
    assert_eq!(meta["original_tx_id"], TX);
    assert!(matches!(r.refund_tx(false, &tx(TX2)), Err(AppError::Conflict(_))));
    let (r, applied, _) = r.apply(true, tx(TX2), AccountId::new(1), &mut table).unwrap();
    let (resp, id) = r.finish(applied);
    assert_eq!(id, tx(TX2));
    assert_eq!(resp.original_tx_id, TX);
    assert_eq!(resp.state, "refunded");
    assert_eq!((table.rows[1].available_minor, table.rows[1].hold_minor), (100_000, 0));
    assert_eq!(table.rows[0].available_minor, 0);
}

#[test]
fn settle_needs_an_active_account() {
    let target = SettleTarget { user_account_id: AccountId::new(2), currency: uzs(), amount: amt(5) };
    assert!(matches!(HoldCaptureFlow::start(&tx(TX), target, Some("closed".into()), "t".into()), Err(AppError::AccountClosed)));
}

#[test]
fn postings_publish_their_events() {
    let f = TransferFlow::start(AccountId::new(2), AccountId::new(3), &key("t-2"), uzs(), amt(700), tx(TX), "t".into(), "{}".into());
    let f = match f.check_idempotency(None, Some("active".into()), Some("active".into())).unwrap() {
        IdempotencyOutcome::Proceed(f) => f,
        IdempotencyOutcome::Existing(..) => panic!("nothing was stored"),
    };
    let f = f.insert_tx(Ok(())).unwrap();
    let mut table = BalanceTable { rows: vec![row(2, 1_000, 0), row(3, 0, 0)] };
    let (f, _) = f.apply(&mut table).unwrap();
    let ev = f.posted_event();
    assert_eq!(ev.event_type, "tx.posted");
    assert_eq!(ev.aggregate_id, TX);
    assert_eq!(ev.tx_id, TX);
    assert_eq!(ev.tx_type, "transfer");
    assert_eq!(ev.state, "posted");
    assert_eq!(ev.currency, "UZS");
    assert_eq!(ev.amount_minor, 700);
    assert_eq!(ev.extra[0].0, "from_account_id");
    assert!(matches!(ev.extra[0].1, EventValue::Int(2)));
    assert_eq!(ev.extra[1].0, "to_account_id");
    assert!(matches!(ev.extra[1].1, EventValue::Int(3)));

    let mut table = BalanceTable { rows: vec![row(1, 0, 0), row(2, 0, 0)] };
    let target = SettleTarget { user_account_id: AccountId::new(2), currency: uzs(), amount: amt(40) };
    let r = RefundFlow::start(&tx(TX), target, Some("active".into()), "t".into()).unwrap();
    let (r, applied, _) = r.apply(true, tx(TX2), AccountId::new(1), &mut table).unwrap();
    let (refunded, posted) = r.events(&applied);
    assert_eq!((refunded.event_type.as_str(), refunded.tx_id.as_str(), refunded.state.as_str()), ("tx.refunded", TX, "refunded"));
    assert!(matches!(&refunded.extra[0].1, EventValue::Text(t) if t == TX2));
    assert_eq!((posted.event_type.as_str(), posted.tx_id.as_str(), posted.tx_type.as_str()), ("tx.posted", TX2, "refund"));
    assert!(matches!(&posted.extra[0].1, EventValue::Text(t) if t == TX));
}

#[test]
fn refund_after_concurrent_change_changes_nothing() {
    let mut table = BalanceTable { rows: vec![row(1, 0, 0), row(2, 5, 0)] };
    let target = SettleTarget { user_account_id: AccountId::new(2), currency: uzs(), amount: amt(40) };
    let r = RefundFlow::start(&tx(TX), target, Some("active".into()), "t".into()).unwrap();
    assert!(matches!(r.apply(false, tx(TX2), AccountId::new(1), &mut table), Err(AppError::Conflict("concurrent state change"))));
    assert_eq!((table.rows[0].available_minor, table.rows[1].available_minor), (0, 5));
}

#[test]
fn finished_topup_is_answered_again_under_its_key() {
    let f = TopupFlow::start(AccountId::new(2), AccountId::new(1), &key("topup-101-1"), uzs(), amt(25_000), tx(TX), "t0".into());
    let f = match f.check_idempotency(None, Some("active".into())).unwrap() {
        IdempotencyOutcome::Proceed(f) => f,
        IdempotencyOutcome::Existing(..) => panic!("nothing was stored"),
    };
    let f = f.insert_tx(Ok(())).unwrap();
    let mut table = BalanceTable { rows: vec![row(1, 0, 0), row(2, 0, 0)] };
    let (f, _) = f.apply(&mut table).unwrap();
    let (answer, id) = f.finish();

    let again = TopupFlow::start(AccountId::new(2), AccountId::new(1), &key("topup-101-1"), uzs(), amt(25_000), tx(TX2), "t1".into());
    let stored = PostOpResponse { tx_id: answer.tx_id.clone(), state: answer.state.clone(), currency: answer.currency.clone(), amount_minor: answer.amount_minor };
    match again.check_idempotency(Some(stored), Some("active".into())).unwrap() {
        IdempotencyOutcome::Existing(resp, rid) => {
            assert_eq!(rid, id);
            assert_eq!(resp.amount_minor, 25_000);
        },
        IdempotencyOutcome::Proceed(_) => panic!("the stored answer must be replayed"),
    }
    assert_eq!(table.rows[1].available_minor, 25_000);
}

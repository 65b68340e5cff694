use wallet_backend::domain::{AmountMinor, Currency, TxId, TxState, UserId};
use wallet_backend::error::AppError;
use wallet_backend::flow::{
    account_or_not_found, duplicate_key_outcome, hold_cancel_start, hold_capture_start, post_op_response,
    post_op_response_from_row, refund_existing, refund_idempotency_key, refund_response, refund_response_from_rows,
    refund_start, replay_existing, require_account_active, require_currency_open, require_currency_supported,
    require_not_self_transfer, transfer_metadata, user_account_or_404, HoldOutcome, LedgerTxRow, RefundStart,
};
use wallet_backend::models::PostOpResponse;

const TX: &str = "67e55044-10b1-426f-9247-bb680e5fe0c8";
const TX2: &str = "11111111-2222-4333-8444-555555555555";

fn tx() -> TxId {
    TxId::parse(TX).unwrap()
}

fn hold_row(state: &str) -> LedgerTxRow {
    LedgerTxRow { user_account_id: 7, state: state.to_string(), currency: "uzs".to_string(), amount_minor: 30_000 }
}

#[test]
fn closed_account_rejects_operations() {
    assert!(matches!(require_account_active(Some("active".to_string())), Ok(())));
    assert!(matches!(require_account_active(Some("closed".to_string())), Err(AppError::AccountClosed)));
    assert!(matches!(require_account_active(None), Err(AppError::NotFound(_))));
}

#[test]
fn small_guards() {
    assert!(matches!(account_or_not_found(Some(3)), Ok(a) if a.get() == 3));
    assert!(matches!(account_or_not_found(None), Err(AppError::NotFound(_))));
    assert!(matches!(user_account_or_404(Some(4)), Ok(4)));
    assert!(matches!(user_account_or_404(None), Err(AppError::NotFound(_))));
    assert!(matches!(require_currency_supported(true), Ok(())));
    assert!(matches!(require_currency_supported(false), Err(AppError::UnsupportedCurrency)));
    assert!(require_currency_open(true, true).is_ok());
    assert!(require_currency_open(false, true).is_err());
    assert!(require_currency_open(true, false).is_err());
}

#[test]
fn self_transfer_is_refused() {
    let a = UserId::parse("alice").unwrap();
    let b = UserId::parse("bob").unwrap();
    assert!(matches!(
        require_not_self_transfer(&a, &UserId::parse(" alice ").unwrap()),
        Err(AppError::BadRequest("cannot transfer to self"))
    ));
    assert!(require_not_self_transfer(&a, &b).is_ok());
}

#[test]
fn post_op_answer_fields() {
    let c = Currency::parse("UZS").unwrap();
    let r = post_op_response(&tx(), TxState::Authorized, &c, AmountMinor::new(30_000).unwrap());
    assert_eq!(r.tx_id, TX);
    assert_eq!(r.state, "authorized");
    assert_eq!(r.currency, "UZS");
    assert_eq!(r.amount_minor, 30_000);
}

#[test]
fn refund_answer_fields() {
    let c = Currency::parse("UZS").unwrap();
    let r = refund_response(&tx(), &TxId::parse(TX2).unwrap(), &c, AmountMinor::new(10).unwrap());
    assert_eq!(r.original_tx_id, TX);
    assert_eq!(r.refund_tx_id, TX2);
    assert_eq!(r.state, "refunded");
    assert_eq!(r.amount_minor, 10);
}

#[test]
fn replays_answer_the_stored_transaction() {
    let stored = PostOpResponse { tx_id: TX.to_string(), state: "posted".into(), currency: "UZS".into(), amount_minor: 5 };
    let (resp, id) = replay_existing(stored).unwrap();
    assert_eq!(id, tx());
    assert_eq!(resp.state, "posted");
    let bad = PostOpResponse { tx_id: "zzz".into(), state: "posted".into(), currency: "UZS".into(), amount_minor: 5 };
    assert!(matches!(replay_existing(bad), Err(AppError::BadRequest("invalid tx_id"))));
    assert!(matches!(duplicate_key_outcome(None), Err(AppError::Conflict("duplicate idempotency key"))));
    assert!(post_op_response_from_row(None).is_err());
}

#[test]
fn capture_of_authorized_hold_proceeds() {
    match hold_capture_start(&tx(), Some(hold_row("authorized"))).unwrap() {
        HoldOutcome::Proceed(t) => {
            assert_eq!(t.user_account_id.get(), 7);
            assert_eq!(t.currency.as_str(), "UZS");
            assert_eq!(t.amount.get(), 30_000);
        },
        other => panic!("unexpected {:?}", other),
    }
}

#[test]
fn capture_is_idempotent() {
    match hold_capture_start(&tx(), Some(hold_row("posted"))).unwrap() {
        HoldOutcome::Existing(resp, id) => {
            assert_eq!(id, tx());
            assert_eq!(resp.state, "posted");
            assert_eq!(resp.amount_minor, 30_000);
        },
        other => panic!("unexpected {:?}", other),
    }
}

#[test]
fn hold_cannot_be_canceled_after_capture() {
    assert!(matches!(
        hold_cancel_start(&tx(), Some(hold_row("posted"))),
        Err(AppError::Conflict("tx is not in authorized state"))
    ));
    assert!(matches!(hold_cancel_start(&tx(), Some(hold_row("reversed"))), Ok(HoldOutcome::Existing(_, _))));
    assert!(matches!(hold_cancel_start(&tx(), None), Err(AppError::NotFound("tx not found"))));
}

#[test]
fn settle_rejects_corrupt_rows() {
    let mut r = hold_row("authorized");
    r.currency = "x".into();
    assert!(matches!(hold_capture_start(&tx(), Some(r)), Err(AppError::BadRequest("invalid currency"))));
    let mut r = hold_row("authorized");
    r.amount_minor = 0;
    assert!(matches!(hold_capture_start(&tx(), Some(r)), Err(AppError::BadRequest("amount_minor must be > 0"))));
}

#[test]
fn refund_requires_posted_payment() {
    assert!(matches!(refund_start(Some(hold_row("authorized"))), Err(AppError::Conflict("tx is not in posted state"))));
    assert!(matches!(refund_start(Some(hold_row("posted"))), Ok(RefundStart::Proceed(_))));
    assert!(matches!(refund_start(Some(hold_row("refunded"))), Ok(RefundStart::AlreadyRefunded { .. })));
    assert!(matches!(refund_start(None), Err(AppError::NotFound("tx not found"))));
}

#[test]
fn refund_replay_needs_refund_tx() {
    let c = Currency::parse("UZS").unwrap();
    let a = AmountMinor::new(9).unwrap();
    assert!(matches!(refund_existing(&tx(), None, &c, a), Err(AppError::NotFound("refund tx not found"))));
    assert!(matches!(refund_existing(&tx(), Some(String::new()), &c, a), Err(AppError::NotFound(_))));
    let (resp, id) = refund_existing(&tx(), Some(TX2.to_string()), &c, a).unwrap();
    assert_eq!(id, TxId::parse(TX2).unwrap());
    assert_eq!(resp.refund_tx_id, TX2);
    assert_eq!(resp.original_tx_id, TX);
    assert!(matches!(
        refund_response_from_rows(&tx(), &id, Some(("refunded".into(), "UZS".into(), 9)), 0),
        Err(AppError::NotFound("refund tx not found"))
    ));
    let r = refund_response_from_rows(&tx(), &id, Some(("refunded".into(), "UZS".into(), 9)), 1).unwrap();
    assert_eq!(r.state, "refunded");
    assert_eq!(r.amount_minor, 9);
}

#[test]
fn refund_key_names_the_refund_transaction() {
    let k = refund_idempotency_key(&TxId::parse(TX2).unwrap()).unwrap();
    assert_eq!(k.as_str(), format!("refund:{TX2}"));
}

#[test]
fn transfer_metadata_names_both_users() {
    let m = transfer_metadata(&UserId::parse("alice").unwrap(), &UserId::parse("bo\"b").unwrap());
    let v: serde_json::Value = serde_json::from_str(&m).unwrap();
    assert_eq!(v["from_user_id"], "alice");
    assert_eq!(v["to_user_id"], "bo\"b");
}

#[test]
fn refund_metadata_names_the_payment() {
    let m = wallet_backend::flow::refund_metadata(&tx());
    let v: serde_json::Value = serde_json::from_str(&m).unwrap();
    assert_eq!(v["original_tx_id"], TX);
}

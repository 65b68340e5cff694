use wallet_backend::idempotency::{parse_idempotency, transfer_scope};
use wallet_backend::accounts::{
    account_balance_response, account_details_response, account_item, admin_close_account_response,
    admin_create_account_response, admin_users_response, closed_without_closed_at, dev_account_item, dev_user_item,
    fmt_currency_account_id, label_to_store, parse_account_id_param, parse_currency_account_id_param,
    profile_response,
};
use wallet_backend::domain::{TxId, UserId};
use wallet_backend::error::{ApiError, AppError};
use wallet_backend::idempotency::{completion, decide_reservation, request_hash, IdempotencyRecord, ReservationDecision};
use wallet_backend::models::{
    AccountRow, AdminUserRow, AdminCreateAccountRequest, AdminCreateAccountRequestValidated, AdminHoldRequest,
    AdminOpenCurrencyAccountRequest, AdminOpenCurrencyValidated, AdminTopupRequest, AdminTopupRequestValidated,
    HoldRequestValidated, TopupRequest, TopupRequestValidated, TransferRequest, TransferRequestValidated,
};
use wallet_backend::receipt::{
    parse_receipt_metadata, receipt_entries, receipt_entry, receipt_response, require_receipt_visible, ReceiptEntryRow,
    TxHeaderRow,
};

fn account_row(status: &str, closed_at: Option<&str>) -> AccountRow {
    AccountRow {
        id: 17,
        owner_type: "user".into(),
        owner_id: "user_123".into(),
        status: status.into(),
        created_at: "2024-01-01T00:00:00Z".into(),
        closed_at: closed_at.map(|s| s.to_string()),
        label: "My UZS Wallet".into(),
    }
}

#[test]
fn account_ids_are_acc_prefixed() {
    assert_eq!(fmt_currency_account_id(42), "acc_42");
    assert_eq!(parse_currency_account_id_param(" acc_42 ").unwrap(), 42);
    assert_eq!(parse_currency_account_id_param("42").unwrap(), 42);
    assert_eq!(parse_account_id_param("acc_-3").unwrap().get(), -3);
    assert!(matches!(parse_currency_account_id_param("acc_x"), Err(ApiError::BadRequest("invalid account_id"))));
    assert!(matches!(parse_currency_account_id_param("acc"), Err(ApiError::BadRequest(_))));
    for id in [0i64, 1, -1, i64::MAX, i64::MIN] {
        assert_eq!(parse_currency_account_id_param(&fmt_currency_account_id(id)).unwrap(), id);
    }
}

#[test]
fn admin_create_account_ok() {
    let req = AdminCreateAccountRequest {
        owner_user_id: "user_123".into(),
        currency: "UZS".into(),
        label: "  My UZS Wallet  ".into(),
    };
    let v = AdminCreateAccountRequestValidated::try_from(req).unwrap();
    assert_eq!(v.label, "My UZS Wallet");
    assert_eq!(label_to_store(&v.label).as_deref(), Some("My UZS Wallet"));
    assert_eq!(label_to_store("   "), None);
    let resp = admin_create_account_response(account_row("active", None), &v.currency, &v.owner_user_id);
    assert_eq!(resp.status, "ACTIVE");
    assert_eq!(resp.currency, "UZS");
    assert_eq!(resp.owner_user_id, "user_123");
    assert!(resp.account_id.starts_with("acc_"));
    let long = AdminCreateAccountRequest { owner_user_id: "u".into(), currency: "UZS".into(), label: "x".repeat(129) };
    assert!(matches!(AdminCreateAccountRequestValidated::try_from(long), Err(AppError::BadRequest("label too long"))));
}

#[test]
fn admin_close_account_ok() {
    let resp = admin_close_account_response(account_row("closed", None), "2024-02-02T00:00:00Z".into());
    assert_eq!(resp.status, "CLOSED");
    assert_eq!(resp.closed_at, "2024-02-02T00:00:00Z");
    let resp = admin_close_account_response(account_row("closed", Some("2024-01-05T00:00:00Z")), "now".into());
    assert_eq!(resp.closed_at, "2024-01-05T00:00:00Z");
    assert!(closed_without_closed_at(&account_row("closed", None)));
    assert!(!closed_without_closed_at(&account_row("active", None)));
    assert!(!closed_without_closed_at(&account_row("closed", Some("t"))));
}

#[test]
fn account_views() {
    let item = account_item(5, "USD".into(), "ACTIVE".into(), "Main".into());
    assert_eq!(item.account_id, "acc_5");
    let bal = account_balance_response(5, "USD".into(), None);
    assert_eq!((bal.available_minor, bal.hold_minor), (0, 0));
    let d = account_details_response(5, "USD".into(), "ACTIVE".into(), "L".into(), "c".into(), None, Some((7, 3)), None);
    assert_eq!(d.balance.account_id, "acc_5");
    assert_eq!((d.balance.available_minor, d.balance.hold_minor), (7, 3));
    assert_eq!(profile_response(&UserId::parse("u03").unwrap()).phone_number, "u03");
    assert_eq!(dev_user_item("u01".into(), "  ".into()).display_name, "u01");
    assert_eq!(dev_user_item("u01".into(), "Amina".into()).display_name, "Amina");
    let a = dev_account_item(9, "RUB".into(), Some(100), None);
    assert_eq!((a.account_id.as_str(), a.available_minor, a.hold_minor), ("acc_9", 100, 0));
}

#[test]
fn request_validation() {
    let t = TopupRequestValidated::try_from(TopupRequest { currency: "uzs".into(), amount_minor: 100_000 }).unwrap();
    assert_eq!(t.currency.as_str(), "UZS");
    assert!(matches!(
        TopupRequestValidated::try_from(TopupRequest { currency: "u".into(), amount_minor: 0 }),
        Err(AppError::BadRequest("invalid currency"))
    ));
    assert!(matches!(
        TopupRequestValidated::try_from(TopupRequest { currency: "UZS".into(), amount_minor: 0 }),
        Err(AppError::BadRequest("amount_minor must be > 0"))
    ));
    assert!(matches!(
        TransferRequestValidated::try_from(TransferRequest { to_user_id: " ".into(), currency: "UZS".into(), amount_minor: 5 }),
        Err(AppError::BadRequest("user_id is empty"))
    ));
    let tr = TransferRequestValidated::try_from(TransferRequest { to_user_id: "bob".into(), currency: "UZS".into(), amount_minor: 5 }).unwrap();
    assert_eq!(tr.to_user_id.as_str(), "bob");
    assert!(AdminOpenCurrencyValidated::try_from(AdminOpenCurrencyAccountRequest { currency: "XXXXXXXXX".into() }).is_err());
    assert!(AdminTopupRequestValidated::try_from(AdminTopupRequest { user_id: "u".into(), currency: "EUR".into(), amount_minor: 1 }).is_ok());
    let h = HoldRequestValidated::try_from(AdminHoldRequest { user_id: "".into(), currency: "UZS".into(), amount_minor: 30_000 }).unwrap();
    assert_eq!(h.amount_minor.get(), 30_000);
}

#[test]
fn receipt_entries_show_parties() {
    let rows = vec![
        ReceiptEntryRow { owner_type: "user".into(), owner_id: "alice".into(), label: " Alice ".into(), currency: "UZS".into(), direction: "debit".into(), amount_minor: -20_000 },
        ReceiptEntryRow { owner_type: "user".into(), owner_id: "bob".into(), label: "".into(), currency: "UZS".into(), direction: "credit".into(), amount_minor: 20_000 },
    ];
    let items = receipt_entries(rows).unwrap();
    assert_eq!(items.len(), 2);
    assert_eq!(items[0].party_id, "alice");
    assert_eq!(items[0].party_label.as_deref(), Some("Alice"));
    assert_eq!(items[0].amount_minor, 20_000);
    assert_eq!(items[1].direction, "credit");
    assert_eq!(items[1].party_label, None);
    let bad = ReceiptEntryRow { owner_type: "bank".into(), owner_id: "x".into(), label: "".into(), currency: "UZS".into(), direction: "debit".into(), amount_minor: 1 };
    assert!(matches!(receipt_entry(bad), Err(AppError::Internal("unknown account owner_type"))));
}

#[test]
fn receipt_visibility_and_metadata() {
    assert!(require_receipt_visible(true, 1, 2).is_ok());
    assert!(require_receipt_visible(false, 2, 2).is_ok());
    assert!(matches!(require_receipt_visible(false, 1, 2), Err(AppError::NotFound("tx not found"))));
    let (memo, merchant, fx, fee) = parse_receipt_metadata(Some(r#"{"memo":"lunch","fee_minor":15,"fx_rate":"1.5"}"#));
    assert_eq!(memo.as_deref(), Some("lunch"));
    assert_eq!(merchant, None);
    assert_eq!(fx.as_deref(), Some("1.5"));
    assert_eq!(fee, Some(15));
    assert_eq!(parse_receipt_metadata(Some("oops")), (None, None, None, None));
    let header = TxHeaderRow {
        tx_id: "t".into(),
        tx_type: "payment".into(),
        state: "authorized".into(),
        user_account_id: 3,
        currency: "UZS".into(),
        amount_minor: 30_000,
        created_at: "c".into(),
        posted_at: "p".into(),
        metadata_json: Some(r#"{"merchant_label":"Shop"}"#.into()),
    };
    let r = receipt_response(header, Vec::new());
    assert_eq!(r.merchant_label.as_deref(), Some("Shop"));
    assert_eq!(r.state, "authorized");
    assert!(r.entries.is_empty());
}

fn record(hash: &str, status: &str, result: Option<&str>, reserved_at: Option<&str>) -> IdempotencyRecord {
    IdempotencyRecord {
        request_hash: hash.into(),
        status: status.into(),
        result_tx_id: result.map(|s| s.to_string()),
        reserved_at: reserved_at.map(|s| s.to_string()),
        created_at: "2024-01-01T00:00:00Z".into(),
    }
}

#[test]
fn request_hash_is_sha256_of_payload() {
    let h = request_hash("{}", "/v1/x", "u1");
    assert_eq!(h, "92e2d3dabec04f5b1e1f9dbab0c2ac80866f0986786069bcb58c530feb7662b9");
    assert_eq!(h.len(), 64);
    assert_ne!(request_hash("{}", "/v1/x", "u2"), h);
}

#[test]
fn idempotency_decisions() {
    let now = 1_704_067_200; // 2024-01-01T00:00:00Z
    let tx = "67e55044-10b1-426f-9247-bb680e5fe0c8";
    assert!(matches!(
        decide_reservation(false, &record("h1", "reserved", None, None), "h2", now),
        Err(AppError::Conflict("idempotency key reused with different request"))
    ));
    match decide_reservation(false, &record("h", "completed", Some(tx), None), "h", now) {
        Ok(ReservationDecision::Replay(id)) => assert_eq!(id, TxId::parse(tx).unwrap()),
        other => panic!("unexpected {:?}", other),
    }
    assert!(matches!(
        decide_reservation(false, &record("h", "completed", Some(""), None), "h", now),
        Err(AppError::Internal("idempotency record missing result"))
    ));
    assert!(matches!(
        decide_reservation(false, &record("h", "weird", None, None), "h", now),
        Err(AppError::Internal("invalid idempotency status"))
    ));
    assert!(matches!(decide_reservation(true, &record("h", "reserved", None, None), "h", now), Ok(ReservationDecision::Reserved)));
    assert!(matches!(
        decide_reservation(false, &record("h", "reserved", None, None), "h", now + 30),
        Err(AppError::Conflict("idempotency request in progress"))
    ));
    assert!(matches!(
        decide_reservation(false, &record("h", "reserved", None, None), "h", now + 31),
        Ok(ReservationDecision::TakeOverExpired)
    ));
    assert!(matches!(
        decide_reservation(false, &record("h", "failed", None, Some("2024-01-01T00:10:00Z")), "h", now + 620),
        Err(AppError::Conflict("idempotency request in progress"))
    ));
}

#[test]
fn idempotency_header_and_scope() {
    assert!(matches!(parse_idempotency(None), Err(ApiError::BadRequest("missing Idempotency-Key header"))));
    assert!(matches!(parse_idempotency(Some(None)), Err(ApiError::BadRequest("invalid Idempotency-Key header"))));
    assert!(matches!(parse_idempotency(Some(Some("  "))), Err(ApiError::BadRequest("Empty Idempotency-Key header"))));
    assert_eq!(parse_idempotency(Some(Some(" k-1 "))).unwrap().as_str(), "k-1");
    assert_eq!(transfer_scope(&UserId::parse("alice").unwrap()), "user:alice:transfer");
}

#[test]
fn admin_list_users_returns_users() {
    let row = |id: &str, label: &str| AdminUserRow {
        user_id: id.into(),
        label: label.into(),
        status: "active".into(),
        closed_at: None,
    };
    let r = admin_users_response(vec![row("u01", ""), row("u02", "User Two")]);
    assert_eq!(r.users.len(), 2);
    assert!(r.users.windows(2).all(|p| p[0].user_id <= p[1].user_id));
    assert_eq!(r.users[0].user_id, "u01");
    assert_eq!(r.users[0].display_name, "u01");
    assert_eq!(r.users[1].user_id, "u02");
    assert_eq!(r.users[1].display_name, "User Two");
    assert_eq!(r.users[1].status, "active");
}

#[test]
fn request_validation_goes_through_try_from() {
    let ok: Result<TopupRequestValidated, AppError> =
        TryFrom::try_from(TopupRequest { currency: " uzs ".into(), amount_minor: 5 });
    let v = ok.unwrap();
    assert_eq!(v.currency.as_str(), "UZS");
    assert_eq!(v.amount_minor.get(), 5);
    let bad: Result<TopupRequestValidated, AppError> =
        TopupRequest { currency: "UZS".into(), amount_minor: 0 }.try_into();
    assert!(matches!(bad, Err(AppError::BadRequest(_))));
}

#[test]
fn completed_key_replays_its_result() {
    let id = TxId::parse("67e55044-10b1-426f-9247-bb680e5fe0c8").unwrap();
    let (status, result) = completion(&id);
    assert_eq!(status, "completed");
    assert_eq!(result, "67e55044-10b1-426f-9247-bb680e5fe0c8");
    let rec = IdempotencyRecord {
        request_hash: "h1".into(),
        status,
        result_tx_id: Some(result),
        reserved_at: None,
        created_at: "2024-01-01T00:00:00Z".into(),
    };
    match decide_reservation(false, &rec, "h1", 1_700_000_000) {
        Ok(ReservationDecision::Replay(r)) => assert_eq!(r, id),
        other => panic!("unexpected {:?}", other),
    }
    assert!(matches!(
        decide_reservation(false, &rec, "h2", 1_700_000_000),
        Err(AppError::Conflict("idempotency key reused with different request"))
    ));
}

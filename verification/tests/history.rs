use wallet_backend::domain::EntryDirection;
use wallet_backend::history::{
    account_entry_line, account_history_requested_limit, clamp_account_history_limit, describe_account_line,
    describe_wallet_line, merge_history, wallet_entry_line, wallet_history_limit, wallet_hold_line, EntryHistoryRow,
    HoldHistoryRow,
};
use wallet_backend::models::TxItem;

fn item(id: &str, created_at: &str) -> TxItem {
    TxItem {
        tx_id: id.into(),
        tx_type: "topup".into(),
        state: "posted".into(),
        currency: "UZS".into(),
        amount_minor: 1,
        created_at: created_at.into(),
        posted_at: created_at.into(),
        description: "Top up".into(),
    }
}

fn entry(tx_type: &str, state: &str, direction: &str, meta: Option<&str>) -> EntryHistoryRow {
    EntryHistoryRow {
        tx_id: "t1".into(),
        tx_type: tx_type.into(),
        state: state.into(),
        currency: "UZS".into(),
        amount_minor: 500,
        direction: direction.into(),
        created_at: "2024-01-01T00:00:00Z".into(),
        posted_at: "2024-01-01T00:00:01Z".into(),
        metadata_json: meta.map(|m| m.to_string()),
    }
}

#[test]
fn history_is_newest_first_and_stable() {
    let items = vec![item("a", "2024-01-01"), item("b", "2024-01-03"), item("c", "2024-01-02")];
    let holds = vec![item("h1", "2024-01-03"), item("h2", "2024-01-04")];
    let r = merge_history(items, holds, 50);
    let ids: Vec<&str> = r.iter().map(|t| t.tx_id.as_str()).collect();
    assert_eq!(ids, vec!["h2", "b", "h1", "c", "a"]);
}

#[test]
fn history_is_truncated_to_limit() {
    let items = vec![item("a", "1"), item("b", "2"), item("c", "3")];
    let r = merge_history(items, Vec::new(), 2);
    let ids: Vec<&str> = r.iter().map(|t| t.tx_id.as_str()).collect();
    assert_eq!(ids, vec!["c", "b"]);
    assert!(merge_history(vec![item("a", "1")], Vec::new(), 0).is_empty());
}

#[test]
fn wallet_descriptions() {
    let to = Some(r#"{"from_user_id":"alice","to_user_id":"bob"}"#.to_string());
    assert_eq!(describe_wallet_line("topup", EntryDirection::Credit, &None), "Top up");
    assert_eq!(describe_wallet_line("transfer", EntryDirection::Debit, &to), "Transfer to bob");
    assert_eq!(describe_wallet_line("transfer", EntryDirection::Credit, &to), "Transfer from alice");
    assert_eq!(describe_wallet_line("transfer", EntryDirection::Credit, &None), "Incoming transfer");
    assert_eq!(describe_wallet_line("transfer", EntryDirection::Debit, &Some("{bad".into())), "Transfer");
    assert_eq!(describe_wallet_line("payment", EntryDirection::Debit, &None), "Payment");
    assert_eq!(describe_wallet_line("refund", EntryDirection::Credit, &None), "Refund");
    assert_eq!(describe_wallet_line("fee", EntryDirection::Debit, &None), "Operation");
}

#[test]
fn account_descriptions() {
    assert_eq!(describe_account_line("payment", "authorized", EntryDirection::Debit, &None), "Hold (authorized)");
    assert_eq!(describe_account_line("payment", "posted", EntryDirection::Debit, &None), "Card payment");
    assert_eq!(describe_account_line("payment", "reversed", EntryDirection::Debit, &None), "Hold (reversed)");
    assert_eq!(describe_account_line("payment", "refunded", EntryDirection::Debit, &None), "Refund");
    assert_eq!(describe_account_line("payment", "odd", EntryDirection::Debit, &None), "Payment");
    assert_eq!(describe_account_line("transfer", "posted", EntryDirection::Credit, &None), "Transfer");
    assert_eq!(describe_account_line("fee", "posted", EntryDirection::Debit, &None), "fee");
}

#[test]
fn entry_lines_sign_the_amount() {
    let debit = wallet_entry_line(entry("payment", "posted", "debit", None)).unwrap();
    assert_eq!(debit.amount_minor, -500);
    assert_eq!(debit.description, "Payment");
    let credit = account_entry_line(entry("topup", "posted", "credit", None)).unwrap();
    assert_eq!(credit.amount_minor, 500);
    assert_eq!(credit.description, "Top up");
    assert_eq!(credit.tx_id, "t1");
    assert!(wallet_entry_line(entry("topup", "posted", "sideways", None)).is_err());
}

#[test]
fn hold_lines_are_negative() {
    let row = HoldHistoryRow {
        tx_id: "h".into(),
        tx_type: "payment".into(),
        state: "authorized".into(),
        currency: "UZS".into(),
        amount_minor: 30_000,
        created_at: "c".into(),
        posted_at: "p".into(),
    };
    let line = wallet_hold_line(row);
    assert_eq!(line.amount_minor, -30_000);
    assert_eq!(line.description, "Hold (authorized)");
}

#[test]
fn history_limits() {
    assert_eq!(wallet_history_limit(None), 50);
    assert_eq!(wallet_history_limit(Some(10)), 10);
    assert_eq!(wallet_history_limit(Some(1000)), 200);
    assert_eq!(account_history_requested_limit(None), 100);
    assert_eq!(account_history_requested_limit(Some(7)), 7);
    assert_eq!(clamp_account_history_limit(0), 1);
    assert_eq!(clamp_account_history_limit(500), 200);
    assert_eq!(clamp_account_history_limit(20), 20);
}

#[test]
fn credit_lines_take_any_amount() {
    let mut row = entry("topup", "posted", "credit", None);
    row.amount_minor = i64::MIN;
    assert_eq!(wallet_entry_line(row).unwrap().amount_minor, i64::MIN);
    let mut row = entry("topup", "posted", "credit", None);
    row.amount_minor = i64::MIN;
    assert_eq!(account_entry_line(row).unwrap().amount_minor, i64::MIN);
}

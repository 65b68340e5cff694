use wallet_backend::auth::dev_user_from_query;
use wallet_backend::codec::{hex_digit_exec, hex_encode};
use wallet_backend::decimal::{format_i64, format_u64, parse_i64};
use wallet_backend::error::{classify_ledger_insert_error, insert_error_is_duplicate, is_unique_violation, ApiError, AppError};
use wallet_backend::idempotency::{decide_reservation, IdempotencyRecord, ReservationDecision};

#[test]
fn hex_encoding_is_lower_case_two_digits_per_byte() {
    assert_eq!(hex_encode(&vec![0x00, 0x0f, 0xa5, 0xff]).into_iter().collect::<String>(), "000fa5ff");
    assert_eq!(hex_digit_exec(11), 'b');
    assert_eq!(hex_digit_exec(9), '9');
}

#[test]
fn percent_decoding_of_the_selected_user() {
    let user = |q: &str| dev_user_from_query(Some(q)).map(|u| u.as_str().to_string());
    assert_eq!(user("as=a%20b%2Fc").as_deref(), Some("a b/c"));
    assert_eq!(user("as=100%").as_deref(), Some("100%"));
    assert_eq!(user("as=%zz").as_deref(), Some("%zz"));
    assert_eq!(user("as=%C3%A9").as_deref(), Some("é"));
    assert_eq!(user("as=%C3"), None);
}

fn reserved_at(ts: &str) -> IdempotencyRecord {
    IdempotencyRecord {
        request_hash: "h".into(),
        status: "reserved".into(),
        result_tx_id: None,
        reserved_at: Some(ts.into()),
        created_at: "not a time".into(),
    }
}

#[test]
fn lease_times_are_read_as_rfc3339() {
    let now = 1_704_067_200; // 2024-01-01T00:00:00Z
    let expired = |ts: &str, now: i64| matches!(decide_reservation(false, &reserved_at(ts), "h", now), Ok(ReservationDecision::TakeOverExpired));
    assert!(!expired("2024-01-01T00:00:00Z", now + 30));
    assert!(expired("2024-01-01T00:00:00Z", now + 31));
    assert!(expired("2024-01-01T03:00:00+03:00", now + 31));
    assert!(!expired("2024-01-01T03:00:00+00:00", now + 31));
    // a lease time that does not parse never expires
    assert!(!expired("yesterday", now + 1_000_000));
}

#[test]
fn decimal_texts() {
    assert_eq!(format_u64(0), "0");
    assert_eq!(format_u64(u64::MAX), "18446744073709551615");
    assert_eq!(format_i64(-42), "-42");
    assert_eq!(format_i64(i64::MIN), "-9223372036854775808");
    assert_eq!(parse_i64("17"), Some(17));
    assert_eq!(parse_i64("-17"), Some(-17));
    assert_eq!(parse_i64("+5"), Some(5));
    assert_eq!(parse_i64("9223372036854775808"), None);
    assert_eq!(parse_i64("-9223372036854775808"), Some(i64::MIN));
    assert_eq!(parse_i64("1x"), None);
    assert_eq!(parse_i64(""), None);
    for v in [0i64, 1, -1, 1234567, i64::MAX, i64::MIN] {
        assert_eq!(parse_i64(&format_i64(v)), Some(v));
    }
}

#[test]
fn duplicate_keys_are_recognized_by_message() {
    assert!(is_unique_violation("UNIQUE constraint failed: ledger_transactions.idempotency_key"));
    assert!(!is_unique_violation("FOREIGN KEY constraint failed"));
    assert!(insert_error_is_duplicate(Some("Unique violation")));
    assert!(!insert_error_is_duplicate(None));
    assert!(matches!(classify_ledger_insert_error(sqlx::Error::RowNotFound), AppError::Db(_)));
}

#[test]
fn error_answers() {
    let p = ApiError::AccountClosed.response_parts();
    assert_eq!((p.status, p.message.as_str(), p.code.as_deref()), (409, "account is closed", Some("ACCOUNT_CLOSED")));
    let p = ApiError::UnsupportedCurrency.response_parts();
    assert_eq!((p.status, p.code.as_deref()), (400, Some("UNSUPPORTED_CURRENCY")));
    let p = ApiError::Forbidden("admin only").response_parts();
    assert_eq!((p.status, p.message.as_str(), p.code), (403, "admin only", None));
    let p = ApiError::Db(sqlx::Error::RowNotFound).response_parts();
    assert_eq!(p.status, 500);
    assert_eq!(p.message, sqlx::Error::RowNotFound.to_string());
    let p = ApiError::from(AppError::NotFound("tx not found")).response_parts();
    assert_eq!((p.status, p.message.as_str()), (404, "tx not found"));
}

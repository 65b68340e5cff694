use std::str::FromStr;

use wallet_backend::domain::{
    system_account_owner_id, AccountId, AccountStatus, AmountMinor, Currency, DomainError, EntryDirection,
    IdempotencyKey, TxId, TxState, TxType, UserId, SYSTEM_ACCOUNT_SINK, SYSTEM_ACCOUNT_SPEND,
};

#[test]
fn user_id_is_trimmed_and_bounded() {
    assert_eq!(UserId::parse("  alice ").unwrap().as_str(), "alice");
    assert_eq!(UserId::parse("   ").unwrap_err(), DomainError::BadRequest("user_id is empty"));
    let long = "x".repeat(65);
    assert_eq!(UserId::parse(&long).unwrap_err(), DomainError::BadRequest("user_id too long"));
    assert!(UserId::parse(&"x".repeat(64)).is_ok());
    assert_eq!(UserId::parse("bob").unwrap().into_inner(), "bob".to_string());
    assert!(UserId::parse("u01").unwrap().same_as(&UserId::parse(" u01").unwrap()));
}

#[test]
fn idempotency_key_is_trimmed_and_bounded() {
    assert_eq!(IdempotencyKey::parse(" topup-42-1 ").unwrap().as_str(), "topup-42-1");
    assert_eq!(
        IdempotencyKey::parse("").unwrap_err(),
        DomainError::BadRequest("Empty Idempotency-Key header")
    );
    assert_eq!(
        IdempotencyKey::parse(&"k".repeat(257)).unwrap_err(),
        DomainError::BadRequest("Idempotency-Key too long")
    );
    assert!(IdempotencyKey::parse(&"k".repeat(256)).is_ok());
}

#[test]
fn currency_is_normalized_to_upper_case() {
    assert_eq!(Currency::parse("uzs").unwrap().as_str(), "UZS");
    assert_eq!(Currency::parse(" eur ").unwrap().into_inner(), "EUR".to_string());
    assert_eq!(Currency::parse("us").unwrap_err(), DomainError::BadRequest("invalid currency"));
    assert_eq!(Currency::parse("ABCDEFGHI").unwrap_err(), DomainError::BadRequest("invalid currency"));
    assert!(Currency::parse("ABCDEFGH").is_ok());
    assert!(Currency::parse("usd").unwrap().same_as(&Currency::parse("USD").unwrap()));
}

#[test]
fn amount_minor_bounds() {
    assert_eq!(AmountMinor::new(0).unwrap_err(), DomainError::BadRequest("amount_minor must be > 0"));
    assert_eq!(
        AmountMinor::new(AmountMinor::MAX + 1).unwrap_err(),
        DomainError::BadRequest("amount_minor too large")
    );
    assert_eq!(AmountMinor::new(AmountMinor::MAX).unwrap().get(), 1_000_000_000_000);
    assert_eq!(AmountMinor::try_from(-5i64).unwrap_err(), DomainError::BadRequest("amount_minor must be > 0"));
    assert_eq!(AmountMinor::try_from(25_000i64).unwrap().as_i64(), 25_000);
    assert_eq!(
        AmountMinor::try_from_i64(1_000_000_000_001).unwrap_err(),
        DomainError::BadRequest("amount_minor too large")
    );
}

#[test]
fn enum_texts_read_back() {
    for d in [EntryDirection::Debit, EntryDirection::Credit] {
        assert_eq!(EntryDirection::from_db_str(d.as_str()).unwrap(), d);
    }
    assert_eq!(
        EntryDirection::from_db_str("DEBIT").unwrap_err(),
        DomainError::Internal("unknown entry direction")
    );
    for t in [TxType::Topup, TxType::Transfer, TxType::Payment, TxType::Refund] {
        assert_eq!(TxType::from_db_str_lossy(t.as_str()), Some(t));
    }
    assert_eq!(TxType::from_db_str_lossy("fee"), None);
    for s in [TxState::Authorized, TxState::Posted, TxState::Reversed, TxState::Refunded] {
        assert_eq!(TxState::from_db_str_lossy(s.as_str()), Some(s));
    }
    assert_eq!(TxState::from_db_str_lossy("pending"), None);
    for s in [AccountStatus::Active, AccountStatus::Closed] {
        assert_eq!(AccountStatus::from_db_str_lossy(s.as_db_str()), Some(s));
    }
    assert_eq!(AccountStatus::Active.as_api_str(), "ACTIVE");
    assert_eq!(AccountStatus::Closed.as_api_str(), "CLOSED");
}

#[test]
fn apply_sign_negates_debits() {
    assert_eq!(EntryDirection::Debit.apply_sign(100), -100);
    assert_eq!(EntryDirection::Credit.apply_sign(100), 100);
}

#[test]
fn system_account_owner_ids() {
    let uzs = Currency::parse("UZS").unwrap();
    assert_eq!(system_account_owner_id(SYSTEM_ACCOUNT_SINK, &uzs), "SYSTEM_SINK:UZS");
    assert_eq!(system_account_owner_id(SYSTEM_ACCOUNT_SPEND, &uzs), "SYSTEM_SPEND:UZS");
}

#[test]
fn account_id_round_trips() {
    assert_eq!(AccountId::new(42).get(), 42);
}

#[test]
fn tx_id_text_round_trips() {
    let t = TxId::parse("67E55044-10B1-426F-9247-BB680E5FE0C8").unwrap();
    assert_eq!(t.to_string_hyphenated(), "67e55044-10b1-426f-9247-bb680e5fe0c8");
    assert_eq!(TxId::parse(&t.to_string_hyphenated()).unwrap(), t);
    assert_eq!(TxId::from_str("67e5504410b1426f9247bb680e5fe0c8").unwrap(), t);
    assert_eq!(TxId::parse("not-a-uuid").unwrap_err(), DomainError::BadRequest("invalid tx_id"));
    assert_eq!(TxId::from_u128(7).as_u128(), 7);
}

#[test]
fn fresh_tx_ids_are_version_4() {
    let a = TxId::new();
    let b = TxId::new();
    assert_ne!(a, b);
    let text = a.to_string_hyphenated();
    assert_eq!(&text[14..15], "4");
    assert!(matches!(&text[19..20], "8" | "9" | "a" | "b"));
}

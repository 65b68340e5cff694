use wallet_backend::bookkeeping::{
    build_double_entry, check_zero_sum, projection_deltas_from_entries, saturating_add_i64, EntrySpec,
    ProjectionDelta,
};
use wallet_backend::domain::{AccountId, AmountMinor, Currency, EntryDirection};

fn deltas_for(deltas: &[ProjectionDelta], account: AccountId) -> Option<i64> {
    let mut found = None;
    for d in deltas {
        if d.account_id == account {
            found = Some(d.available_delta_minor);
        }
    }
    found
}

#[test]
fn topup_double_entry_has_correct_directions() {
    let currency = Currency::parse("uzs").unwrap();
    let amount = AmountMinor::new(100).unwrap();

    let system_cash = AccountId::new(1);
    let user = AccountId::new(2);

    let entries = build_double_entry(system_cash, user, &currency, amount);

    assert_eq!(entries[0].account_id, system_cash);
    assert_eq!(entries[0].direction, EntryDirection::Debit);
    assert_eq!(entries[1].account_id, user);
    assert_eq!(entries[1].direction, EntryDirection::Credit);
}

#[test]
fn projection_deltas_have_zero_sum_for_double_entry() {
    let currency = Currency::parse("USD").unwrap();
    let amount = AmountMinor::new(42).unwrap();

    let entries = build_double_entry(AccountId::new(10), AccountId::new(11), &currency, amount);
    let deltas = projection_deltas_from_entries(&entries);

    assert!(check_zero_sum(&deltas));
}

#[test]
fn projection_deltas_apply_expected_per_account() {
    let currency = Currency::parse("USD").unwrap();
    let amount = AmountMinor::new(500).unwrap();

    let debit = AccountId::new(100);
    let credit = AccountId::new(200);

    let entries = build_double_entry(debit, credit, &currency, amount);
    let deltas = projection_deltas_from_entries(&entries);

    assert_eq!(deltas_for(&deltas, debit), Some(-amount.as_i64()));
    assert_eq!(deltas_for(&deltas, credit), Some(amount.as_i64()));
    assert!(check_zero_sum(&deltas));
}

#[test]
fn deltas_aggregate_multiple_entries_for_same_account_and_currency() {
    let currency = Currency::parse("EUR").unwrap();
    let amount1 = AmountMinor::new(10).unwrap();
    let amount2 = AmountMinor::new(15).unwrap();

    let debit = AccountId::new(1);
    let credit = AccountId::new(2);

    let mut entries = Vec::new();
    entries.extend_from_slice(&build_double_entry(debit, credit, &currency, amount1));
    entries.extend_from_slice(&build_double_entry(debit, credit, &currency, amount2));

    let deltas = projection_deltas_from_entries(&entries);

    let expected_total = amount1.as_i64() + amount2.as_i64();

    assert_eq!(deltas_for(&deltas, debit), Some(-expected_total));
    assert_eq!(deltas_for(&deltas, credit), Some(expected_total));
    assert!(check_zero_sum(&deltas));
}

#[test]
fn double_entry_keeps_currency_and_amount() {
    let currency = Currency::parse(" rub ").unwrap();
    let amount = AmountMinor::new(7).unwrap();
    let entries = build_double_entry(AccountId::new(3), AccountId::new(4), &currency, amount);
    for e in entries.iter() {
        assert_eq!(e.currency.as_str(), "RUB");
        assert_eq!(e.amount_minor.get(), 7);
    }
}

#[test]
fn deltas_of_different_currencies_stay_apart() {
    let usd = Currency::parse("USD").unwrap();
    let eur = Currency::parse("EUR").unwrap();
    let a = AccountId::new(1);
    let b = AccountId::new(2);
    let mut entries: Vec<EntrySpec> = Vec::new();
    entries.extend_from_slice(&build_double_entry(a, b, &usd, AmountMinor::new(5).unwrap()));
    entries.extend_from_slice(&build_double_entry(a, b, &eur, AmountMinor::new(9).unwrap()));
    let deltas = projection_deltas_from_entries(&entries);
    assert_eq!(deltas.len(), 4);
    assert_eq!(deltas[0].available_delta_minor, -5);
    assert_eq!(deltas[1].available_delta_minor, 5);
    assert_eq!(deltas[2].available_delta_minor, -9);
    assert_eq!(deltas[3].available_delta_minor, 9);
    for d in &deltas {
        assert_eq!(d.hold_delta_minor, 0);
    }
    assert!(check_zero_sum(&deltas));
}

#[test]
fn deltas_keep_first_seen_order() {
    let c = Currency::parse("UZS").unwrap();
    let entries = build_double_entry(AccountId::new(9), AccountId::new(8), &c, AmountMinor::new(3).unwrap());
    let deltas = projection_deltas_from_entries(&entries);
    assert_eq!(deltas.len(), 2);
    assert_eq!(deltas[0].account_id, AccountId::new(9));
    assert_eq!(deltas[1].account_id, AccountId::new(8));
}

#[test]
fn one_sided_deltas_are_not_zero_sum() {
    let c = Currency::parse("UZS").unwrap();
    let entries = build_double_entry(AccountId::new(1), AccountId::new(2), &c, AmountMinor::new(3).unwrap());
    let deltas = projection_deltas_from_entries(&entries[..1]);
    assert_eq!(deltas.len(), 1);
    assert!(!check_zero_sum(&deltas));
    assert!(check_zero_sum(&[]));
}

#[test]
fn self_double_entry_nets_to_zero() {
    let c = Currency::parse("UZS").unwrap();
    let entries = build_double_entry(AccountId::new(5), AccountId::new(5), &c, AmountMinor::new(11).unwrap());
    let deltas = projection_deltas_from_entries(&entries);
    assert_eq!(deltas.len(), 1);
    assert_eq!(deltas[0].available_delta_minor, 0);
}

#[test]
fn saturating_add_saturates_both_ways() {
    assert_eq!(saturating_add_i64(i64::MAX, 1), i64::MAX);
    assert_eq!(saturating_add_i64(i64::MIN, -1), i64::MIN);
    assert_eq!(saturating_add_i64(40, 2), 42);
    assert_eq!(saturating_add_i64(-40, 2), -38);
}

use wallet_backend::domain::{Currency, UserId};
use wallet_backend::error::AppError;
use wallet_backend::seed::{
    amount_minor_from_major, prefund_amount, seed_prefund_key, seed_topup_key, seed_transfer_key, topup_plan,
};

#[test]
fn topup_plan_takes_tenth_and_twentieth() {
    assert_eq!(topup_plan(10_000), vec![10_000, 1_000, 500]);
    assert_eq!(topup_plan(250), vec![250, 25, 12]);
    assert_eq!(topup_plan(15), vec![15, 1, 1]);
    assert_eq!(topup_plan(5), vec![5, 1, 1]);
    assert_eq!(topup_plan(0), vec![0, 1, 1]);
    assert_eq!(topup_plan(-300), vec![-300, 1, 1]);
}

#[test]
fn prefund_is_three_times_the_deficit() {
    assert_eq!(prefund_amount(100, 50).unwrap(), None);
    assert_eq!(prefund_amount(50, 50).unwrap(), None);
    assert_eq!(prefund_amount(20, 50).unwrap(), Some(90));
    assert_eq!(prefund_amount(0, 35_000).unwrap(), Some(105_000));
    match prefund_amount(0, i64::MAX / 2) {
        Err(AppError::Internal(m)) => assert_eq!(m, "amount overflow"),
        other => panic!("unexpected {:?}", other),
    }
}

#[test]
fn minor_amounts_follow_minor_units() {
    assert_eq!(amount_minor_from_major(2, 350).unwrap(), 35_000);
    assert_eq!(amount_minor_from_major(0, 350).unwrap(), 350);
    assert_eq!(amount_minor_from_major(3, -4).unwrap(), -4_000);
    assert_eq!(amount_minor_from_major(18, 9).unwrap(), 9_000_000_000_000_000_000);
    match amount_minor_from_major(19, 1) {
        Err(AppError::Internal(m)) => assert_eq!(m, "minor units overflow"),
        other => panic!("unexpected {:?}", other),
    }
    match amount_minor_from_major(18, 10) {
        Err(AppError::Internal(m)) => assert_eq!(m, "amount overflow"),
        other => panic!("unexpected {:?}", other),
    }
    // the number of minor units is taken as a u32, as the cast does
    assert_eq!(amount_minor_from_major((1i64 << 32) + 2, 7).unwrap(), 700);
}

#[test]
fn seed_keys_have_their_fixed_shape() {
    let u1 = UserId::parse("u01").unwrap();
    let u4 = UserId::parse("u04").unwrap();
    let rub = Currency::parse("RUB").unwrap();
    assert_eq!(seed_topup_key(&u1, &rub, 3), "seed:u01:RUB:topup3");
    assert_eq!(seed_prefund_key(&u1, &u4, &rub), "seed:prefund:u01:u04:RUB");
    assert_eq!(seed_transfer_key(&u1, &u4, &rub), "seed:transfer:u01:u04:RUB");
}

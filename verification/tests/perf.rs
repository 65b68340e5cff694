use wallet_backend::perf::{mixed_op, worker_key, MixedOp};
use wallet_backend::error::AppError;
use wallet_backend::perf::{kind_of, latency_micros, ErrorBreakdown, ErrorKind, RunCounts};

#[test]
fn error_breakdown_classifies_conflict() {
    let mut e = ErrorBreakdown {
        conflict: 0,
        bad_request: 0,
        not_found: 0,
        db_locked_or_busy: 0,
        other_db: 0,
        other: 0,
    };
    e.bump(&AppError::Conflict("x"));
    assert_eq!(e.conflict, 1);
}

#[test]
fn error_breakdown_counts_each_kind() {
    let mut e = ErrorBreakdown::zero();
    e.bump(&AppError::BadRequest("b"));
    e.bump(&AppError::NotFound("n"));
    e.bump(&AppError::NotFound("n"));
    e.bump(&AppError::AccountClosed);
    e.bump(&AppError::Internal("i"));
    e.bump(&AppError::Db(sqlx::Error::RowNotFound));
    assert_eq!(e.bad_request, 1);
    assert_eq!(e.not_found, 2);
    assert_eq!(e.other, 2);
    assert_eq!(e.other_db, 1);
    assert_eq!(e.db_locked_or_busy, 0);
    assert_eq!(e.conflict, 0);
}

#[test]
fn database_messages_are_classified_by_text() {
    let mut e = ErrorBreakdown::zero();
    e.bump_db_text("error returned from database: (code: 5) Database Is Locked");
    e.bump_db_text("DATABASE IS BUSY");
    e.bump_db_text("no such table: accounts");
    assert_eq!(e.db_locked_or_busy, 2);
    assert_eq!(e.other_db, 1);
}

#[test]
fn bump_kind_touches_one_counter() {
    let mut e = ErrorBreakdown::zero();
    e.bump_kind(ErrorKind::OtherDb);
    assert_eq!(
        e,
        ErrorBreakdown { conflict: 0, bad_request: 0, not_found: 0, db_locked_or_busy: 0, other_db: 1, other: 0 }
    );
}

#[test]
fn run_counts_record_and_merge() {
    let mut a = RunCounts::new();
    a.record_ok();
    a.record_ok();
    a.record_err(&AppError::Conflict("insufficient funds"));
    let mut b = RunCounts::new();
    b.record_err(&AppError::BadRequest("x"));
    a.merge_into(&mut b);
    assert_eq!(b.ok, 2);
    assert_eq!(b.err, 2);
    assert_eq!(b.errors.conflict, 1);
    assert_eq!(b.errors.bad_request, 1);
    assert_eq!(a.ok, 2);
}

#[test]
fn latency_saturates_at_u64_max() {
    assert_eq!(latency_micros(15), 15);
    assert_eq!(latency_micros(u64::MAX as u128), u64::MAX);
    assert_eq!(latency_micros(u64::MAX as u128 + 1), u64::MAX);
}

#[test]
fn mixed_operations_and_worker_keys() {
    assert_eq!(mixed_op(0), MixedOp::Topup);
    assert_eq!(mixed_op(29), MixedOp::Topup);
    assert_eq!(mixed_op(30), MixedOp::Transfer);
    assert_eq!(mixed_op(79), MixedOp::Transfer);
    assert_eq!(mixed_op(80), MixedOp::HoldRoundtrip);
    assert_eq!(mixed_op(99), MixedOp::HoldRoundtrip);
    assert_eq!(worker_key(3, "mx", 17), "w3-mx-17");
}

#[test]
fn database_failure_is_counted_by_its_text() {
    let locked = AppError::Db(sqlx::Error::Protocol("database is locked".into()));
    assert_eq!(kind_of(&locked), ErrorKind::DbLockedOrBusy);
    let mut e = ErrorBreakdown::zero();
    e.bump(&locked);
    e.bump(&AppError::Db(sqlx::Error::PoolTimedOut));
    assert_eq!((e.db_locked_or_busy, e.other_db), (1, 1));
}

#[test]
fn full_counter_is_not_bumped() {
    let mut e = ErrorBreakdown::zero();
    e.conflict = u64::MAX;
    assert!(!e.try_bump(&AppError::Conflict("c")));
    assert_eq!(e.conflict, u64::MAX);
    assert!(e.try_bump(&AppError::NotFound("n")));
    assert_eq!(e.not_found, 1);
    let mut r = RunCounts::new();
    r.errors.other = u64::MAX;
    assert!(!r.try_record_err(&AppError::Internal("i")));
    assert_eq!(r.err, 0);
    assert!(r.try_record_err(&AppError::Conflict("c")));
    assert_eq!((r.err, r.errors.conflict), (1, 1));
}

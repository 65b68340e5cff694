//! Counting the failures of a load run by kind.
use vstd::prelude::*;

use crate::decimal::{decimal_nat, format_u64};
use crate::error::{sqlx_error_display, sqlx_error_text, AppError};
use crate::text::{contains, str_contains, str_to_ascii_lower, to_ascii_lower};

verus! {

/// Failures of a load run, counted by kind.
#[derive(Debug, Clone, Copy, PartialEq, Eq, Structural)]
pub struct ErrorBreakdown {
    pub conflict: u64,
    pub bad_request: u64,
    pub not_found: u64,
    pub db_locked_or_busy: u64,
    pub other_db: u64,
    pub other: u64,
}

/// The kind under which a failure is counted.
#[derive(Debug, Clone, Copy, PartialEq, Eq, Structural)]
pub enum ErrorKind {
    Conflict,
    BadRequest,
    NotFound,
    DbLockedOrBusy,
    OtherDb,
    Other,
}

/// The kind of a database failure by its message: SQLite's busy and locked reports (in any
/// letter case) are told apart from the rest.
pub open spec fn db_text_kind(text: Seq<char>) -> ErrorKind {
    let lower = to_ascii_lower(text);
    if contains(lower, "database is locked"@) || contains(lower, "database is busy"@) {
        ErrorKind::DbLockedOrBusy
    } else {
        ErrorKind::OtherDb
    }
}

/// The kind under which a failure is counted: a conflict, a bad request and a missing item
/// each under its own kind, a database failure by its `Display` text (see `db_text_kind`),
/// anything else as other.
pub open spec fn error_kind(e: AppError) -> ErrorKind {
    match e {
        AppError::Conflict(_) => ErrorKind::Conflict,
        AppError::BadRequest(_) => ErrorKind::BadRequest,
        AppError::NotFound(_) => ErrorKind::NotFound,
        AppError::Db(d) => db_text_kind(sqlx_error_display(d)),
        _ => ErrorKind::Other,
    }
}

/// `after` is `before` with the failure `e` counted under its kind.
pub open spec fn counted(before: ErrorBreakdown, after: ErrorBreakdown, e: AppError) -> bool {
    after == before.bumped(error_kind(e))
}

/// The kind of a database failure by its message (`db_text_kind`).
pub fn db_text_kind_of(text: &str) -> (r: ErrorKind)
    ensures
        r == db_text_kind(text@),
{
    let lower = str_to_ascii_lower(text);
    proof {
        reveal_strlit("database is locked");
        reveal_strlit("database is busy");
    }
    if str_contains(lower.as_str(), "database is locked") || str_contains(lower.as_str(), "database is busy") {
        ErrorKind::DbLockedOrBusy
    } else {
        ErrorKind::OtherDb
    }
}

/// The kind under which a failure is counted (`error_kind`).
pub fn kind_of(e: &AppError) -> (r: ErrorKind)
    ensures
        r == error_kind(*e),
{
    match e {
        AppError::Conflict(_) => ErrorKind::Conflict,
        AppError::BadRequest(_) => ErrorKind::BadRequest,
        AppError::NotFound(_) => ErrorKind::NotFound,
        AppError::Db(d) => {
            let text = sqlx_error_text(d);
            db_text_kind_of(text.as_str())
        },
        _ => ErrorKind::Other,
    }
}

impl ErrorBreakdown {
    /// All counters at zero.
    pub open spec fn zero_spec() -> ErrorBreakdown {
        ErrorBreakdown { conflict: 0, bad_request: 0, not_found: 0, db_locked_or_busy: 0, other_db: 0, other: 0 }
    }

    /// All counters at zero.
    pub fn zero() -> (r: Self)
        ensures
            r == Self::zero_spec(),
    {
        ErrorBreakdown { conflict: 0, bad_request: 0, not_found: 0, db_locked_or_busy: 0, other_db: 0, other: 0 }
    }

    /// The counter of a kind.
    pub open spec fn count(self, k: ErrorKind) -> u64 {
        match k {
            ErrorKind::Conflict => self.conflict,
            ErrorKind::BadRequest => self.bad_request,
            ErrorKind::NotFound => self.not_found,
            ErrorKind::DbLockedOrBusy => self.db_locked_or_busy,
            ErrorKind::OtherDb => self.other_db,
            ErrorKind::Other => self.other,
        }
    }

    /// The breakdown with one more failure of kind `k`.
    pub open spec fn bumped(self, k: ErrorKind) -> ErrorBreakdown {
        match k {
            ErrorKind::Conflict => ErrorBreakdown { conflict: (self.conflict + 1) as u64, ..self },
            ErrorKind::BadRequest => ErrorBreakdown { bad_request: (self.bad_request + 1) as u64, ..self },
            ErrorKind::NotFound => ErrorBreakdown { not_found: (self.not_found + 1) as u64, ..self },
            ErrorKind::DbLockedOrBusy => ErrorBreakdown {
                db_locked_or_busy: (self.db_locked_or_busy + 1) as u64,
                ..self
            },
            ErrorKind::OtherDb => ErrorBreakdown { other_db: (self.other_db + 1) as u64, ..self },
            ErrorKind::Other => ErrorBreakdown { other: (self.other + 1) as u64, ..self },
        }
    }

    /// Counts one failure of kind `k`.
    pub fn bump_kind(&mut self, k: ErrorKind)
        requires
            old(self).count(k) < u64::MAX,
        ensures
            *final(self) == old(self).bumped(k),
    {
        match k {
            ErrorKind::Conflict => self.conflict = self.conflict + 1,
            ErrorKind::BadRequest => self.bad_request = self.bad_request + 1,
            ErrorKind::NotFound => self.not_found = self.not_found + 1,
            ErrorKind::DbLockedOrBusy => self.db_locked_or_busy = self.db_locked_or_busy + 1,
            ErrorKind::OtherDb => self.other_db = self.other_db + 1,
            ErrorKind::Other => self.other = self.other + 1,
        }
    }

    /// The counter of a kind.
    pub fn count_of(&self, k: ErrorKind) -> (r: u64)
        ensures
            r == self.count(k),
    {
        match k {
            ErrorKind::Conflict => self.conflict,
            ErrorKind::BadRequest => self.bad_request,
            ErrorKind::NotFound => self.not_found,
            ErrorKind::DbLockedOrBusy => self.db_locked_or_busy,
            ErrorKind::OtherDb => self.other_db,
            ErrorKind::Other => self.other,
        }
    }

    /// Counts one database failure with the message `text`.
    pub fn bump_db_text(&mut self, text: &str)
        requires
            old(self).count(db_text_kind(text@)) < u64::MAX,
        ensures
            *final(self) == old(self).bumped(db_text_kind(text@)),
    {
        let k = db_text_kind_of(text);
        self.bump_kind(k);
    }

    /// Counts one failure under its kind (`error_kind`): a conflict, a bad request and a
    /// missing item each under its own kind, a database failure by its message, anything else
    /// as other.
    pub fn bump(&mut self, e: &AppError)
        requires
            old(self).count(error_kind(*e)) < u64::MAX,
        ensures
            counted(*old(self), *final(self), *e),
    {
        let k = kind_of(e);
        self.bump_kind(k);
    }

    /// Counts one failure under its kind when its counter is not yet at its maximum, and
    /// says whether it did; a full counter leaves the breakdown unchanged.
    pub fn try_bump(&mut self, e: &AppError) -> (r: bool)
        ensures
            r == (old(self).count(error_kind(*e)) < u64::MAX),
            r ==> counted(*old(self), *final(self), *e),
            !r ==> *final(self) == *old(self),
    {
        let k = kind_of(e);
        if self.count_of(k) < u64::MAX {
            self.bump_kind(k);
            true
        } else {
            false
        }
    }

    /// Adds these counts into `agg`, counter by counter.
    pub fn merge_into(&self, agg: &mut ErrorBreakdown)
        requires
            old(agg).conflict + self.conflict <= u64::MAX,
            old(agg).bad_request + self.bad_request <= u64::MAX,
            old(agg).not_found + self.not_found <= u64::MAX,
            old(agg).db_locked_or_busy + self.db_locked_or_busy <= u64::MAX,
            old(agg).other_db + self.other_db <= u64::MAX,
            old(agg).other + self.other <= u64::MAX,
        ensures
            final(agg).conflict == old(agg).conflict + self.conflict,
            final(agg).bad_request == old(agg).bad_request + self.bad_request,
            final(agg).not_found == old(agg).not_found + self.not_found,
            final(agg).db_locked_or_busy == old(agg).db_locked_or_busy + self.db_locked_or_busy,
            final(agg).other_db == old(agg).other_db + self.other_db,
            final(agg).other == old(agg).other + self.other,
    {
        agg.conflict = agg.conflict + self.conflict;
        agg.bad_request = agg.bad_request + self.bad_request;
        agg.not_found = agg.not_found + self.not_found;
        agg.db_locked_or_busy = agg.db_locked_or_busy + self.db_locked_or_busy;
        agg.other_db = agg.other_db + self.other_db;
        agg.other = agg.other + self.other;
    }
}

/// The outcome counters of one load worker.
#[derive(Debug, Clone, Copy, PartialEq, Eq, Structural)]
pub struct RunCounts {
    pub ok: u64,
    pub err: u64,
    pub errors: ErrorBreakdown,
}

impl RunCounts {
    /// No operation counted yet.
    pub fn new() -> (r: Self)
        ensures
            r.ok == 0,
            r.err == 0,
            r.errors == ErrorBreakdown::zero_spec(),
    {
        RunCounts { ok: 0, err: 0, errors: ErrorBreakdown::zero() }
    }

    /// Counts a successful operation.
    pub fn record_ok(&mut self)
        requires
            old(self).ok < u64::MAX,
        ensures
            final(self).ok == old(self).ok + 1,
            final(self).err == old(self).err,
            final(self).errors == old(self).errors,
    {
        self.ok = self.ok + 1;
    }

    /// Counts a failed operation and its kind.
    pub fn record_err(&mut self, e: &AppError)
        requires
            old(self).err < u64::MAX,
            old(self).errors.count(error_kind(*e)) < u64::MAX,
        ensures
            final(self).ok == old(self).ok,
            final(self).err == old(self).err + 1,
            counted(old(self).errors, final(self).errors, *e),
    {
        self.err = self.err + 1;
        self.errors.bump(e);
    }

    /// Counts a failed operation and its kind when neither the failure count nor the counter
    /// of its kind is at its maximum, and says whether it did; else nothing changes.
    pub fn try_record_err(&mut self, e: &AppError) -> (r: bool)
        ensures
            r == (old(self).err < u64::MAX && old(self).errors.count(error_kind(*e)) < u64::MAX),
            r ==> final(self).ok == old(self).ok && final(self).err == old(self).err + 1
                && counted(old(self).errors, final(self).errors, *e),
            !r ==> *final(self) == *old(self),
    {
        if self.err == u64::MAX {
            return false;
        }
        let k = kind_of(e);
        if self.errors.count_of(k) == u64::MAX {
            return false;
        }
        self.record_err(e);
        true
    }

    /// Adds these counts into `agg`.
    pub fn merge_into(&self, agg: &mut RunCounts)
        requires
            old(agg).ok + self.ok <= u64::MAX,
            old(agg).err + self.err <= u64::MAX,
            old(agg).errors.conflict + self.errors.conflict <= u64::MAX,
            old(agg).errors.bad_request + self.errors.bad_request <= u64::MAX,
            old(agg).errors.not_found + self.errors.not_found <= u64::MAX,
            old(agg).errors.db_locked_or_busy + self.errors.db_locked_or_busy <= u64::MAX,
            old(agg).errors.other_db + self.errors.other_db <= u64::MAX,
            old(agg).errors.other + self.errors.other <= u64::MAX,
        ensures
            final(agg).ok == old(agg).ok + self.ok,
            final(agg).err == old(agg).err + self.err,
            final(agg).errors.conflict == old(agg).errors.conflict + self.errors.conflict,
            final(agg).errors.bad_request == old(agg).errors.bad_request + self.errors.bad_request,
            final(agg).errors.not_found == old(agg).errors.not_found + self.errors.not_found,
            final(agg).errors.db_locked_or_busy == old(agg).errors.db_locked_or_busy
                + self.errors.db_locked_or_busy,
            final(agg).errors.other_db == old(agg).errors.other_db + self.errors.other_db,
            final(agg).errors.other == old(agg).errors.other + self.errors.other,
    {
        agg.ok = agg.ok + self.ok;
        agg.err = agg.err + self.err;
        self.errors.merge_into(&mut agg.errors);
    }
}

/// A latency in microseconds as the histogram records it: saturated at `u64::MAX`.
pub fn latency_micros(micros: u128) -> (r: u64)
    ensures
        r == (if micros > u64::MAX {
            u64::MAX as int
        } else {
            micros as int
        }),
{
    if micros > 0xffff_ffff_ffff_ffffu128 {
        0xffff_ffff_ffff_ffffu64
    } else {
        micros as u64
    }
}

/// The operation of a mixed load step.
#[derive(Debug, Clone, Copy, PartialEq, Eq, Structural)]
pub enum MixedOp {
    Topup,
    Transfer,
    HoldRoundtrip,
}

/// The operation that a roll of 0..100 picks in the mixed scenario: 30% top-ups, 50%
/// transfers, 20% hold round trips.
pub fn mixed_op(roll: u32) -> (r: MixedOp)
    ensures
        roll < 30 ==> r == MixedOp::Topup,
        30 <= roll < 80 ==> r == MixedOp::Transfer,
        80 <= roll ==> r == MixedOp::HoldRoundtrip,
{
    if roll < 30 {
        MixedOp::Topup
    } else if roll < 80 {
        MixedOp::Transfer
    } else {
        MixedOp::HoldRoundtrip
    }
}

/// The idempotency key of a load operation: `w<worker>-<tag>-<n>`.
pub fn worker_key(worker: u64, tag: &str, n: u64) -> (r: String)
    ensures
        r@ == "w"@ + decimal_nat(worker as nat) + "-"@ + tag@ + "-"@ + decimal_nat(n as nat),
{
    proof {
        reveal_strlit("w");
        reveal_strlit("-");
    }
    let s = "w".to_owned().concat(format_u64(worker).as_str()).concat("-").concat(tag).concat("-").concat(
        format_u64(n).as_str(),
    );
    proof {
        assert(s@ =~= "w"@ + decimal_nat(worker as nat) + "-"@ + tag@ + "-"@ + decimal_nat(n as nat));
    }
    s
}

/// Counting a failure adds one to its own counter and leaves the others unchanged, so the
/// sum of the counters grows by exactly one.
pub proof fn lemma_bump_counts_one(b: ErrorBreakdown, k: ErrorKind, j: ErrorKind)
    requires
        b.count(k) < u64::MAX,
    ensures
        b.bumped(k).count(j) == (if j == k {
            b.count(j) + 1
        } else {
            b.count(j) as int
        }),
{
}

} // verus!

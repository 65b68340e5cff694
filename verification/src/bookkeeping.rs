//! Pure core logic for double-entry bookkeeping and balance projection.
use vstd::prelude::*;

use crate::domain::{AMOUNT_MINOR_MAX, AccountId, AmountMinor, Currency, EntryDirection};

verus! {

/// One ledger entry of an operation.
#[derive(Debug, Clone, PartialEq, Eq)]
pub struct EntrySpec {
    pub account_id: AccountId,
    pub currency: Currency,
    pub direction: EntryDirection,
    pub amount_minor: AmountMinor,
}

/// The change that a set of entries makes to one (account, currency) balance row.
#[derive(Debug, Clone, PartialEq, Eq)]
pub struct ProjectionDelta {
    pub account_id: AccountId,
    pub currency: Currency,
    pub available_delta_minor: i64,
    pub hold_delta_minor: i64,
}

// ------------------------ specification ------------------------

/// The signed amount of an entry: debits negative, credits positive.
pub open spec fn entry_signed(e: EntrySpec) -> int {
    e.direction.spec_apply_sign(e.amount_minor@ as int)
}

/// The entry and the delta concern the same (account, currency) row.
pub open spec fn same_key(d: ProjectionDelta, e: EntrySpec) -> bool {
    d.account_id == e.account_id && d.currency@ == e.currency@
}

/// Addition clamped to the range of `i64` (what `i64::saturating_add` computes).
pub open spec fn sat_add(a: int, b: int) -> int {
    if a + b > i64::MAX {
        i64::MAX as int
    } else if a + b < i64::MIN {
        i64::MIN as int
    } else {
        a + b
    }
}

/// Index of the first delta of the row of `e`, or `ds.len()` when there is none.
pub open spec fn key_pos(ds: Seq<ProjectionDelta>, e: EntrySpec) -> int
    decreases ds.len(),
{
    if ds.len() == 0 {
        0
    } else if same_key(ds[0], e) {
        0
    } else {
        1 + key_pos(ds.drop_first(), e)
    }
}

/// The deltas of `entries`, processed in order: an entry adds its signed amount (saturating)
/// to the delta of its row, or starts a new delta at the end when its row has none yet.
pub open spec fn deltas_of(entries: Seq<EntrySpec>) -> Seq<ProjectionDelta>
    decreases entries.len(),
{
    if entries.len() == 0 {
        seq![]
    } else {
        let ds = deltas_of(entries.drop_last());
        let e = entries.last();
        let p = key_pos(ds, e);
        if p < ds.len() {
            ds.update(
                p,
                ProjectionDelta {
                    account_id: ds[p].account_id,
                    currency: ds[p].currency,
                    available_delta_minor: sat_add(
                        ds[p].available_delta_minor as int,
                        entry_signed(e),
                    ) as i64,
                    hold_delta_minor: ds[p].hold_delta_minor,
                },
            )
        } else {
            ds.push(
                ProjectionDelta {
                    account_id: e.account_id,
                    currency: e.currency,
                    available_delta_minor: entry_signed(e) as i64,
                    hold_delta_minor: 0,
                },
            )
        }
    }
}

/// Left fold of the available deltas with saturating addition, starting from 0.
pub open spec fn sat_fold(ds: Seq<ProjectionDelta>) -> int
    decreases ds.len(),
{
    if ds.len() == 0 {
        0
    } else {
        sat_add(sat_fold(ds.drop_last()), ds.last().available_delta_minor as int)
    }
}

/// Exact sum of the available deltas.
pub open spec fn sum_available(ds: Seq<ProjectionDelta>) -> int
    decreases ds.len(),
{
    if ds.len() == 0 {
        0
    } else {
        sum_available(ds.drop_last()) + ds.last().available_delta_minor
    }
}

/// Sum of the absolute values of the available deltas.
pub open spec fn sum_abs_available(ds: Seq<ProjectionDelta>) -> int
    decreases ds.len(),
{
    if ds.len() == 0 {
        0
    } else {
        sum_abs_available(ds.drop_last()) + abs(ds.last().available_delta_minor as int)
    }
}

/// Absolute value.
pub open spec fn abs(x: int) -> int {
    if x < 0 {
        -x
    } else {
        x
    }
}

/// Exact sum of the signed amounts of the entries.
pub open spec fn sum_signed(entries: Seq<EntrySpec>) -> int
    decreases entries.len(),
{
    if entries.len() == 0 {
        0
    } else {
        sum_signed(entries.drop_last()) + entry_signed(entries.last())
    }
}

/// Exact sum of the signed amounts of the entries of one (account, currency) row.
pub open spec fn key_sum(entries: Seq<EntrySpec>, account: AccountId, currency: Seq<char>) -> int
    decreases entries.len(),
{
    if entries.len() == 0 {
        0
    } else {
        key_sum(entries.drop_last(), account, currency) + if entries.last().account_id == account
            && entries.last().currency@ == currency {
            entry_signed(entries.last())
        } else {
            0
        }
    }
}

/// Every amount of the entries is a valid `AmountMinor`.
pub open spec fn amounts_valid(entries: Seq<EntrySpec>) -> bool {
    forall|i: int| 0 <= i < entries.len() ==> 1 <= #[trigger] entries[i].amount_minor@ <= AMOUNT_MINOR_MAX
}

/// Few enough entries that no running sum can reach the limits of `i64`.
pub open spec fn no_overflow_bound(entries: Seq<EntrySpec>) -> bool {
    entries.len() * AMOUNT_MINOR_MAX <= i64::MAX
}

/// No two deltas concern the same row.
pub open spec fn keys_distinct(ds: Seq<ProjectionDelta>) -> bool {
    forall|i: int, j: int|
        0 <= i < j < ds.len() ==> !(#[trigger] ds[i].account_id == #[trigger] ds[j].account_id
            && ds[i].currency@ == ds[j].currency@)
}

// ------------------------ executable ------------------------

/// Build a canonical pair of entries for a double-entry operation:
/// - `debit_account`: DEBIT `amount` (available decreases)
/// - `credit_account`: CREDIT `amount` (available increases)
pub fn build_double_entry(
    debit_account: AccountId,
    credit_account: AccountId,
    currency: &Currency,
    amount_minor: AmountMinor,
) -> (r: [EntrySpec; 2])
    ensures
        r@ == seq![
            EntrySpec {
                account_id: debit_account,
                currency: *currency,
                direction: EntryDirection::Debit,
                amount_minor,
            },
            EntrySpec {
                account_id: credit_account,
                currency: *currency,
                direction: EntryDirection::Credit,
                amount_minor,
            },
        ],
{
    let r = [
        EntrySpec {
            account_id: debit_account,
            currency: currency.clone(),
            direction: EntryDirection::Debit,
            amount_minor,
        },
        EntrySpec {
            account_id: credit_account,
            currency: currency.clone(),
            direction: EntryDirection::Credit,
            amount_minor,
        },
    ];
    assert(r@ =~= seq![r[0], r[1]]);
    r
}

/// `i64::saturating_add`.
pub fn saturating_add_i64(a: i64, b: i64) -> (r: i64)
    ensures
        r == sat_add(a as int, b as int),
{
    match a.checked_add(b) {
        Some(s) => s,
        None => {
            if b > 0 {
                i64::MAX
            } else {
                i64::MIN
            }
        },
    }
}

/// Does the delta concern the row of the entry?
fn key_matches(d: &ProjectionDelta, e: &EntrySpec) -> (r: bool)
    ensures
        r == same_key(*d, *e),
{
    d.account_id == e.account_id && d.currency.same_as(&e.currency)
}

proof fn lemma_key_pos(ds: Seq<ProjectionDelta>, e: EntrySpec, j: int)
    requires
        0 <= j <= ds.len(),
        forall|k: int| 0 <= k < j ==> !same_key(#[trigger] ds[k], e),
        j < ds.len() ==> same_key(ds[j], e),
    ensures
        key_pos(ds, e) == j,
    decreases j,
{
    if j > 0 {
        let t = ds.drop_first();
        assert forall|k: int| 0 <= k < j - 1 implies !same_key(#[trigger] t[k], e) by {
            assert(t[k] == ds[k + 1]);
        }
        if j - 1 < t.len() {
            assert(t[j - 1] == ds[j]);
        }
        lemma_key_pos(t, e, j - 1);
    }
}

/// Convert entries into balance projection deltas (available/hold).
///
/// Current semantics:
/// - DEBIT reduces available
/// - CREDIT increases available
/// - hold is unchanged
pub fn projection_deltas_from_entries(entries: &[EntrySpec]) -> (r: Vec<ProjectionDelta>)
    ensures
        r@ == deltas_of(entries@),
{
    let mut deltas: Vec<ProjectionDelta> = Vec::new();
    for i in 0..entries.len()
        invariant
            deltas@ == deltas_of(entries@.subrange(0, i as int)),
    {
        let e = &entries[i];
        let signed = e.direction.apply_sign(e.amount_minor.as_i64());
        let n = deltas.len();
        let mut j: usize = 0;
        while j < n && !key_matches(&deltas[j], e)
            invariant
                n == deltas@.len(),
                j <= n,
                forall|k: int| 0 <= k < j ==> !same_key(#[trigger] deltas@[k], *e),
            decreases n - j,
        {
            j = j + 1;
        }
        proof {
            lemma_key_pos(deltas@, *e, j as int);
            let s = entries@.subrange(0, i + 1);
            assert(s.drop_last() =~= entries@.subrange(0, i as int));
            assert(s.last() == *e);
        }
        if j < n {
            let v = saturating_add_i64(deltas[j].available_delta_minor, signed);
            deltas[j].available_delta_minor = v;
        } else {
            deltas.push(
                ProjectionDelta {
                    account_id: e.account_id,
                    currency: e.currency.clone(),
                    available_delta_minor: signed,
                    hold_delta_minor: 0,
                },
            );
        }
        assert(deltas@ =~= deltas_of(entries@.subrange(0, i + 1)));
    }
    assert(entries@.subrange(0, entries@.len() as int) =~= entries@);
    deltas
}

/// Convenience helper: the sum of signed deltas across all accounts should be zero
/// for any well-formed double-entry operation.
pub fn check_zero_sum(deltas: &[ProjectionDelta]) -> (r: bool)
    ensures
        r == (sat_fold(deltas@) == 0),
{
    let mut sum: i64 = 0;
    for i in 0..deltas.len()
        invariant
            sum == sat_fold(deltas@.subrange(0, i as int)),
    {
        proof {
            let s = deltas@.subrange(0, i + 1);
            assert(s.drop_last() =~= deltas@.subrange(0, i as int));
        }
        sum = saturating_add_i64(sum, deltas[i].available_delta_minor);
    }
    assert(deltas@.subrange(0, deltas@.len() as int) =~= deltas@);
    sum == 0
}

// ------------------------ laws ------------------------

/// A debit entry followed by a credit entry of the same amount and currency.
pub open spec fn is_double_entry_pair(d: EntrySpec, c: EntrySpec) -> bool {
    &&& d.direction == EntryDirection::Debit
    &&& c.direction == EntryDirection::Credit
    &&& d.amount_minor == c.amount_minor
    &&& d.currency@ == c.currency@
}

/// A sequence of double-entry pairs: the entries of well-formed double-entry operations.
pub open spec fn is_double_entry_sequence(es: Seq<EntrySpec>) -> bool {
    &&& es.len() % 2 == 0
    &&& forall|i: int| 0 <= i < es.len() && i % 2 == 0 ==> is_double_entry_pair(#[trigger] es[i], es[i + 1])
}

proof fn lemma_key_pos_props(ds: Seq<ProjectionDelta>, e: EntrySpec)
    ensures
        0 <= key_pos(ds, e) <= ds.len(),
        key_pos(ds, e) < ds.len() ==> same_key(ds[key_pos(ds, e)], e),
        forall|k: int| 0 <= k < key_pos(ds, e) ==> !same_key(#[trigger] ds[k], e),
    decreases ds.len(),
{
    if ds.len() > 0 && !same_key(ds[0], e) {
        let t = ds.drop_first();
        lemma_key_pos_props(t, e);
        assert forall|k: int| 0 <= k < key_pos(ds, e) implies !same_key(#[trigger] ds[k], e) by {
            if k > 0 {
                assert(ds[k] == t[k - 1]);
            }
        }
    }
}

proof fn lemma_sum_update(ds: Seq<ProjectionDelta>, p: int, d: ProjectionDelta)
    requires
        0 <= p < ds.len(),
    ensures
        sum_available(ds.update(p, d)) == sum_available(ds) - ds[p].available_delta_minor
            + d.available_delta_minor,
        sum_abs_available(ds.update(p, d)) == sum_abs_available(ds) - abs(
            ds[p].available_delta_minor as int,
        ) + abs(d.available_delta_minor as int),
    decreases ds.len(),
{
    let u = ds.update(p, d);
    if p == ds.len() - 1 {
        assert(u.drop_last() =~= ds.drop_last());
    } else {
        lemma_sum_update(ds.drop_last(), p, d);
        assert(u.drop_last() =~= ds.drop_last().update(p, d));
    }
}

proof fn lemma_abs_le_sum_abs(ds: Seq<ProjectionDelta>, p: int)
    requires
        0 <= p < ds.len(),
    ensures
        abs(ds[p].available_delta_minor as int) <= sum_abs_available(ds),
    decreases ds.len(),
{
    lemma_sum_abs_nonneg(ds.drop_last());
    if p < ds.len() - 1 {
        lemma_abs_le_sum_abs(ds.drop_last(), p);
    }
}

proof fn lemma_sum_abs_nonneg(ds: Seq<ProjectionDelta>)
    ensures
        sum_abs_available(ds) >= 0,
    decreases ds.len(),
{
    if ds.len() > 0 {
        lemma_sum_abs_nonneg(ds.drop_last());
    }
}

proof fn lemma_key_sum_zero(es: Seq<EntrySpec>, a: AccountId, c: Seq<char>)
    requires
        forall|k: int| 0 <= k < es.len() ==> !(#[trigger] es[k].account_id == a && es[k].currency@ == c),
    ensures
        key_sum(es, a, c) == 0,
    decreases es.len(),
{
    if es.len() > 0 {
        let t = es.drop_last();
        assert forall|k: int| 0 <= k < t.len() implies !(#[trigger] t[k].account_id == a
            && t[k].currency@ == c) by {
            assert(t[k] == es[k]);
        }
        lemma_key_sum_zero(t, a, c);
        assert(es.last() == es[es.len() - 1]);
    }
}

proof fn lemma_entry_signed_bound(e: EntrySpec)
    requires
        1 <= e.amount_minor@ <= AMOUNT_MINOR_MAX,
    ensures
        abs(entry_signed(e)) <= AMOUNT_MINOR_MAX,
{
}

/// Induction on the entries for the laws of `projection_deltas_from_entries`.
proof fn lemma_deltas_inv(entries: Seq<EntrySpec>)
    requires
        amounts_valid(entries),
        no_overflow_bound(entries),
    ensures
        keys_distinct(deltas_of(entries)),
        forall|i: int|
            0 <= i < deltas_of(entries).len() ==> (#[trigger] deltas_of(entries)[i]).hold_delta_minor
                == 0,
        forall|i: int|
            0 <= i < deltas_of(entries).len() ==> (#[trigger] deltas_of(entries)[i]).available_delta_minor
                == key_sum(entries, deltas_of(entries)[i].account_id, deltas_of(entries)[i].currency@),
        forall|k: int| 0 <= k < entries.len() ==> key_pos(deltas_of(entries), #[trigger] entries[k]) < deltas_of(entries).len(),
        sum_available(deltas_of(entries)) == sum_signed(entries),
        sum_abs_available(deltas_of(entries)) <= entries.len() * AMOUNT_MINOR_MAX,
    decreases entries.len(),
{
    if entries.len() == 0 {
        return;
    }
    let prev = entries.drop_last();
    let e = entries.last();
    let n = entries.len();
    assert(e == entries[n - 1]);
    assert forall|i: int| 0 <= i < prev.len() implies 1 <= #[trigger] prev[i].amount_minor@ <= AMOUNT_MINOR_MAX by {
        assert(prev[i] == entries[i]);
    }
    assert((n - 1) * AMOUNT_MINOR_MAX <= n * AMOUNT_MINOR_MAX) by (nonlinear_arith)
        requires n >= 1;
    lemma_deltas_inv(prev);
    let ds = deltas_of(prev);
    let p = key_pos(ds, e);
    lemma_key_pos_props(ds, e);
    lemma_entry_signed_bound(e);
    lemma_sum_abs_nonneg(ds);
    let s = entry_signed(e);
    let out = deltas_of(entries);
    assert(n * AMOUNT_MINOR_MAX == (n - 1) * AMOUNT_MINOR_MAX + AMOUNT_MINOR_MAX) by (nonlinear_arith);
    if p < ds.len() {
        let old_d = ds[p];
        lemma_abs_le_sum_abs(ds, p);
        assert(sat_add(old_d.available_delta_minor as int, s) == old_d.available_delta_minor + s);
        let nd = ProjectionDelta {
            account_id: old_d.account_id,
            currency: old_d.currency,
            available_delta_minor: (old_d.available_delta_minor + s) as i64,
            hold_delta_minor: old_d.hold_delta_minor,
        };
        assert(out == ds.update(p, nd));
        lemma_sum_update(ds, p, nd);
        assert(abs(nd.available_delta_minor as int) <= abs(old_d.available_delta_minor as int) + abs(s));
        assert forall|i: int| 0 <= i < out.len() implies (#[trigger] out[i]).available_delta_minor
            == key_sum(entries, out[i].account_id, out[i].currency@) by {
            if i != p {
                assert(out[i] == ds[i]);
                if i < p {
                    assert(!(ds[i].account_id == ds[p].account_id && ds[i].currency@ == ds[p].currency@));
                } else {
                    assert(!(ds[p].account_id == ds[i].account_id && ds[p].currency@ == ds[i].currency@));
                }
            }
        }
        assert forall|k: int| 0 <= k < entries.len() implies key_pos(out, #[trigger] entries[k]) < out.len() by {
            let x = entries[k];
            lemma_key_pos_props(out, x);
            if k < n - 1 {
                assert(prev[k] == x);
                lemma_key_pos_props(ds, x);
                let j = key_pos(ds, x);
                assert(same_key(out[j], x));
            } else {
                assert(same_key(out[p], x));
            }
        }
        assert(keys_distinct(out)) by {
            assert forall|i: int, j: int| 0 <= i < j < out.len() implies !(#[trigger] out[i].account_id
                == #[trigger] out[j].account_id && out[i].currency@ == out[j].currency@) by {
                assert(!(ds[i].account_id == ds[j].account_id && ds[i].currency@ == ds[j].currency@));
            }
        }
        assert forall|i: int| 0 <= i < out.len() implies (#[trigger] out[i]).hold_delta_minor == 0 by {
            assert(ds[i].hold_delta_minor == 0);
        }
    } else {
        let nd = ProjectionDelta {
            account_id: e.account_id,
            currency: e.currency,
            available_delta_minor: s as i64,
            hold_delta_minor: 0,
        };
        assert(out == ds.push(nd));
        assert(out.drop_last() =~= ds);
        assert forall|k: int| 0 <= k < prev.len() implies !(#[trigger] prev[k].account_id == e.account_id
            && prev[k].currency@ == e.currency@) by {
            lemma_key_pos_props(ds, prev[k]);
            let j = key_pos(ds, prev[k]);
            assert(same_key(ds[j], prev[k]));
            assert(!same_key(ds[j], e));
        }
        lemma_key_sum_zero(prev, e.account_id, e.currency@);
        assert forall|i: int| 0 <= i < out.len() implies (#[trigger] out[i]).available_delta_minor
            == key_sum(entries, out[i].account_id, out[i].currency@) by {
            if i < ds.len() {
                assert(out[i] == ds[i]);
                assert(!same_key(ds[i], e));
            }
        }
        assert forall|k: int| 0 <= k < entries.len() implies key_pos(out, #[trigger] entries[k]) < out.len() by {
            let x = entries[k];
            lemma_key_pos_props(out, x);
            if k < n - 1 {
                assert(prev[k] == x);
                lemma_key_pos_props(ds, x);
                let j = key_pos(ds, x);
                assert(same_key(out[j], x));
            } else {
                assert(same_key(out[ds.len() as int], x));
            }
        }
        assert(keys_distinct(out)) by {
            assert forall|i: int, j: int| 0 <= i < j < out.len() implies !(#[trigger] out[i].account_id
                == #[trigger] out[j].account_id && out[i].currency@ == out[j].currency@) by {
                if j == ds.len() {
                    assert(!same_key(ds[i], e));
                } else {
                    assert(!(ds[i].account_id == ds[j].account_id && ds[i].currency@ == ds[j].currency@));
                }
            }
        }
        assert forall|i: int| 0 <= i < out.len() implies (#[trigger] out[i]).hold_delta_minor == 0 by {
            if i < ds.len() {
                assert(ds[i].hold_delta_minor == 0);
            }
        }
    }
}

/// Law: `projection_deltas_from_entries` yields one delta per (account, currency) row that the
/// entries touch, with no row twice; each delta leaves the hold unchanged and changes the
/// available balance by exactly the signed sum of that row's entries.
pub proof fn lemma_deltas_aggregate_per_row(entries: Seq<EntrySpec>)
    requires
        amounts_valid(entries),
        no_overflow_bound(entries),
    ensures
        keys_distinct(deltas_of(entries)),
        forall|i: int|
            0 <= i < deltas_of(entries).len() ==> (#[trigger] deltas_of(entries)[i]).hold_delta_minor
                == 0,
        forall|i: int|
            0 <= i < deltas_of(entries).len() ==> (#[trigger] deltas_of(entries)[i]).available_delta_minor
                == key_sum(entries, deltas_of(entries)[i].account_id, deltas_of(entries)[i].currency@),
        forall|k: int|
            #![trigger entries[k]]
            0 <= k < entries.len() ==> exists|i: int|
                0 <= i < deltas_of(entries).len() && same_key(#[trigger] deltas_of(entries)[i], entries[k]),
        forall|i: int|
            #![trigger deltas_of(entries)[i]]
            0 <= i < deltas_of(entries).len() ==> exists|k: int|
                0 <= k < entries.len() && same_key(deltas_of(entries)[i], #[trigger] entries[k]),
{
    lemma_deltas_inv(entries);
    let ds = deltas_of(entries);
    assert forall|k: int| #![trigger entries[k]] 0 <= k < entries.len() implies exists|i: int|
        0 <= i < ds.len() && same_key(#[trigger] ds[i], entries[k]) by {
        lemma_key_pos_props(ds, entries[k]);
        let i = key_pos(ds, entries[k]);
        assert(same_key(ds[i], entries[k]));
    }
    lemma_deltas_rows_come_from_entries(entries);
}

proof fn lemma_deltas_rows_come_from_entries(entries: Seq<EntrySpec>)
    ensures
        forall|i: int|
            #![trigger deltas_of(entries)[i]]
            0 <= i < deltas_of(entries).len() ==> exists|k: int|
                0 <= k < entries.len() && same_key(deltas_of(entries)[i], #[trigger] entries[k]),
    decreases entries.len(),
{
    if entries.len() > 0 {
        let prev = entries.drop_last();
        let e = entries.last();
        lemma_deltas_rows_come_from_entries(prev);
        let ds = deltas_of(prev);
        let out = deltas_of(entries);
        let p = key_pos(ds, e);
        lemma_key_pos_props(ds, e);
        assert forall|i: int| #![trigger out[i]] 0 <= i < out.len() implies exists|k: int|
            0 <= k < entries.len() && same_key(out[i], #[trigger] entries[k]) by {
            if i < ds.len() {
                assert(out[i].account_id == ds[i].account_id && out[i].currency@ == ds[i].currency@);
                let k = choose|k: int| 0 <= k < prev.len() && same_key(ds[i], #[trigger] prev[k]);
                assert(prev[k] == entries[k]);
                assert(same_key(out[i], entries[k]));
            } else {
                assert(same_key(out[i], entries[entries.len() - 1]));
            }
        }
    }
}

proof fn lemma_sat_fold_exact(ds: Seq<ProjectionDelta>)
    requires
        sum_abs_available(ds) <= i64::MAX,
    ensures
        sat_fold(ds) == sum_available(ds),
        abs(sum_available(ds)) <= sum_abs_available(ds),
    decreases ds.len(),
{
    if ds.len() > 0 {
        let t = ds.drop_last();
        lemma_sum_abs_nonneg(t);
        lemma_sat_fold_exact(t);
    }
}

proof fn lemma_double_entry_sequence_sum(es: Seq<EntrySpec>)
    requires
        is_double_entry_sequence(es),
    ensures
        sum_signed(es) == 0,
    decreases es.len(),
{
    if es.len() > 0 {
        let n = es.len();
        let t = es.subrange(0, n - 2);
        assert(es[n - 2] == es[n - 2]);
        assert(is_double_entry_pair(es[n - 2], es[n - 1]));
        assert forall|i: int| 0 <= i < t.len() && i % 2 == 0 implies is_double_entry_pair(
            #[trigger] t[i],
            t[i + 1],
        ) by {
            assert(is_double_entry_pair(es[i], es[i + 1]));
        }
        lemma_double_entry_sequence_sum(t);
        assert(es.drop_last().drop_last() =~= t);
        assert(es.drop_last().last() == es[n - 2]);
        assert(es.last() == es[n - 1]);
        assert(sum_signed(es.drop_last()) == sum_signed(t) + entry_signed(es[n - 2]));
        assert(entry_signed(es[n - 2]) + entry_signed(es[n - 1]) == 0);
    }
}

/// Law: the deltas of any well-formed double-entry operation (a sequence of debit/credit pairs)
/// sum to zero, so `check_zero_sum` holds of them.
pub proof fn lemma_double_entry_deltas_zero_sum(entries: Seq<EntrySpec>)
    requires
        is_double_entry_sequence(entries),
        amounts_valid(entries),
        no_overflow_bound(entries),
    ensures
        sat_fold(deltas_of(entries)) == 0,
{
    lemma_deltas_inv(entries);
    lemma_double_entry_sequence_sum(entries);
    lemma_sat_fold_exact(deltas_of(entries));
}

/// Law: `build_double_entry` yields a well-formed double-entry pair.
pub proof fn lemma_build_double_entry_well_formed(
    debit_account: AccountId,
    credit_account: AccountId,
    currency: Currency,
    amount_minor: AmountMinor,
)
    ensures
        is_double_entry_sequence(
            seq![
                EntrySpec {
                    account_id: debit_account,
                    currency,
                    direction: EntryDirection::Debit,
                    amount_minor,
                },
                EntrySpec {
                    account_id: credit_account,
                    currency,
                    direction: EntryDirection::Credit,
                    amount_minor,
                },
            ],
        ),
{
}

/// Law: concatenating the entries of well-formed double-entry operations is well-formed.
pub proof fn lemma_double_entry_concat(a: Seq<EntrySpec>, b: Seq<EntrySpec>)
    requires
        is_double_entry_sequence(a),
        is_double_entry_sequence(b),
    ensures
        is_double_entry_sequence(a + b),
{
    let c = a + b;
    assert forall|i: int| 0 <= i < c.len() && i % 2 == 0 implies is_double_entry_pair(
        #[trigger] c[i],
        c[i + 1],
    ) by {
        if i < a.len() {
            assert(c[i] == a[i] && c[i + 1] == a[i + 1]);
        } else {
            assert(c[i] == b[i - a.len()] && c[i + 1] == b[i + 1 - a.len()]);
            assert(is_double_entry_pair(b[i - a.len()], b[i - a.len() + 1]));
        }
    }
}


/// The two entries that `build_double_entry` makes: `debit` is debited and `credit` credited
/// by `amount` in `currency`.
pub open spec fn double_entry_pair(
    debit: AccountId,
    credit: AccountId,
    currency: Currency,
    amount: AmountMinor,
) -> Seq<EntrySpec> {
    seq![
        EntrySpec { account_id: debit, currency, direction: EntryDirection::Debit, amount_minor: amount },
        EntrySpec { account_id: credit, currency, direction: EntryDirection::Credit, amount_minor: amount },
    ]
}

/// Law: two operations between the same two accounts in one currency aggregate to one delta
/// per account: the debited account loses, and the credited account gains, the sum of the
/// two amounts; the deltas sum to zero.
pub proof fn lemma_two_pairs_aggregate(
    debit: AccountId,
    credit: AccountId,
    currency: Currency,
    a: AmountMinor,
    b: AmountMinor,
)
    requires
        debit != credit,
        a@ <= AMOUNT_MINOR_MAX,
        b@ <= AMOUNT_MINOR_MAX,
    ensures
        ({
            let ds = deltas_of(double_entry_pair(debit, credit, currency, a) + double_entry_pair(debit, credit, currency, b));
            &&& ds.len() == 2
            &&& ds[0].account_id == debit && ds[0].currency@ == currency@
            &&& ds[0].available_delta_minor == -(a@ + b@) && ds[0].hold_delta_minor == 0
            &&& ds[1].account_id == credit && ds[1].currency@ == currency@
            &&& ds[1].available_delta_minor == a@ + b@ && ds[1].hold_delta_minor == 0
            &&& sat_fold(ds) == 0
        }),
{
    let p = double_entry_pair(debit, credit, currency, a);
    let q = double_entry_pair(debit, credit, currency, b);
    let es = p + q;
    let e1 = seq![es[0]];
    let e2 = seq![es[0], es[1]];
    let e3 = seq![es[0], es[1], es[2]];
    assert(es.drop_last() =~= e3);
    assert(e3.drop_last() =~= e2);
    assert(e2.drop_last() =~= e1);
    assert(e1.drop_last() =~= Seq::<EntrySpec>::empty());
    let d1 = deltas_of(e1);
    assert(key_pos(deltas_of(Seq::<EntrySpec>::empty()), es[0]) == 0);
    assert(d1.len() == 1);
    let d2 = deltas_of(e2);
    assert(key_pos(d1, es[1]) == 1) by {
        assert(!same_key(d1[0], es[1]));
        assert(d1.drop_first().len() == 0);
        assert(key_pos(d1.drop_first(), es[1]) == 0);
    }
    assert(d2.len() == 2);
    let d3 = deltas_of(e3);
    assert(key_pos(d2, es[2]) == 0) by {
        assert(same_key(d2[0], es[2]));
    }
    assert(d3.len() == 2);
    let d4 = deltas_of(es);
    assert(key_pos(d3, es[3]) == 1) by {
        assert(!same_key(d3[0], es[3]));
        assert(same_key(d3.drop_first()[0], es[3]));
        assert(key_pos(d3.drop_first(), es[3]) == 0);
    }
    assert(d4.len() == 2);
    assert(d4[0].available_delta_minor == -(a@ + b@));
    assert(d4[1].available_delta_minor == a@ + b@);
    assert(d4.drop_last().drop_last() =~= Seq::<ProjectionDelta>::empty());
    assert(sat_fold(d4.drop_last().drop_last()) == 0);
    assert(d4.drop_last().last() == d4[0]);
    assert(sat_fold(d4.drop_last()) == -(a@ + b@));
    assert(d4.last() == d4[1]);
    assert(sat_fold(d4) == 0);
}

} // verus!

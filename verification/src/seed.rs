//! The arithmetic and the key texts of the demo seed data.
use vstd::prelude::*;

use crate::decimal::{decimal_nat, format_u64};
use crate::domain::{Currency, UserId};
use crate::error::{AppError, AppResult};

verus! {

/// One step of the top-up plan: the amount divided by `divisor`, at least 1.
pub open spec fn plan_step(amount_major: int, divisor: int) -> int {
    if amount_major > 0 && amount_major / divisor >= 1 {
        amount_major / divisor
    } else {
        1
    }
}

/// The three top-ups that the seed posts on an account, in major units: the amount itself,
/// a tenth and a twentieth of it (each of the last two at least 1).
pub fn topup_plan(amount_major: i64) -> (r: Vec<i64>)
    ensures
        r@ == seq![amount_major, plan_step(amount_major as int, 10) as i64, plan_step(amount_major as int, 20) as i64],
{
    let tenth: i64 = if amount_major > 0 && amount_major / 10 >= 1 {
        amount_major / 10
    } else {
        1
    };
    let twentieth: i64 = if amount_major > 0 && amount_major / 20 >= 1 {
        amount_major / 20
    } else {
        1
    };
    let mut r: Vec<i64> = Vec::new();
    r.push(amount_major);
    r.push(tenth);
    r.push(twentieth);
    r
}

/// What the seed tops up on the sender before a transfer: nothing when the available balance
/// covers the amount, else three times the deficit; an overflow is an internal error.
pub fn prefund_amount(available: i64, amount_minor: i64) -> (r: AppResult<Option<i64>>)
    requires
        amount_minor - available <= i64::MAX,
    ensures
        r == (if available >= amount_minor {
            Ok(None)
        } else if 3 * (amount_minor - available) <= i64::MAX {
            Ok(Some((3 * (amount_minor - available)) as i64))
        } else {
            Err(AppError::Internal("amount overflow"))
        }),
{
    if available >= amount_minor {
        return Ok(None);
    }
    let deficit: i64 = amount_minor - available;
    match deficit.checked_mul(3) {
        Some(p) => Ok(Some(p)),
        None => Err(AppError::Internal("amount overflow")),
    }
}

/// Law: the prefund top-up covers the transfer it is made for: after it, the sender has at
/// least the amount available.
pub proof fn lemma_prefund_covers_transfer(available: int, amount_minor: int)
    requires
        available < amount_minor,
    ensures
        available + 3 * (amount_minor - available) >= amount_minor,
{
}

/// Ten to the power `e`.
pub open spec fn pow10(e: nat) -> int
    decreases e,
{
    if e == 0 {
        1
    } else {
        10 * pow10((e - 1) as nat)
    }
}

/// Powers of ten grow with the exponent.
pub proof fn lemma_pow10_monotonic(a: nat, b: nat)
    requires
        a <= b,
    ensures
        1 <= pow10(a) <= pow10(b),
    decreases b,
{
    if b > a {
        lemma_pow10_monotonic(a, (b - 1) as nat);
    } else if a > 0 {
        lemma_pow10_monotonic((a - 1) as nat, (a - 1) as nat);
    }
}

/// `10_i64.checked_pow(e)`: `Some(10^e)` when it fits in an `i64`.
fn checked_pow10(e: u32) -> (r: Option<i64>)
    ensures
        pow10(e as nat) <= i64::MAX ==> r == Some(pow10(e as nat) as i64),
        pow10(e as nat) > i64::MAX ==> r is None,
{
    let mut factor: i64 = 1;
    let mut i: u32 = 0;
    while i < e
        invariant
            i <= e,
            factor == pow10(i as nat),
            1 <= factor,
        decreases e - i,
    {
        match factor.checked_mul(10) {
            Some(f) => {
                factor = f;
                i = i + 1;
            },
            None => {
                proof {
                    lemma_pow10_monotonic((i + 1) as nat, e as nat);
                }
                return None;
            },
        }
    }
    Some(factor)
}

/// The outcome of converting an amount in major units with the currency's number of minor
/// units (taken as a `u32`, as the cast does).
pub open spec fn minor_from_major(minor_units: i64, amount_major: i64) -> Result<int, AppError> {
    let factor = pow10((minor_units as u32) as nat);
    if factor > i64::MAX {
        Err(AppError::Internal("minor units overflow"))
    } else if amount_major * factor > i64::MAX || amount_major * factor < i64::MIN {
        Err(AppError::Internal("amount overflow"))
    } else {
        Ok(amount_major * factor)
    }
}

/// An amount in major units expressed in minor units, with the currency's number of minor
/// units as the store keeps it.
pub fn amount_minor_from_major(minor_units: i64, amount_major: i64) -> (r: AppResult<i64>)
    ensures
        match minor_from_major(minor_units, amount_major) {
            Ok(v) => r matches Ok(x) && x == v,
            Err(e) => r matches Err(x) && x == e,
        },
{
    let e: u32 = minor_units as u32;
    proof {
        lemma_pow10_monotonic(0, e as nat);
    }
    let factor = match checked_pow10(e) {
        Some(f) => f,
        None => {
            return Err(AppError::Internal("minor units overflow"));
        },
    };
    match amount_major.checked_mul(factor) {
        Some(v) => Ok(v),
        None => Err(AppError::Internal("amount overflow")),
    }
}

/// The idempotency key of the `idx`-th seed top-up of a user's currency account.
pub open spec fn seed_topup_key_text(user: Seq<char>, currency: Seq<char>, idx: nat) -> Seq<char> {
    "seed:"@ + user + ":"@ + currency + ":topup"@ + decimal_nat(idx)
}

/// The idempotency key of the seed top-up that funds a transfer.
pub open spec fn seed_prefund_key_text(from: Seq<char>, to: Seq<char>, currency: Seq<char>) -> Seq<char> {
    "seed:prefund:"@ + from + ":"@ + to + ":"@ + currency
}

/// The idempotency key of a seed transfer.
pub open spec fn seed_transfer_key_text(from: Seq<char>, to: Seq<char>, currency: Seq<char>) -> Seq<char> {
    "seed:transfer:"@ + from + ":"@ + to + ":"@ + currency
}

/// `seed:<user>:<currency>:topup<idx>`.
pub fn seed_topup_key(user_id: &UserId, currency: &Currency, idx: u64) -> (r: String)
    ensures
        r@ == seed_topup_key_text(user_id@, currency@, idx as nat),
{
    proof {
        reveal_strlit("seed:");
        reveal_strlit(":");
        reveal_strlit(":topup");
    }
    let mut s = "seed:".to_owned();
    s = s.concat(user_id.as_str());
    s = s.concat(":");
    s = s.concat(currency.as_str());
    s = s.concat(":topup");
    s = s.concat(format_u64(idx).as_str());
    proof {
        assert(s@ =~= seed_topup_key_text(user_id@, currency@, idx as nat));
    }
    s
}

/// `seed:<tag>:<from>:<to>:<currency>`, for a tag of `prefund:` or `transfer:` already in `head`.
fn pair_key(head: &str, from: &UserId, to: &UserId, currency: &Currency) -> (r: String)
    ensures
        r@ == head@ + from@ + ":"@ + to@ + ":"@ + currency@,
{
    proof {
        reveal_strlit(":");
    }
    let mut s = head.to_owned();
    s = s.concat(from.as_str());
    s = s.concat(":");
    s = s.concat(to.as_str());
    s = s.concat(":");
    s = s.concat(currency.as_str());
    proof {
        assert(s@ =~= head@ + from@ + ":"@ + to@ + ":"@ + currency@);
    }
    s
}

/// `seed:prefund:<from>:<to>:<currency>`.
pub fn seed_prefund_key(from: &UserId, to: &UserId, currency: &Currency) -> (r: String)
    ensures
        r@ == seed_prefund_key_text(from@, to@, currency@),
{
    pair_key("seed:prefund:", from, to, currency)
}

/// `seed:transfer:<from>:<to>:<currency>`.
pub fn seed_transfer_key(from: &UserId, to: &UserId, currency: &Currency) -> (r: String)
    ensures
        r@ == seed_transfer_key_text(from@, to@, currency@),
{
    pair_key("seed:transfer:", from, to, currency)
}

} // verus!

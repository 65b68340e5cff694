//! Decimal text of integers: formatting (as `Display` does) and parsing (as `FromStr` does).
use vstd::prelude::*;

use crate::text::{chars_of, string_from_chars};

verus! {

/// The ASCII digit of a value below 10.
pub open spec fn digit_char(d: nat) -> char {
    ((('0' as u32) as nat) + d) as char
}

/// The value of an ASCII digit.
pub open spec fn digit_value(c: char) -> nat {
    ((c as u32) - ('0' as u32)) as nat
}

/// `c` is an ASCII digit.
pub open spec fn is_digit(c: char) -> bool {
    '0' <= c <= '9'
}

/// Decimal digits of `n`, without leading zeros ("0" for zero).
pub open spec fn decimal_nat(n: nat) -> Seq<char>
    decreases n,
{
    if n < 10 {
        seq![digit_char(n)]
    } else {
        decimal_nat(n / 10).push(digit_char(n % 10))
    }
}

/// Decimal text of an integer: a minus sign before the digits of a negative value.
pub open spec fn decimal_int(n: int) -> Seq<char> {
    if n < 0 {
        seq!['-'] + decimal_nat((-n) as nat)
    } else {
        decimal_nat(n as nat)
    }
}

/// All characters are ASCII digits.
pub open spec fn all_digits(s: Seq<char>) -> bool {
    forall|i: int| 0 <= i < s.len() ==> is_digit(#[trigger] s[i])
}

/// The value of a sequence of digits.
pub open spec fn digits_value(s: Seq<char>) -> nat
    decreases s.len(),
{
    if s.len() == 0 {
        0
    } else {
        digits_value(s.drop_last()) * 10 + digit_value(s.last())
    }
}

/// What `str::parse::<i64>` accepts and gives: an optional `+` or `-`, then at least one
/// ASCII digit and nothing else, with a value in the range of `i64`.
pub open spec fn parse_i64_spec(s: Seq<char>) -> Option<i64> {
    if s.len() == 0 {
        None
    } else {
        let neg = s[0] == '-';
        let digits = if s[0] == '-' || s[0] == '+' {
            s.drop_first()
        } else {
            s
        };
        if digits.len() == 0 || !all_digits(digits) {
            None
        } else {
            let v: int = if neg {
                -(digits_value(digits) as int)
            } else {
                digits_value(digits) as int
            };
            if i64::MIN <= v <= i64::MAX {
                Some(v as i64)
            } else {
                None
            }
        }
    }
}

/// The ASCII digit of `d`.
fn digit_char_exec(d: u64) -> (c: char)
    requires
        d < 10,
    ensures
        c == digit_char(d as nat),
{
    let b: u8 = 48 + (d as u8);
    b as char
}

/// Decimal digits of an unsigned value.
pub fn format_u64(n: u64) -> (r: String)
    ensures
        r@ == decimal_nat(n as nat),
{
    let v = digits_of_u64(n);
    string_from_chars(&v)
}

fn digits_of_u64(n: u64) -> (r: Vec<char>)
    ensures
        r@ == decimal_nat(n as nat),
    decreases n,
{
    if n < 10 {
        let mut v: Vec<char> = Vec::new();
        v.push(digit_char_exec(n));
        assert(v@ =~= seq![digit_char(n as nat)]);
        v
    } else {
        let mut v = digits_of_u64(n / 10);
        v.push(digit_char_exec(n % 10));
        v
    }
}

/// Decimal text of a signed value (what `Display for i64` writes).
pub fn format_i64(n: i64) -> (r: String)
    ensures
        r@ == decimal_int(n as int),
{
    if n < 0 {
        let m: u64 = if n == i64::MIN {
            9_223_372_036_854_775_808u64
        } else {
            (-n) as u64
        };
        let digits = digits_of_u64(m);
        let mut v: Vec<char> = Vec::new();
        v.push('-');
        let mut i: usize = 0;
        while i < digits.len()
            invariant
                v@ == seq!['-'] + digits@.subrange(0, i as int),
                i <= digits@.len(),
            decreases digits@.len() - i,
        {
            v.push(digits[i]);
            assert(v@ =~= seq!['-'] + digits@.subrange(0, i + 1));
            i = i + 1;
        }
        assert(digits@.subrange(0, digits@.len() as int) =~= digits@);
        string_from_chars(&v)
    } else {
        format_u64(n as u64)
    }
}

/// `str::parse::<i64>`, with any error as `None`.
pub fn parse_i64(s: &str) -> (r: Option<i64>)
    ensures
        r == parse_i64_spec(s@),
{
    let v = chars_of(s);
    let n = v.len();
    if n == 0 {
        return None;
    }
    let neg = v[0] == '-';
    let start: usize = if v[0] == '-' || v[0] == '+' {
        1
    } else {
        0
    };
    let ghost digits = if s@[0] == '-' || s@[0] == '+' {
        s@.drop_first()
    } else {
        s@
    };
    assert(digits =~= s@.subrange(start as int, n as int));
    if start == n {
        return None;
    }
    assert(s@.subrange(start as int, start as int) =~= Seq::<char>::empty());
    let mut acc: u128 = 0;
    let mut i = start;
    while i < n
        invariant
            v@ == s@,
            n == v@.len(),
            start <= i <= n,
            digits == s@.subrange(start as int, n as int),
            digits == (if s@[0] == '-' || s@[0] == '+' {
                s@.drop_first()
            } else {
                s@
            }),
            digits.len() > 0,
            all_digits(s@.subrange(start as int, i as int)),
            acc == digits_value(s@.subrange(start as int, i as int)),
            acc <= 9_223_372_036_854_775_808u128,
        decreases n - i,
    {
        let c = v[i];
        if !('0' <= c && c <= '9') {
            proof {
                assert(digits[i - start] == c);
                assert(!is_digit(digits[i - start]));
                assert(!all_digits(digits));
            }
            return None;
        }
        let d = (c as u32 - 48) as u128;
        let next = acc * 10 + d;
        proof {
            let pre = s@.subrange(start as int, i as int);
            let post = s@.subrange(start as int, i + 1);
            assert(post.drop_last() =~= pre);
            assert(post.last() == c);
            assert(digit_value(c) == d);
            assert(digits_value(post) == next);
            assert forall|k: int| 0 <= k < post.len() implies is_digit(#[trigger] post[k]) by {
                if k < pre.len() {
                    assert(post[k] == pre[k]);
                }
            }
        }
        if next > 9_223_372_036_854_775_808u128 {
            proof {
                lemma_digits_value_prefix_mono(digits, i + 1 - start);
                assert(digits.subrange(0, i + 1 - start) =~= s@.subrange(start as int, i + 1));
            }
            return None;
        }
        acc = next;
        i = i + 1;
    }
    if neg {
        if acc == 9_223_372_036_854_775_808u128 {
            Some(i64::MIN)
        } else {
            Some(-(acc as i64))
        }
    } else {
        if acc > 9_223_372_036_854_775_807u128 {
            None
        } else {
            Some(acc as i64)
        }
    }
}

/// Appending digits never decreases the value; so once a prefix is too large, so is the whole
/// sequence (if it is all digits).
proof fn lemma_digits_value_prefix_mono(s: Seq<char>, k: int)
    requires
        0 <= k <= s.len(),
    ensures
        all_digits(s) ==> digits_value(s) >= digits_value(s.subrange(0, k)),
    decreases s.len() - k,
{
    if k < s.len() && all_digits(s) {
        lemma_digits_value_prefix_mono(s, k + 1);
        let a = s.subrange(0, k + 1);
        assert(a.drop_last() =~= s.subrange(0, k));
        assert(digits_value(a) == digits_value(s.subrange(0, k)) * 10 + digit_value(a.last()));
    } else if k == s.len() {
        assert(s.subrange(0, k) =~= s);
    }
}

proof fn lemma_digit_roundtrip(d: nat)
    requires
        d < 10,
    ensures
        digit_value(digit_char(d)) == d,
        is_digit(digit_char(d)),
{
    assert((((('0' as u32) as nat) + d) as char) as u32 == 48 + d);
}

proof fn lemma_decimal_nat_digits(n: nat)
    ensures
        all_digits(decimal_nat(n)),
        decimal_nat(n).len() >= 1,
        digits_value(decimal_nat(n)) == n,
        decimal_nat(n)[0] != '-' && decimal_nat(n)[0] != '+',
    decreases n,
{
    lemma_digit_roundtrip(n % 10);
    if n < 10 {
        let s = decimal_nat(n);
        assert(s.drop_last() =~= Seq::<char>::empty());
        assert(s.last() == digit_char(n));
        assert(digits_value(s) == digits_value(s.drop_last()) * 10 + digit_value(s.last()));
    } else {
        lemma_decimal_nat_digits(n / 10);
        let s = decimal_nat(n);
        let p = decimal_nat(n / 10);
        assert(s.drop_last() =~= p);
        assert(s.last() == digit_char(n % 10));
        assert(digits_value(s) == digits_value(p) * 10 + digit_value(s.last()));
        assert forall|i: int| 0 <= i < s.len() implies is_digit(#[trigger] s[i]) by {
            if i < p.len() {
                assert(s[i] == p[i]);
            }
        }
        assert(s[0] == p[0]);
    }
}

/// The decimal text of an integer is not empty, ends with a digit, and starts with a digit or
/// a minus sign.
pub proof fn lemma_decimal_int_shape(n: int)
    ensures
        decimal_int(n).len() >= 1,
        '0' <= decimal_int(n).last() <= '9',
        decimal_int(n)[0] == '-' || '0' <= decimal_int(n)[0] <= '9',
{
    if n < 0 {
        let m = (-n) as nat;
        lemma_decimal_nat_digits(m);
        let d = decimal_nat(m);
        assert(is_digit(d[d.len() - 1]));
        assert(decimal_int(n).last() == d.last());
    } else {
        lemma_decimal_nat_digits(n as nat);
        let d = decimal_nat(n as nat);
        assert(is_digit(d[d.len() - 1]));
        assert(is_digit(d[0]));
    }
}

/// Law: parsing the decimal text of any `i64` gives the value back.
pub proof fn lemma_parse_format_i64(n: i64)
    ensures
        parse_i64_spec(decimal_int(n as int)) == Some(n),
{
    let s = decimal_int(n as int);
    if n < 0 {
        let m = (-(n as int)) as nat;
        lemma_decimal_nat_digits(m);
        let d = decimal_nat(m);
        assert(s[0] == '-');
        assert(s.drop_first() =~= d);
    } else {
        lemma_decimal_nat_digits(n as nat);
    }
}

} // verus!

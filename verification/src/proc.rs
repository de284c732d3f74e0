//! Resource settings for applications launched into a session.
//!
//! Each application runs in a transient user scope with a CPU weight below the compositor's
//! own default of 100, so that a burst of work inside the session competes with the render and
//! send threads on worse terms. Weights only apply under contention, so this costs nothing in
//! the common case. `WADO_APP_CPU_WEIGHT` overrides the weight; `0` turns the scope off; an
//! unreadable value falls back to the default rather than to unconstrained, because a typo in
//! an environment variable should not silently disable a resource limit.

use vstd::prelude::*;
use crate::text::{chars_of, trim_bounds, trimmed};

verus! {

/// The default CPU weight of a session application: half the compositor's share under
/// contention.
pub const DEFAULT_APP_CPU_WEIGHT: u32 = 50;

/// The largest weight the scope accepts.
pub const MAX_APP_CPU_WEIGHT: u32 = 10_000;

/// The value of an ASCII digit.
pub open spec fn digit_value(c: char) -> int {
    (c as int) - ('0' as int)
}

/// Whether `c` is an ASCII digit.
pub open spec fn is_digit(c: char) -> bool {
    '0' <= c && c <= '9'
}

/// The number the digits of `s` spell, most significant first.
pub open spec fn digits_value(s: Seq<char>) -> int
    decreases s.len(),
{
    if s.len() == 0 {
        0
    } else {
        10 * digits_value(s.drop_last()) + digit_value(s.last())
    }
}

/// `s` without a leading `+`.
pub open spec fn unsigned_part(s: Seq<char>) -> Seq<char> {
    if s.len() > 0 && s[0] == '+' { s.drop_first() } else { s }
}

/// `s` read as a decimal `u32` the way the standard library parses one: an optional `+`, then
/// one or more ASCII digits, with a value that fits.
pub open spec fn parse_u32(s: Seq<char>) -> Option<u32> {
    let digits = unsigned_part(s);
    if digits.len() > 0 && (forall|i: int| 0 <= i < digits.len() ==> is_digit(#[trigger] digits[i]))
        && digits_value(digits) <= u32::MAX {
        Some(digits_value(digits) as u32)
    } else {
        None
    }
}

/// The CPU weight a raw setting asks for: none (no scope) for zero, the value clamped to
/// `[1, MAX_APP_CPU_WEIGHT]` for a number, and the default for anything unreadable. An unset
/// variable reads as the default.
pub open spec fn spec_cpu_weight(raw: Option<Seq<char>>) -> Option<u32> {
    match raw {
        None => Some(DEFAULT_APP_CPU_WEIGHT),
        Some(s) => match parse_u32(trimmed(s)) {
            Some(0) => None,
            Some(w) => Some(if w > MAX_APP_CPU_WEIGHT { MAX_APP_CPU_WEIGHT } else { w }),
            None => Some(DEFAULT_APP_CPU_WEIGHT),
        },
    }
}

/// Parse a decimal `u32` from characters.
pub fn parse_u32_chars(s: &Vec<char>, from: usize, to: usize) -> (v: Option<u32>)
    requires
        from <= to <= s@.len(),
    ensures
        v == parse_u32(s@.subrange(from as int, to as int)),
{
    let ghost t = s@.subrange(from as int, to as int);
    let mut start = from;
    if start < to && s[start] == '+' {
        start = start + 1;
    }
    let ghost digits = s@.subrange(start as int, to as int);
    proof {
        if t.len() > 0 && t[0] == '+' {
            assert(digits =~= t.drop_first());
        } else {
            assert(digits =~= t);
        }
    }
    if start == to {
        return None;
    }
    let mut value: u64 = 0;
    let mut i = start;
    while i < to
        invariant
            from <= start <= i <= to,
            to <= s@.len(),
            digits == s@.subrange(start as int, to as int),
            t == s@.subrange(from as int, to as int),
            digits == unsigned_part(t),
            forall|k: int| start <= k < i ==> is_digit(s@[k]),
            value == digits_value(s@.subrange(start as int, i as int)),
            value <= u32::MAX,
        decreases to - i,
    {
        let c = s[i];
        if !('0' <= c && c <= '9') {
            proof {
                assert(!is_digit(digits[i - start]));
                assert(parse_u32(t) is None);
            }
            return None;
        }
        let d: u64 = (c as u32 - '0' as u32) as u64;
        proof {
            assert(s@.subrange(start as int, i + 1).drop_last() =~= s@.subrange(start as int, i as int));
        }
        let next: u64 = value * 10 + d;
        if next > u32::MAX as u64 {
            proof {
                if forall|k: int| 0 <= k < digits.len() ==> is_digit(#[trigger] digits[k]) {
                    lemma_digits_value_grows(digits, i + 1 - start);
                    assert(digits.subrange(0, i + 1 - start) =~= s@.subrange(start as int, i + 1));
                }
                assert(parse_u32(t) is None);
            }
            return None;
        }
        value = next;
        i = i + 1;
    }
    proof {
        assert(s@.subrange(start as int, to as int) =~= digits);
        assert forall|k: int| 0 <= k < digits.len() implies is_digit(#[trigger] digits[k]) by {
            assert(digits[k] == s@[start + k]);
        }
    }
    Some(value as u32)
}

/// A prefix of digits is worth no more than the whole.
proof fn lemma_digits_value_grows(digits: Seq<char>, n: int)
    requires
        0 <= n <= digits.len(),
        forall|i: int| 0 <= i < digits.len() ==> is_digit(#[trigger] digits[i]),
    ensures
        digits_value(digits.subrange(0, n)) <= digits_value(digits),
    decreases digits.len() - n,
{
    if n < digits.len() {
        lemma_digits_value_grows(digits, n + 1);
        assert(digits.subrange(0, n + 1).drop_last() =~= digits.subrange(0, n));
        assert(digits_value(digits.subrange(0, n)) >= 0) by {
            lemma_digits_value_nonneg(digits.subrange(0, n));
        }
    } else {
        assert(digits.subrange(0, n) =~= digits);
    }
}

/// Digits are worth at least zero.
proof fn lemma_digits_value_nonneg(digits: Seq<char>)
    requires
        forall|i: int| 0 <= i < digits.len() ==> is_digit(#[trigger] digits[i]),
    ensures
        digits_value(digits) >= 0,
    decreases digits.len(),
{
    if digits.len() > 0 {
        assert(forall|i: int| 0 <= i < digits.drop_last().len() ==> is_digit(#[trigger] digits.drop_last()[i])) by {
            assert forall|i: int| 0 <= i < digits.drop_last().len() implies is_digit(#[trigger] digits.drop_last()[i]) by {
                assert(digits.drop_last()[i] == digits[i]);
            }
        }
        lemma_digits_value_nonneg(digits.drop_last());
    }
}

/// The CPU weight for session applications, from the raw value of `WADO_APP_CPU_WEIGHT`
/// (`None` when it is unset): `None` turns the scope off.
pub fn cpu_weight(raw: Option<&str>) -> (w: Option<u32>)
    ensures
        w == spec_cpu_weight(match raw {
            Some(s) => Some(s@),
            None => None,
        }),
        w matches Some(x) ==> 1 <= x <= MAX_APP_CPU_WEIGHT,
{
    let s = match raw {
        Some(s) => s,
        None => return Some(DEFAULT_APP_CPU_WEIGHT),
    };
    let chars = chars_of(s);
    let (lo, hi) = trim_bounds(&chars);
    match parse_u32_chars(&chars, lo, hi) {
        Some(0) => None,
        Some(w) => Some(if w > MAX_APP_CPU_WEIGHT { MAX_APP_CPU_WEIGHT } else { w }),
        None => Some(DEFAULT_APP_CPU_WEIGHT),
    }
}

} // verus!

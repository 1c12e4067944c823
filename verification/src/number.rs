//! Reading of decimal numbers as counts of units.
//!
//! A number in text is an optional sign, digits, and optionally a point and
//! more digits, with a digit on one side of the point at least. It is read as
//! the nearest count of units, a half being rounded away from zero.

use vstd::prelude::*;
use vstd::string::StringExecFns;
use crate::error::ParseError;

verus! {

/// The most digits that a number in text may have.
pub const MAX_DIGITS: usize = 18;

/// Whether a byte is a decimal digit.
pub open spec fn is_digit(b: u8) -> bool {
    48 <= b <= 57
}

/// Where the run of digits that starts at `from` ends.
pub open spec fn run_end(s: Seq<u8>, from: int) -> int
    decreases s.len() - from,
{
    if from < 0 || from >= s.len() || !is_digit(s[from]) {
        from
    } else {
        run_end(s, from + 1)
    }
}

/// The number that a run of digits denotes.
pub open spec fn digits_value(s: Seq<u8>) -> nat
    decreases s.len(),
{
    if s.len() == 0 {
        0
    } else {
        digits_value(s.drop_last()) * 10 + (s.last() - 48) as nat
    }
}

/// Ten to the power `n`.
pub open spec fn pow10(n: nat) -> nat
    decreases n,
{
    if n == 0 {
        1
    } else {
        10 * pow10((n - 1) as nat)
    }
}

/// Where the digits of a text start: after its sign, if it has one.
pub open spec fn digits_start(text: Seq<u8>) -> int {
    if text.len() > 0 && (text[0] == 45 || text[0] == 43) {
        1
    } else {
        0
    }
}

/// What a text denotes as a number.
pub enum Reading {
    /// The text is no number.
    Invalid,
    /// The text is a number of more digits than can be read.
    TooLong,
    /// The text is a number: whether it is negative, its digits as a whole
    /// number, and how many of them stand after the point.
    Number { negative: bool, digits: nat, places: nat },
}

/// What a text denotes. It is a number where, after the sign, digits run up
/// to the end, or up to a point after which digits run up to the end, and
/// there is a digit at all.
pub open spec fn reading(text: Seq<u8>) -> Reading {
    let start = digits_start(text);
    let point = run_end(text, start);
    let end = if point < text.len() && text[point] == 46 {
        run_end(text, point + 1)
    } else {
        point
    };
    let whole = text.subrange(start, point);
    let fraction = if point < end {
        text.subrange(point + 1, end)
    } else {
        Seq::<u8>::empty()
    };
    if end != text.len() || whole.len() + fraction.len() == 0 {
        Reading::Invalid
    } else if whole.len() + fraction.len() > MAX_DIGITS {
        Reading::TooLong
    } else {
        Reading::Number {
            negative: text[0] == 45,
            digits: digits_value(whole + fraction),
            places: fraction.len(),
        }
    }
}

/// The count of units nearest to a number of the unit, a half counting
/// upwards in magnitude.
pub open spec fn units_of(negative: bool, digits: nat, places: nat, unit: int) -> int {
    let magnitude = (2 * digits * unit + pow10(places)) / (2 * pow10(places) as int);
    if negative {
        -magnitude
    } else {
        magnitude
    }
}

/// The reason for which a text is refused as a number of `unit` units, or
/// the count of units that it denotes.
pub open spec fn parsed(text: Seq<u8>, unit: i64) -> Result<i64, Seq<char>> {
    match reading(text) {
        Reading::Invalid => Err("invalid number"@),
        Reading::TooLong => Err("number of too many digits"@),
        Reading::Number { negative, digits, places } => {
            let units = units_of(negative, digits, places, unit as int);
            if i64::MIN <= units <= i64::MAX {
                Ok(units as i64)
            } else {
                Err("number too large"@)
            }
        },
    }
}

proof fn lemma_run_end(s: Seq<u8>, from: int, to: int)
    requires
        0 <= from <= to <= s.len(),
        forall|i: int| from <= i < to ==> is_digit(#[trigger] s[i]),
    ensures
        run_end(s, from) == run_end(s, to),
        to <= run_end(s, to) <= s.len(),
    decreases s.len() - from,
{
    if from < to {
        lemma_run_end(s, from + 1, to);
    } else {
        lemma_run_end_bounds(s, to);
    }
}

proof fn lemma_run_end_bounds(s: Seq<u8>, from: int)
    requires
        0 <= from <= s.len(),
    ensures
        from <= run_end(s, from) <= s.len(),
    decreases s.len() - from,
{
    if from < s.len() && is_digit(s[from]) {
        lemma_run_end_bounds(s, from + 1);
    }
}

proof fn lemma_digits_push(s: Seq<u8>, b: u8)
    ensures
        digits_value(s.push(b)) == digits_value(s) * 10 + (b - 48) as nat,
{
    assert(s.push(b).drop_last() =~= s);
}

proof fn lemma_digits_bound(s: Seq<u8>)
    requires
        forall|i: int| 0 <= i < s.len() ==> is_digit(#[trigger] s[i]),
    ensures
        digits_value(s) < pow10(s.len()),
    decreases s.len(),
{
    if s.len() > 0 {
        lemma_digits_bound(s.drop_last());
    }
}

proof fn lemma_pow10_monotone(a: nat, b: nat)
    requires
        a <= b,
    ensures
        pow10(a) <= pow10(b),
        pow10(a) >= 1,
    decreases b,
{
    if a < b {
        lemma_pow10_monotone(a, (b - 1) as nat);
    } else if a > 0 {
        lemma_pow10_monotone((a - 1) as nat, (a - 1) as nat);
    }
}

proof fn lemma_pow10_18()
    ensures
        pow10(18) == 1_000_000_000_000_000_000,
{
    reveal_with_fuel(pow10, 19);
}

fn power_of_ten(places: usize) -> (r: u128)
    requires
        places <= MAX_DIGITS,
    ensures
        r == pow10(places as nat),
        1 <= r <= 1_000_000_000_000_000_000,
{
    let mut r: u128 = 1;
    let mut k: usize = 0;
    proof {
        lemma_pow10_18();
    }
    while k < places
        invariant
            k <= places <= MAX_DIGITS,
            r == pow10(k as nat),
            pow10(18) == 1_000_000_000_000_000_000,
        decreases places - k,
    {
        proof {
            lemma_pow10_monotone((k + 1) as nat, 18);
        }
        r = r * 10;
        k += 1;
    }
    proof {
        lemma_pow10_monotone(places as nat, 18);
    }
    r
}

/// Reads a text as a number of `unit` units.
pub fn parse_units(text: &[u8], unit: i64) -> (r: Result<i64, ParseError>)
    requires
        unit > 0,
    ensures
        match parsed(text@, unit) {
            Ok(units) => r matches Ok(v) && v == units,
            Err(reason) => r matches Err(e) && e.0@ == reason,
        },
{
    let n = text.len();
    let negative = n > 0 && text[0] == 45;
    let start: usize = if n > 0 && (text[0] == 45 || text[0] == 43) {
        1
    } else {
        0
    };
    let mut digits: u64 = 0;
    let mut count: usize = 0;
    let mut i: usize = start;
    let ghost mut seen: Seq<u8> = Seq::empty();
    proof {
        lemma_pow10_18();
    }
    while i < n && 48 <= text[i] && text[i] <= 57
        invariant
            start <= i <= n,
            n == text@.len(),
            forall|k: int| start <= k < i ==> is_digit(#[trigger] text@[k]),
            seen == text@.subrange(start as int, i as int),
            count == (if i - start <= MAX_DIGITS {
                i - start
            } else {
                MAX_DIGITS + 1
            }),
            forall|k: int| 0 <= k < seen.len() ==> is_digit(#[trigger] seen[k]),
            count <= MAX_DIGITS ==> digits == digits_value(seen),
            pow10(18) == 1_000_000_000_000_000_000,
        decreases n - i,
    {
        proof {
            lemma_digits_push(seen, text@[i as int]);
            assert(text@.subrange(start as int, i + 1) =~= seen.push(text@[i as int]));
            if count < MAX_DIGITS {
                lemma_digits_bound(seen);
                lemma_pow10_monotone(seen.len(), 17);
                reveal_with_fuel(pow10, 2);
            }
            seen = seen.push(text@[i as int]);
        }
        if count < MAX_DIGITS {
            digits = digits * 10 + (text[i] - 48) as u64;
            count += 1;
        } else {
            count = MAX_DIGITS + 1;
        }
        i += 1;
    }
    let point = i;
    let ghost whole = seen;
    proof {
        lemma_run_end(text@, start as int, point as int);
    }
    let mut places: usize = 0;
    if i < n && text[i] == 46 {
        i += 1;
        while i < n && 48 <= text[i] && text[i] <= 57
            invariant
                start <= point < i <= n,
                n == text@.len(),
                text@[point as int] == 46,
                forall|k: int| point < k < i ==> is_digit(#[trigger] text@[k]),
                whole == text@.subrange(start as int, point as int),
                seen == whole + text@.subrange(point + 1, i as int),
                count == (if i - start - 1 <= MAX_DIGITS {
                    i - start - 1
                } else {
                    MAX_DIGITS + 1
                }),
                places == (if i - point - 1 <= MAX_DIGITS {
                    i - point - 1
                } else {
                    MAX_DIGITS + 1
                }),
                forall|k: int| 0 <= k < seen.len() ==> is_digit(#[trigger] seen[k]),
                count <= MAX_DIGITS ==> digits == digits_value(seen),
                pow10(18) == 1_000_000_000_000_000_000,
            decreases n - i,
        {
            proof {
                lemma_digits_push(seen, text@[i as int]);
                assert(whole + text@.subrange(point + 1, i + 1) =~= seen.push(text@[i as int]));
                if count < MAX_DIGITS {
                    lemma_digits_bound(seen);
                    lemma_pow10_monotone(seen.len(), 17);
                    reveal_with_fuel(pow10, 2);
                }
                seen = seen.push(text@[i as int]);
            }
            if count < MAX_DIGITS {
                digits = digits * 10 + (text[i] - 48) as u64;
                count += 1;
            } else {
                count = MAX_DIGITS + 1;
            }
            if places < MAX_DIGITS {
                places += 1;
            } else {
                places = MAX_DIGITS + 1;
            }
            i += 1;
        }
        proof {
            lemma_run_end(text@, point + 1, i as int);
        }
    }
    if i != n || count == 0 {
        return Err(ParseError(String::from_str("invalid number")));
    }
    if count > MAX_DIGITS {
        return Err(ParseError(String::from_str("number of too many digits")));
    }
    proof {
        lemma_digits_bound(seen);
        lemma_pow10_monotone(seen.len(), 18);
    }
    let scale = power_of_ten(places);
    assert(2 * digits * unit + scale <= 0xffff_ffff_ffff_ffff_ffff_ffff_ffff_ffff) by (nonlinear_arith)
        requires
            digits < 1_000_000_000_000_000_000,
            0 < unit <= 0x7fff_ffff_ffff_ffff,
            scale <= 1_000_000_000_000_000_000,
    ;
    assert(2 * digits * unit <= 0xffff_ffff_ffff_ffff_ffff_ffff_ffff_ffff) by (nonlinear_arith)
        requires
            digits < 1_000_000_000_000_000_000,
            0 < unit <= 0x7fff_ffff_ffff_ffff,
    ;
    let magnitude: u128 = (2 * (digits as u128) * (unit as u128) + scale) / (2 * scale);
    if negative {
        if magnitude <= 9_223_372_036_854_775_808u128 {
            if magnitude == 9_223_372_036_854_775_808u128 {
                Ok(i64::MIN)
            } else {
                Ok(-(magnitude as i64))
            }
        } else {
            Err(ParseError(String::from_str("number too large")))
        }
    } else if magnitude <= 9_223_372_036_854_775_807u128 {
        Ok(magnitude as i64)
    } else {
        Err(ParseError(String::from_str("number too large")))
    }
}

} // verus!

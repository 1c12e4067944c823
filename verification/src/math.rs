//! Floor division and remainder on machine integers.
//!
//! In contracts `/` and `%` are the Euclidean quotient and remainder. For a
//! positive divisor they are the floor of the true quotient and the
//! non-negative remainder, which is what the functions here compute.

use vstd::prelude::*;

verus! {

/// The floor of `a / d` for a positive divisor.
pub fn floor_div(a: i64, d: i64) -> (q: i64)
    requires
        d > 0,
    ensures
        q == a / d,
{
    assert(i64::MIN <= a / d <= i64::MAX) by (nonlinear_arith)
        requires
            d > 0,
            i64::MIN <= a <= i64::MAX,
    ;
    match a.checked_div_euclid(d) {
        Some(q) => q,
        None => 0,
    }
}

/// The remainder of `a` for a positive divisor, between zero and `d - 1`.
pub fn floor_mod(a: i64, d: i64) -> (r: i64)
    requires
        d > 0,
    ensures
        r == a % d,
        0 <= r < d,
{
    assert(0 <= a % d < d) by (nonlinear_arith)
        requires
            d > 0,
    ;
    match a.checked_rem_euclid(d) {
        Some(r) => r,
        None => 0,
    }
}

/// The floor of `a / d` for a positive divisor, on wide integers.
pub fn floor_div_wide(a: i128, d: i128) -> (q: i128)
    requires
        d > 0,
    ensures
        q == a / d,
{
    assert(i128::MIN <= a / d <= i128::MAX) by (nonlinear_arith)
        requires
            d > 0,
            i128::MIN <= a <= i128::MAX,
    ;
    match a.checked_div_euclid(d) {
        Some(q) => q,
        None => 0,
    }
}

} // verus!

//! Fixed-point arithmetic on scaled integers.
//!
//! Fractional quantities are carried as integers scaled by one million
//! (micro-units). The helpers here perform the two division modes the
//! estimator needs: truncation toward zero, and rounding half away from
//! zero (the rounding used for two-decimal display values).

use vstd::prelude::*;

verus! {

use vstd::arithmetic::div_mod::lemma_div_is_ordered;
use vstd::arithmetic::div_mod::lemma_div_nonincreasing;
use vstd::arithmetic::div_mod::lemma_div_is_ordered_by_denominator;

/// One whole unit in the micro fixed-point scale.
pub const MICRO: i64 = 1_000_000;

/// Magnitude of an integer.
pub open spec fn spec_abs(a: int) -> int {
    if a < 0 {
        -a
    } else {
        a
    }
}

/// Division truncating toward zero, for a positive divisor. This is the
/// quotient Rust's `/` computes on signed operands.
pub open spec fn spec_div_trunc(a: int, d: int) -> int
    recommends
        d > 0,
{
    if a >= 0 {
        a / d
    } else {
        -((-a) / d)
    }
}

/// Rounding to the nearest multiple of a positive even divisor, halves
/// rounded away from zero.
pub open spec fn spec_round_half(a: int, d: int) -> int
    recommends
        d > 0,
        d % 2 == 0,
{
    if a >= 0 {
        (a + d / 2) / d
    } else {
        -((-a + d / 2) / d)
    }
}

/// Truncating division of a signed value by a positive divisor.
pub fn div_trunc_i128(a: i128, d: u128) -> (q: i128)
    requires
        0 < d <= i128::MAX as u128,
        a > i128::MIN,
    ensures
        q == spec_div_trunc(a as int, d as int),
        spec_abs(q as int) == spec_abs(a as int) / (d as int),
{
    proof {
        if a >= 0 {
            lemma_div_nonincreasing(a as int, d as int);
        } else {
            lemma_div_nonincreasing(-(a as int), d as int);
        }
    }
    if a >= 0 {
        ((a as u128) / d) as i128
    } else {
        -((((-a) as u128) / d) as i128)
    }
}

/// Rounding division of a signed value by a positive even divisor, halves
/// away from zero. The magnitude of the result is exactly
/// `(|a| + d/2) / d`.
pub fn round_half_div_i128(a: i128, d: u128) -> (q: i128)
    requires
        0 < d,
        d % 2 == 0,
        a > i128::MIN,
    ensures
        q == spec_round_half(a as int, d as int),
        spec_abs(q as int) == (spec_abs(a as int) + (d as int) / 2) / (d as int),
{
    let h: u128 = d / 2;
    proof {
        let m: int = spec_abs(a as int);
        assert(m <= i128::MAX);
        assert(m + h <= u128::MAX);
        lemma_div_is_ordered_by_denominator(m + h, 2, d as int);
        assert((m + h) / (d as int) <= (m + h) / 2);
    }
    if a >= 0 {
        (((a as u128) + h) / d) as i128
    } else {
        -(((((-a) as u128) + h) / d) as i128)
    }
}

/// Rounding half away from zero is monotone on non-negative values.
pub proof fn lemma_round_half_monotone(a: int, b: int, d: int)
    requires
        0 <= b <= a,
        d > 0,
        d % 2 == 0,
    ensures
        spec_round_half(b, d) <= spec_round_half(a, d),
{
    lemma_div_is_ordered(b + d / 2, a + d / 2, d);
}

} // verus!

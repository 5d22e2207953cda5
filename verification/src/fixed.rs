//! Fixed-point scalar arithmetic.
//!
//! A scalar holds a signed quantity in millionths: the `i64` value `v`
//! stands for the real number `v / 1_000_000`. Positions, speeds, angles,
//! half-extents and trigonometric values are all expressed this way, so
//! every operation of the movement computation is exact integer arithmetic.

use vstd::arithmetic::div_mod::lemma_div_is_ordered;
use vstd::arithmetic::div_mod::lemma_div_pos_is_pos;
use vstd::arithmetic::mul::lemma_mul_nonnegative;
use vstd::arithmetic::mul::lemma_mul_upper_bound;
use vstd::prelude::*;

verus! {

/// One whole unit in fixed-point form: scalars carry six fractional
/// decimal digits.
pub const ONE: i64 = 1_000_000;

/// Largest magnitude this crate accepts for a movement parameter
/// (coordinate, speed, elapsed time, half-extent, arena half-size).
/// The bound keeps every intermediate product, rescaled by `ONE`,
/// comfortably inside an `i64`.
pub const MAX_INPUT: i64 = 1_000_000_000_000;

/// What multiplying two non-negative fixed-point scalars means: the exact
/// integer product, rescaled by `ONE`, with the fractional part dropped.
pub open spec fn mul_spec(a: int, b: int) -> int {
    (a * b) / (ONE as int)
}

/// The magnitude of a scalar.
pub open spec fn abs_spec(x: int) -> int {
    if x < 0 {
        -x
    } else {
        x
    }
}

/// What clamping to `[lo, hi]` means. An empty interval — the degenerate
/// arena, too small for the entity's rotated footprint — collapses to the
/// arena centre, `0`.
pub open spec fn clamp_spec(v: int, lo: int, hi: int) -> int {
    if lo > hi {
        0
    } else if v < lo {
        lo
    } else if v > hi {
        hi
    } else {
        v
    }
}

/// Fixed-point product of two non-negative scalars.
pub fn fixed_mul(a: i64, b: i64) -> (r: i64)
    requires
        0 <= a,
        0 <= b,
        mul_spec(a as int, b as int) <= i64::MAX,
    ensures
        r == mul_spec(a as int, b as int),
{
    proof {
        assert((a as int) * (b as int) <= 0x7fff_ffff_ffff_ffff * 0x7fff_ffff_ffff_ffff)
            by (nonlinear_arith)
            requires
                0 <= a as int <= 0x7fff_ffff_ffff_ffff,
                0 <= b as int <= 0x7fff_ffff_ffff_ffff,
        ;
        lemma_mul_nonnegative(a as int, b as int);
        lemma_div_pos_is_pos((a as int) * (b as int), ONE as int);
    }
    let p: u128 = (a as u128) * (b as u128);
    let q: u128 = p / 1_000_000u128;
    q as i64
}

/// Bounds a fixed-point product by the bounds of its factors.
pub proof fn lemma_mul_spec_bound(a: int, b: int, a_max: int, b_max: int)
    requires
        0 <= a <= a_max,
        0 <= b <= b_max,
    ensures
        0 <= mul_spec(a, b) <= mul_spec(a_max, b_max),
{
    lemma_mul_upper_bound(a, a_max, b, b_max);
    lemma_mul_nonnegative(a, b);
    lemma_div_pos_is_pos(a * b, ONE as int);
    lemma_div_is_ordered(a * b, a_max * b_max, ONE as int);
}

/// A product with a factor drawn from `{-1, 0, 1}` — a direction sign —
/// selects the other factor, zero, or its negation.
pub proof fn lemma_sign_factor(d: int, s: int)
    by (nonlinear_arith)
    requires
        -1 <= d <= 1,
    ensures
        d == 1 ==> d * s == s,
        d == 0 ==> d * s == 0,
        d == -1 ==> d * s == -s,
{
}

/// The magnitude of a scalar.
pub fn fixed_abs(v: i64) -> (r: i64)
    requires
        i64::MIN < v,
    ensures
        r == abs_spec(v as int),
{
    if v < 0 {
        -v
    } else {
        v
    }
}

/// Clamp `v` into `[lo, hi]`; an inverted interval yields the centre, `0`.
pub fn fixed_clamp(v: i64, lo: i64, hi: i64) -> (r: i64)
    ensures
        r == clamp_spec(v as int, lo as int, hi as int),
{
    if lo > hi {
        0
    } else if v < lo {
        lo
    } else if v > hi {
        hi
    } else {
        v
    }
}

} // verus!

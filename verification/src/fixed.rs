//! Fixed-point arithmetic shared by every component.
//!
//! All quantities in this crate are integers counted in thousandths of their
//! natural unit: milli-units for coordinates and scalar values, milliseconds
//! for times, milliradians for angles. [`SCALE`] is the common denominator.
//!
//! Division is truncation toward zero ([`tdiv`]), the same rounding in
//! specification and executable code, and resolved coordinates saturate at
//! [`RESOLVED_LIMIT`] so that every geometric computation stays inside `i64`
//! no matter how paths and transforms are combined.

use vstd::prelude::*;

verus! {

/// Denominator of the fixed-point representation: quantities are integers
/// counted in thousandths of their unit.
pub const SCALE: i64 = 1000;

/// The square of [`SCALE`]: the denominator of a product of two
/// fixed-point quantities, such as a birth rate times a time span.
pub const SCALE_SQ: i64 = 1_000_000;

/// Largest magnitude accepted for caller-supplied coordinates, translations,
/// radii, times, durations, scalar values, rates, and angles.
pub const INPUT_LIMIT: i64 = 1_000_000_000_000;

/// Largest magnitude of an affine transform matrix coefficient
/// (the coefficient is itself scaled by [`SCALE`], so the largest linear
/// factor is one million).
pub const FACTOR_LIMIT: i64 = 1_000_000_000;

/// Saturation bound for resolved coordinates: applying a transform clamps
/// each resulting coordinate into `[-RESOLVED_LIMIT, RESOLVED_LIMIT]`, so a
/// resolved point always fits in `i64` however often paths are re-appended
/// under further transforms.
pub const RESOLVED_LIMIT: i64 = 2_000_000_000_000_000_000;

/// Quotient of `a` by `b`, truncated toward zero (`b > 0`).
///
/// This is the rounding used throughout the crate: scaling down a product
/// by `SCALE`, and scaling an interpolation delta by an eased fraction.
pub open spec fn tdiv(a: int, b: int) -> int
    recommends
        b > 0,
{
    if a >= 0 {
        a / b
    } else {
        -((-a) / b)
    }
}

/// `a` clamped into `[-lim, lim]`.
pub open spec fn clamp(a: int, lim: int) -> int
    recommends
        lim > 0,
{
    if a > lim {
        lim
    } else if a < -lim {
        -lim
    } else {
        a
    }
}

/// Truncating division on wide intermediates, matching [`tdiv`] exactly.
pub fn tdiv_i128(n: i128, d: u128) -> (q: i128)
    requires
        d > 0,
        n != i128::MIN,
        d <= i128::MAX as u128,
    ensures
        q == tdiv(n as int, d as int),
{
    if n >= 0 {
        let m: u128 = n as u128;
        (m / d) as i128
    } else {
        let m: u128 = (-n) as u128;
        -((m / d) as i128)
    }
}

/// A bound on the dividend carries over to the truncated quotient.
pub proof fn lemma_tdiv_range(a: int, bound: int, d: int)
    requires
        d > 0,
        bound >= 0,
        -bound <= a <= bound,
    ensures
        -(bound / d) <= tdiv(a, d) <= bound / d,
{
    vstd::arithmetic::div_mod::lemma_div_pos_is_pos(bound, d);
    if a >= 0 {
        vstd::arithmetic::div_mod::lemma_div_is_ordered(a, bound, d);
        vstd::arithmetic::div_mod::lemma_div_pos_is_pos(a, d);
    } else {
        vstd::arithmetic::div_mod::lemma_div_is_ordered(-a, bound, d);
        vstd::arithmetic::div_mod::lemma_div_pos_is_pos(-a, d);
    }
}

/// Scaling a delta by a fraction `num / den` with `0 <= num <= den` yields a
/// value between `0` and the delta.
pub proof fn lemma_tdiv_fraction(delta: int, num: int, den: int)
    requires
        den > 0,
        0 <= num <= den,
    ensures
        delta >= 0 ==> 0 <= tdiv(delta * num, den) <= delta,
        delta <= 0 ==> delta <= tdiv(delta * num, den) <= 0,
{
    if delta >= 0 {
        assert(0 <= delta * num <= delta * den) by (nonlinear_arith)
            requires
                delta >= 0,
                0 <= num <= den,
        ;
        vstd::arithmetic::div_mod::lemma_div_pos_is_pos(delta * num, den);
        vstd::arithmetic::div_mod::lemma_div_is_ordered(delta * num, delta * den, den);
        vstd::arithmetic::div_mod::lemma_div_by_multiple(delta, den);
    } else {
        assert(0 <= -delta * num <= -delta * den) by (nonlinear_arith)
            requires
                delta < 0,
                0 <= num <= den,
        ;
        assert(-(delta * num) == -delta * num) by (nonlinear_arith);
        vstd::arithmetic::div_mod::lemma_div_pos_is_pos(-delta * num, den);
        vstd::arithmetic::div_mod::lemma_div_is_ordered(-delta * num, -delta * den, den);
        vstd::arithmetic::div_mod::lemma_div_by_multiple(-delta, den);
    }
}

} // verus!

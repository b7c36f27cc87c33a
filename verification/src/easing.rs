//! Easing curves: pure scalar maps `f : [0,1] -> [0,1]`.
//!
//! A phase is the exact rational `q / d` where `d` is the cycle length in
//! milliseconds and `0 <= q <= d`; an eased phase is the exact rational
//! [`ease_num`]`(e, q, d) / (d * d)`. Keeping the phase as a rational (and
//! dividing only once, at the final interpolation) makes the timeline's
//! periodicity and mirror laws exact integer identities.
//!
//! Every variant satisfies `f(0) = 0`, `f(1) = 1`, and is monotonically
//! non-decreasing on `[0,1]`; see [`lemma_easing_zero`],
//! [`lemma_easing_one`], and [`lemma_easing_monotone`].

use vstd::prelude::*;

use crate::fixed::INPUT_LIMIT;

verus! {

/// A named easing curve.
///
/// `Linear` is the identity; `In` is the quadratic ease-in `p*p`; `Out` is
/// its reflection `1 - (1-p)*(1-p)`; `InOut` glues the two halves at
/// `p = 1/2`.
#[derive(Clone, Copy, PartialEq, Eq, Structural, Debug)]
pub enum Easing {
    Linear,
    In,
    Out,
    InOut,
}

/// Numerator of the eased phase over the denominator `d * d`, for the
/// phase `q / d`.
pub open spec fn ease_num(e: Easing, q: int, d: int) -> int
    recommends
        0 <= q <= d,
{
    match e {
        Easing::Linear => q * d,
        Easing::In => q * q,
        Easing::Out => d * d - (d - q) * (d - q),
        Easing::InOut => if 2 * q <= d {
            2 * (q * q)
        } else {
            d * d - 2 * ((d - q) * (d - q))
        },
    }
}

impl Easing {
    /// Evaluate the curve at the phase `q / d`; the result is the eased
    /// phase's numerator over the denominator `d * d`.
    pub fn eval(self, q: i64, d: i64) -> (n: i128)
        requires
            0 < d <= INPUT_LIMIT,
            0 <= q <= d,
        ensures
            n == ease_num(self, q as int, d as int),
    {
        proof {
            lemma_square_range(q as int, d as int);
        }
        let qw = q as i128;
        let dw = d as i128;
        match self {
            Easing::Linear => qw * dw,
            Easing::In => qw * qw,
            Easing::Out => dw * dw - (dw - qw) * (dw - qw),
            Easing::InOut => if 2 * qw <= dw {
                2 * (qw * qw)
            } else {
                dw * dw - 2 * ((dw - qw) * (dw - qw))
            },
        }
    }
}

/// Bounds on the products formed while evaluating an easing curve.
proof fn lemma_square_range(q: int, d: int)
    requires
        0 <= q <= d,
        d <= INPUT_LIMIT,
    ensures
        0 <= q * q <= 1_000_000_000_000_000_000_000_000 as int,
        0 <= q * d <= 1_000_000_000_000_000_000_000_000 as int,
        0 <= d * d <= 1_000_000_000_000_000_000_000_000 as int,
        0 <= (d - q) * (d - q) <= 1_000_000_000_000_000_000_000_000 as int,
{
    assert(0 <= q * q <= (INPUT_LIMIT as int) * INPUT_LIMIT && 0 <= q * d <= (INPUT_LIMIT as int)
        * INPUT_LIMIT && 0 <= d * d <= (INPUT_LIMIT as int) * INPUT_LIMIT && 0 <= (d - q) * (d - q)
        <= (INPUT_LIMIT as int) * INPUT_LIMIT) by (nonlinear_arith)
        requires
            0 <= q <= d,
            d <= INPUT_LIMIT,
    ;
}

/// Every easing curve starts exactly at zero: `f(0) = 0`.
pub proof fn lemma_easing_zero(e: Easing, d: int)
    requires
        d > 0,
    ensures
        ease_num(e, 0, d) == 0,
{
}

/// Every easing curve ends exactly at one: `f(1) = 1`, that is, the eased
/// numerator at phase `d / d` is the full denominator `d * d`.
pub proof fn lemma_easing_one(e: Easing, d: int)
    requires
        d > 0,
    ensures
        ease_num(e, d, d) == d * d,
{
}

/// Every easing curve stays within `[0,1]`.
pub proof fn lemma_easing_bounds(e: Easing, q: int, d: int)
    requires
        0 <= q <= d,
    ensures
        0 <= ease_num(e, q, d) <= d * d,
{
    match e {
        Easing::Linear => {
            assert(0 <= q * d <= d * d) by (nonlinear_arith)
                requires
                    0 <= q <= d,
            ;
        },
        Easing::In => {
            assert(0 <= q * q <= d * d) by (nonlinear_arith)
                requires
                    0 <= q <= d,
            ;
        },
        Easing::Out => {
            assert(0 <= (d - q) * (d - q) <= d * d) by (nonlinear_arith)
                requires
                    0 <= q <= d,
            ;
        },
        Easing::InOut => {
            if 2 * q <= d {
                assert(0 <= 2 * (q * q) <= d * d) by (nonlinear_arith)
                    requires
                        0 <= q,
                        2 * q <= d,
                ;
            } else {
                assert(0 <= 2 * ((d - q) * (d - q)) <= d * d) by (nonlinear_arith)
                    requires
                        q <= d,
                        2 * q > d,
                ;
            }
        },
    }
}

/// Every easing curve is monotonically non-decreasing on `[0,1]`.
pub proof fn lemma_easing_monotone(e: Easing, q1: int, q2: int, d: int)
    requires
        0 <= q1 <= q2 <= d,
    ensures
        ease_num(e, q1, d) <= ease_num(e, q2, d),
{
    match e {
        Easing::Linear => {
            assert(q1 * d <= q2 * d) by (nonlinear_arith)
                requires
                    q1 <= q2,
                    d >= 0,
            ;
        },
        Easing::In => {
            assert(q1 * q1 <= q2 * q2) by (nonlinear_arith)
                requires
                    0 <= q1 <= q2,
            ;
        },
        Easing::Out => {
            assert((d - q2) * (d - q2) <= (d - q1) * (d - q1)) by (nonlinear_arith)
                requires
                    0 <= d - q2 <= d - q1,
            ;
        },
        Easing::InOut => {
            if 2 * q2 <= d {
                assert(2 * (q1 * q1) <= 2 * (q2 * q2)) by (nonlinear_arith)
                    requires
                        0 <= q1 <= q2,
                ;
            } else if 2 * q1 > d {
                assert(d * d - 2 * ((d - q1) * (d - q1)) <= d * d - 2 * ((d - q2) * (d - q2)))
                    by (nonlinear_arith)
                    requires
                        0 <= d - q2 <= d - q1,
                ;
            } else {
                assert(2 * (q1 * q1) <= d * d - 2 * ((d - q2) * (d - q2))) by (nonlinear_arith)
                    requires
                        0 <= q1,
                        2 * q1 <= d,
                        2 * q2 > d,
                        q2 <= d,
                ;
            }
        },
    }
}

} // verus!

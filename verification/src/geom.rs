//! Points, rectangles, and 2D affine transforms.
//!
//! An [`AffineTransform`] is six fixed-point coefficients `a b c d tx ty`
//! mapping a point `(x, y)` to
//! `((a*x + c*y)/SCALE + tx, (b*x + d*y)/SCALE + ty)`,
//! the linear part scaled by [`SCALE`] and the translation in plain
//! milli-units. Transforms compose by matrix multiplication and have an
//! identity element. Applying a transform saturates each resulting
//! coordinate at [`RESOLVED_LIMIT`].

use vstd::prelude::*;

use crate::fixed::{clamp, tdiv, FACTOR_LIMIT, INPUT_LIMIT, RESOLVED_LIMIT, SCALE};
use crate::fixed::tdiv_i128;

verus! {

/// A 2D coordinate in milli-units.
#[derive(Clone, Copy, PartialEq, Eq, Structural, Debug)]
pub struct Point {
    pub x: i64,
    pub y: i64,
}

impl Point {
    /// Both coordinates lie in `[-lim, lim]`.
    pub open spec fn in_range(self, lim: int) -> bool {
        &&& -lim <= self.x <= lim
        &&& -lim <= self.y <= lim
    }

    pub fn new(x: i64, y: i64) -> (p: Point)
        ensures
            p == (Point { x, y }),
    {
        Point { x, y }
    }
}

/// An axis-aligned rectangle: origin and size, in milli-units.
#[derive(Clone, Copy, PartialEq, Eq, Structural, Debug)]
pub struct Rect {
    pub x: i64,
    pub y: i64,
    pub w: i64,
    pub h: i64,
}

/// A 2D affine transform in fixed-point form.
///
/// `a b c d` are scaled by [`SCALE`] (so `a == 2000` is a factor of two);
/// `tx ty` are a plain milli-unit translation.
#[derive(Clone, Copy, PartialEq, Eq, Structural, Debug)]
pub struct AffineTransform {
    pub a: i64,
    pub b: i64,
    pub c: i64,
    pub d: i64,
    pub tx: i64,
    pub ty: i64,
}

impl AffineTransform {
    /// Coefficient bounds under which applying the transform cannot
    /// overflow the wide intermediates.
    pub open spec fn wf(self) -> bool {
        &&& -FACTOR_LIMIT <= self.a <= FACTOR_LIMIT
        &&& -FACTOR_LIMIT <= self.b <= FACTOR_LIMIT
        &&& -FACTOR_LIMIT <= self.c <= FACTOR_LIMIT
        &&& -FACTOR_LIMIT <= self.d <= FACTOR_LIMIT
        &&& -INPUT_LIMIT <= self.tx <= INPUT_LIMIT
        &&& -INPUT_LIMIT <= self.ty <= INPUT_LIMIT
    }

    /// The x coordinate of the transformed point, saturated at
    /// [`RESOLVED_LIMIT`].
    pub open spec fn apply_x_spec(self, x: int, y: int) -> int {
        clamp(tdiv(self.a * x + self.c * y, SCALE as int) + self.tx, RESOLVED_LIMIT as int)
    }

    /// The y coordinate of the transformed point, saturated at
    /// [`RESOLVED_LIMIT`].
    pub open spec fn apply_y_spec(self, x: int, y: int) -> int {
        clamp(tdiv(self.b * x + self.d * y, SCALE as int) + self.ty, RESOLVED_LIMIT as int)
    }

    /// The transformed point as a value.
    pub open spec fn apply_spec(self, p: Point) -> Point {
        Point {
            x: self.apply_x_spec(p.x as int, p.y as int) as i64,
            y: self.apply_y_spec(p.x as int, p.y as int) as i64,
        }
    }

    /// The identity transform.
    pub open spec fn identity_spec() -> AffineTransform {
        AffineTransform { a: SCALE, b: 0, c: 0, d: SCALE, tx: 0, ty: 0 }
    }

    pub fn identity() -> (t: Self)
        ensures
            t == Self::identity_spec(),
            t.wf(),
    {
        AffineTransform { a: SCALE, b: 0, c: 0, d: SCALE, tx: 0, ty: 0 }
    }

    /// A scale by the fixed-point factors `sx`, `sy`
    /// (`scale(2000, 2000)` doubles both coordinates).
    pub fn scale(sx: i64, sy: i64) -> (t: Self)
        requires
            -FACTOR_LIMIT <= sx <= FACTOR_LIMIT,
            -FACTOR_LIMIT <= sy <= FACTOR_LIMIT,
        ensures
            t == (AffineTransform { a: sx, b: 0, c: 0, d: sy, tx: 0, ty: 0 }),
            t.wf(),
    {
        AffineTransform { a: sx, b: 0, c: 0, d: sy, tx: 0, ty: 0 }
    }

    /// A translation by `(tx, ty)` milli-units.
    pub fn translation(tx: i64, ty: i64) -> (t: Self)
        requires
            -INPUT_LIMIT <= tx <= INPUT_LIMIT,
            -INPUT_LIMIT <= ty <= INPUT_LIMIT,
        ensures
            t == (AffineTransform { a: SCALE, b: 0, c: 0, d: SCALE, tx, ty }),
            t.wf(),
    {
        AffineTransform { a: SCALE, b: 0, c: 0, d: SCALE, tx, ty }
    }

    /// Matrix product: the transform that applies `self` first, then
    /// `other`. The coefficients follow the exact fixed-point formulas in
    /// the `ensures` clause; the result is well formed again whenever those
    /// values stay within the coefficient bounds.
    pub fn concat(&self, other: &Self) -> (t: Self)
        requires
            self.wf(),
            other.wf(),
        ensures
            t.a == tdiv(self.a * other.a + self.b * other.c, SCALE as int),
            t.b == tdiv(self.a * other.b + self.b * other.d, SCALE as int),
            t.c == tdiv(self.c * other.a + self.d * other.c, SCALE as int),
            t.d == tdiv(self.c * other.b + self.d * other.d, SCALE as int),
            t.tx == tdiv(self.tx * other.a + self.ty * other.c, SCALE as int) + other.tx,
            t.ty == tdiv(self.tx * other.b + self.ty * other.d, SCALE as int) + other.ty,
    {
        proof {
            lemma_concat_row(self.a as int, self.b as int, other.a as int, other.c as int);
            lemma_concat_row(self.a as int, self.b as int, other.b as int, other.d as int);
            lemma_concat_row(self.c as int, self.d as int, other.a as int, other.c as int);
            lemma_concat_row(self.c as int, self.d as int, other.b as int, other.d as int);
            lemma_concat_row(self.tx as int, self.ty as int, other.a as int, other.c as int);
            lemma_concat_row(self.tx as int, self.ty as int, other.b as int, other.d as int);
        }
        let a = tdiv_i128(
            self.a as i128 * other.a as i128 + self.b as i128 * other.c as i128,
            SCALE as u128,
        ) as i64;
        let b = tdiv_i128(
            self.a as i128 * other.b as i128 + self.b as i128 * other.d as i128,
            SCALE as u128,
        ) as i64;
        let c = tdiv_i128(
            self.c as i128 * other.a as i128 + self.d as i128 * other.c as i128,
            SCALE as u128,
        ) as i64;
        let d = tdiv_i128(
            self.c as i128 * other.b as i128 + self.d as i128 * other.d as i128,
            SCALE as u128,
        ) as i64;
        let tx = tdiv_i128(
            self.tx as i128 * other.a as i128 + self.ty as i128 * other.c as i128,
            SCALE as u128,
        ) as i64 + other.tx;
        let ty = tdiv_i128(
            self.tx as i128 * other.b as i128 + self.ty as i128 * other.d as i128,
            SCALE as u128,
        ) as i64 + other.ty;
        AffineTransform { a, b, c, d, tx, ty }
    }

    /// Transform a resolved point, saturating at [`RESOLVED_LIMIT`].
    pub fn apply(&self, p: Point) -> (r: Point)
        requires
            self.wf(),
            p.in_range(RESOLVED_LIMIT as int),
        ensures
            r == self.apply_spec(p),
            r.in_range(RESOLVED_LIMIT as int),
    {
        let rx = self.apply_coord(self.a, self.c, self.tx, p);
        let ry = self.apply_coord(self.b, self.d, self.ty, p);
        Point { x: rx, y: ry }
    }

    /// One output coordinate of [`AffineTransform::apply`].
    fn apply_coord(&self, u: i64, v: i64, shift: i64, p: Point) -> (r: i64)
        requires
            -FACTOR_LIMIT <= u <= FACTOR_LIMIT,
            -FACTOR_LIMIT <= v <= FACTOR_LIMIT,
            -INPUT_LIMIT <= shift <= INPUT_LIMIT,
            p.in_range(RESOLVED_LIMIT as int),
        ensures
            r == clamp(tdiv(u * p.x + v * p.y, SCALE as int) + shift, RESOLVED_LIMIT as int),
    {
        proof {
            lemma_apply_ranges(u as int, v as int, p.x as int, p.y as int);
        }
        let s: i128 = u as i128 * p.x as i128 + v as i128 * p.y as i128;
        let q: i128 = tdiv_i128(s, SCALE as u128) + shift as i128;
        if q > RESOLVED_LIMIT as i128 {
            RESOLVED_LIMIT
        } else if q < -RESOLVED_LIMIT as i128 {
            -RESOLVED_LIMIT
        } else {
            q as i64
        }
    }
}

/// The identity transform maps every in-range point to itself.
pub proof fn lemma_identity_apply(p: Point)
    requires
        p.in_range(RESOLVED_LIMIT as int),
    ensures
        AffineTransform::identity_spec().apply_spec(p) == p,
{
    lemma_unit_coord(0, p.x as int, p.y as int);
    lemma_unit_coord(0, p.y as int, p.x as int);
}

/// `(SCALE * x + 0 * y) / SCALE + 0`, clamped, is `x` for in-range `x`.
proof fn lemma_unit_coord(shift: int, x: int, y: int)
    requires
        -RESOLVED_LIMIT <= x <= RESOLVED_LIMIT,
        shift == 0,
    ensures
        clamp(tdiv((SCALE as int) * x + 0 * y, SCALE as int) + shift, RESOLVED_LIMIT as int) == x,
{
    assert((SCALE as int) * x + 0 * y == x * (SCALE as int)) by (nonlinear_arith);
    if x >= 0 {
        vstd::arithmetic::div_mod::lemma_div_by_multiple(x, SCALE as int);
    } else {
        vstd::arithmetic::div_mod::lemma_div_by_multiple(-x, SCALE as int);
        assert(-(x * (SCALE as int)) == (-x) * (SCALE as int)) by (nonlinear_arith);
    }
}

/// Intermediate bounds for [`AffineTransform::apply_coord`].
proof fn lemma_apply_ranges(u: int, v: int, x: int, y: int)
    requires
        -FACTOR_LIMIT <= u <= FACTOR_LIMIT,
        -FACTOR_LIMIT <= v <= FACTOR_LIMIT,
        -RESOLVED_LIMIT <= x <= RESOLVED_LIMIT,
        -RESOLVED_LIMIT <= y <= RESOLVED_LIMIT,
    ensures
        -(2_000_000_000_000_000_000_000_000_000 as int) <= u * x
            <= 2_000_000_000_000_000_000_000_000_000 as int,
        -(2_000_000_000_000_000_000_000_000_000 as int) <= v * y
            <= 2_000_000_000_000_000_000_000_000_000 as int,
        -(4_000_000_000_000_000_000_000_000 as int) <= tdiv(u * x + v * y, SCALE as int)
            <= 4_000_000_000_000_000_000_000_000 as int,
{
    assert(-(FACTOR_LIMIT as int) * RESOLVED_LIMIT <= u * x <= (FACTOR_LIMIT as int)
        * RESOLVED_LIMIT) by (nonlinear_arith)
        requires
            -FACTOR_LIMIT <= u <= FACTOR_LIMIT,
            -RESOLVED_LIMIT <= x <= RESOLVED_LIMIT,
    ;
    assert(-(FACTOR_LIMIT as int) * RESOLVED_LIMIT <= v * y <= (FACTOR_LIMIT as int)
        * RESOLVED_LIMIT) by (nonlinear_arith)
        requires
            -FACTOR_LIMIT <= v <= FACTOR_LIMIT,
            -RESOLVED_LIMIT <= y <= RESOLVED_LIMIT,
    ;
    crate::fixed::lemma_tdiv_range(u * x + v * y, 4_000_000_000_000_000_000_000_000_000, SCALE as int);
}

/// Intermediate bounds for one output coefficient of
/// [`AffineTransform::concat`].
proof fn lemma_concat_row(u: int, v: int, p: int, q: int)
    requires
        -INPUT_LIMIT <= u <= INPUT_LIMIT,
        -INPUT_LIMIT <= v <= INPUT_LIMIT,
        -FACTOR_LIMIT <= p <= FACTOR_LIMIT,
        -FACTOR_LIMIT <= q <= FACTOR_LIMIT,
    ensures
        -(2_000_000_000_000_000_000_000 as int) <= u * p <= 2_000_000_000_000_000_000_000 as int,
        -(2_000_000_000_000_000_000_000 as int) <= v * q <= 2_000_000_000_000_000_000_000 as int,
        -(4_000_000_000_000_000_000 as int) <= tdiv(u * p + v * q, SCALE as int)
            <= 4_000_000_000_000_000_000 as int,
{
    assert(-(INPUT_LIMIT as int) * FACTOR_LIMIT <= u * p <= (INPUT_LIMIT as int)
        * FACTOR_LIMIT) by (nonlinear_arith)
        requires
            -INPUT_LIMIT <= u <= INPUT_LIMIT,
            -FACTOR_LIMIT <= p <= FACTOR_LIMIT,
    ;
    assert(-(INPUT_LIMIT as int) * FACTOR_LIMIT <= v * q <= (INPUT_LIMIT as int)
        * FACTOR_LIMIT) by (nonlinear_arith)
        requires
            -INPUT_LIMIT <= v <= INPUT_LIMIT,
            -FACTOR_LIMIT <= q <= FACTOR_LIMIT,
    ;
    crate::fixed::lemma_tdiv_range(u * p + v * q, 4_000_000_000_000_000_000_000, SCALE as int);
}

} // verus!

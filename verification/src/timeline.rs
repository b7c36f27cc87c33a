//! The animation timeline: a deterministic sampling function of time.
//!
//! An [`AnimationDescriptor`] combines a value range, duration, easing
//! curve, repeat policy, autoreverse flag, and phase offset. Sampling at a
//! query time `t` (milliseconds since the animation's logical start)
//! proceeds exactly as [`AnimationDescriptor::value_at_spec`] states:
//!
//! 1. the local time is `t - phase_offset`; before it reaches zero the
//!    animation holds at `from_value` (a negative offset staggers starts);
//! 2. the cycle index is `local / duration`; under `Count(n)` the
//!    animation is finished once the index reaches `n` and holds at its
//!    resting value; under `Forever` it never finishes;
//! 3. the phase within the cycle is the exact rational
//!    `(local % duration) / duration`; with autoreverse, odd cycles play
//!    the mirrored phase;
//! 4. the phase is eased and the output is
//!    `from_value + eased_fraction * (to_value - from_value)`, with a
//!    single truncating division at the end.

use vstd::prelude::*;

use crate::easing::{ease_num, lemma_easing_bounds, Easing};
use crate::fixed::{lemma_tdiv_fraction, tdiv, tdiv_i128, INPUT_LIMIT};
use crate::geom::AffineTransform;

verus! {

/// How often an animation repeats: a positive finite count, or forever.
#[derive(Clone, Copy, PartialEq, Eq, Structural, Debug)]
pub enum RepeatPolicy {
    Count(u32),
    Forever,
}

/// Why a descriptor was rejected at construction time.
#[derive(Clone, Copy, PartialEq, Eq, Structural, Debug)]
pub enum TimelineError {
    NonPositiveDuration,
    ZeroRepeatCount,
}

/// An immutable animation timeline.
///
/// Values are scalars in milli-units, times in milliseconds. Constructed
/// through [`AnimationDescriptor::new`], which validates `duration > 0`
/// and a positive repeat count.
#[derive(Clone, Copy, PartialEq, Eq, Structural, Debug)]
pub struct AnimationDescriptor {
    pub from_value: i64,
    pub to_value: i64,
    pub duration: i64,
    pub easing: Easing,
    pub repeat: RepeatPolicy,
    pub autoreverse: bool,
    pub phase_offset: i64,
}

impl AnimationDescriptor {
    /// The validity invariant that construction establishes.
    pub open spec fn wf(self) -> bool {
        &&& 0 < self.duration <= INPUT_LIMIT
        &&& -INPUT_LIMIT <= self.from_value <= INPUT_LIMIT
        &&& -INPUT_LIMIT <= self.to_value <= INPUT_LIMIT
        &&& -INPUT_LIMIT <= self.phase_offset <= INPUT_LIMIT
        &&& (self.repeat matches RepeatPolicy::Count(n) ==> n >= 1)
    }

    /// Validated construction: rejects a non-positive duration, then a
    /// zero repeat count; otherwise returns the descriptor with exactly
    /// the given fields.
    pub fn new(
        from_value: i64,
        to_value: i64,
        duration: i64,
        easing: Easing,
        repeat: RepeatPolicy,
        autoreverse: bool,
        phase_offset: i64,
    ) -> (r: Result<Self, TimelineError>)
        requires
            -INPUT_LIMIT <= from_value <= INPUT_LIMIT,
            -INPUT_LIMIT <= to_value <= INPUT_LIMIT,
            duration <= INPUT_LIMIT,
            -INPUT_LIMIT <= phase_offset <= INPUT_LIMIT,
        ensures
            duration <= 0 ==> r == Err::<Self, TimelineError>(TimelineError::NonPositiveDuration),
            duration > 0 && repeat == RepeatPolicy::Count(0u32) ==> r == Err::<Self, TimelineError>(
                TimelineError::ZeroRepeatCount,
            ),
            duration > 0 && repeat != RepeatPolicy::Count(0u32) ==> r == Ok::<Self, TimelineError>(
                (AnimationDescriptor {
                    from_value,
                    to_value,
                    duration,
                    easing,
                    repeat,
                    autoreverse,
                    phase_offset,
                }),
            ),
            r is Ok ==> r->Ok_0.wf(),
    {
        if duration <= 0 {
            return Err(TimelineError::NonPositiveDuration);
        }
        if let RepeatPolicy::Count(n) = repeat {
            if n == 0 {
                return Err(TimelineError::ZeroRepeatCount);
            }
        }
        Ok(
            AnimationDescriptor {
                from_value,
                to_value,
                duration,
                easing,
                repeat,
                autoreverse,
                phase_offset,
            },
        )
    }

    /// Time elapsed since the animation's phase-shifted start.
    pub open spec fn local_time(self, t: int) -> int {
        t - self.phase_offset
    }

    /// Index of the cycle that the local time falls in.
    pub open spec fn cycle(self, t: int) -> int
        recommends
            self.wf(),
            self.local_time(t) >= 0,
    {
        self.local_time(t) / self.duration as int
    }

    /// Time elapsed within the current cycle.
    pub open spec fn cycle_rem(self, t: int) -> int
        recommends
            self.wf(),
            self.local_time(t) >= 0,
    {
        self.local_time(t) % self.duration as int
    }

    /// The repeat count, or zero for `Forever`.
    pub open spec fn repeat_count(self) -> int {
        match self.repeat {
            RepeatPolicy::Count(n) => n as int,
            RepeatPolicy::Forever => 0,
        }
    }

    /// Whether the animation has run through all its cycles at time `t`.
    pub open spec fn finished(self, t: int) -> bool
        recommends
            self.wf(),
            self.local_time(t) >= 0,
    {
        match self.repeat {
            RepeatPolicy::Count(n) => self.cycle(t) >= n,
            RepeatPolicy::Forever => false,
        }
    }

    /// Whether the current cycle plays the mirrored phase: autoreverse is
    /// set and the cycle index is odd.
    pub open spec fn mirrored(self, t: int) -> bool
        recommends
            self.wf(),
            self.local_time(t) >= 0,
    {
        self.autoreverse && self.cycle(t) % 2 == 1
    }

    /// Numerator of the phase within the cycle, over the denominator
    /// `duration`; mirrored on odd cycles under autoreverse.
    pub open spec fn phase_num(self, t: int) -> int
        recommends
            self.wf(),
            self.local_time(t) >= 0,
    {
        if self.mirrored(t) {
            self.duration - self.cycle_rem(t)
        } else {
            self.cycle_rem(t)
        }
    }

    /// The value a finished animation holds when interpolating from
    /// `from` to `to`: `to`, or `from` when the last completed cycle was
    /// a reverse pass under autoreverse.
    pub open spec fn resting_between(self, from: int, to: int) -> int {
        if self.autoreverse && self.repeat_count() % 2 == 0 {
            from
        } else {
            to
        }
    }

    /// The value a finished animation holds.
    pub open spec fn resting_value(self) -> int {
        self.resting_between(self.from_value as int, self.to_value as int)
    }

    /// The deterministic sample of this timeline at time `t`, between
    /// the given endpoints: held at `from` before the phase-shifted
    /// start, held at the resting value once finished, and otherwise
    /// `from` plus the delta scaled by the eased phase fraction
    /// (truncated toward zero).
    pub open spec fn value_between_spec(self, from: int, to: int, t: int) -> int
        recommends
            self.wf(),
    {
        if self.local_time(t) < 0 {
            from
        } else if self.finished(t) {
            self.resting_between(from, to)
        } else {
            from + tdiv(
                (to - from) * ease_num(self.easing, self.phase_num(t), self.duration as int),
                (self.duration as int) * (self.duration as int),
            )
        }
    }

    /// The deterministic sample of this timeline at time `t`.
    pub open spec fn value_at_spec(self, t: int) -> int
        recommends
            self.wf(),
    {
        self.value_between_spec(self.from_value as int, self.to_value as int, t)
    }

    /// Sample the timeline at time `t` milliseconds.
    ///
    /// The result always lies between `from_value` and `to_value`.
    pub fn value_at(&self, t: i64) -> (v: i64)
        requires
            self.wf(),
            -INPUT_LIMIT <= t <= INPUT_LIMIT,
        ensures
            v == self.value_at_spec(t as int),
            self.from_value <= self.to_value ==> self.from_value <= v <= self.to_value,
            self.to_value <= self.from_value ==> self.to_value <= v <= self.from_value,
    {
        self.value_between(self.from_value, self.to_value, t)
    }

    /// Sample the timeline at time `t` between arbitrary endpoints: the
    /// same timing, repetition, and easing as [`Self::value_at`], applied
    /// to the given value pair. This is the component sampler for
    /// transform-valued animation.
    pub fn value_between(&self, from: i64, to: i64, t: i64) -> (v: i64)
        requires
            self.wf(),
            -INPUT_LIMIT <= from <= INPUT_LIMIT,
            -INPUT_LIMIT <= to <= INPUT_LIMIT,
            -INPUT_LIMIT <= t <= INPUT_LIMIT,
        ensures
            v == self.value_between_spec(from as int, to as int, t as int),
            from <= to ==> from <= v <= to,
            to <= from ==> to <= v <= from,
    {
        let tl: i64 = t - self.phase_offset;
        if tl < 0 {
            return from;
        }
        let tu = tl as u64;
        let du = self.duration as u64;
        let c: u64 = tu / du;
        let rem: u64 = tu % du;
        match self.repeat {
            RepeatPolicy::Count(n) => {
                if c >= n as u64 {
                    return if self.autoreverse && n % 2 == 0 {
                        from
                    } else {
                        to
                    };
                }
            },
            RepeatPolicy::Forever => {},
        }
        let mirrored = self.autoreverse && c % 2 == 1;
        let q: i64 = if mirrored {
            self.duration - rem as i64
        } else {
            rem as i64
        };
        let num: i128 = self.easing.eval(q, self.duration);
        proof {
            assert(0 < (self.duration as int) * (self.duration as int)
                <= 1_000_000_000_000_000_000_000_000 as int) by (nonlinear_arith)
                requires
                    0 < (self.duration as int) <= 1_000_000_000_000 as int,
            ;
            lemma_easing_bounds(self.easing, q as int, self.duration as int);
        }
        let den: i128 = self.duration as i128 * self.duration as i128;
        let delta: i64 = to - from;
        proof {
            assert(delta * num <= 3_000_000_000_000_000_000_000_000_000_000_000_000 as int
                && delta * num >= -(3_000_000_000_000_000_000_000_000_000_000_000_000 as int))
                by (nonlinear_arith)
                requires
                    -(2_000_000_000_000 as int) <= delta <= 2_000_000_000_000 as int,
                    -(1_000_000_000_000_000_000_000_000 as int) <= num
                        <= 1_000_000_000_000_000_000_000_000 as int,
            ;
            lemma_tdiv_fraction(delta as int, num as int, den as int);
        }
        let scaled: i128 = tdiv_i128(delta as i128 * num, den as u128);
        from + scaled as i64
    }

    /// Sample a transform-valued animation at time `t`: the same timing
    /// as [`Self::value_at`], interpolated component-wise between two
    /// affine transforms (the scalar `from_value`/`to_value` of the
    /// descriptor play no part here).
    pub fn transform_value_at(&self, from: &AffineTransform, to: &AffineTransform, t: i64) -> (r:
        AffineTransform)
        requires
            self.wf(),
            from.wf(),
            to.wf(),
            -INPUT_LIMIT <= t <= INPUT_LIMIT,
        ensures
            r.a == self.value_between_spec(from.a as int, to.a as int, t as int),
            r.b == self.value_between_spec(from.b as int, to.b as int, t as int),
            r.c == self.value_between_spec(from.c as int, to.c as int, t as int),
            r.d == self.value_between_spec(from.d as int, to.d as int, t as int),
            r.tx == self.value_between_spec(from.tx as int, to.tx as int, t as int),
            r.ty == self.value_between_spec(from.ty as int, to.ty as int, t as int),
            r.wf(),
    {
        AffineTransform {
            a: self.value_between(from.a, to.a, t),
            b: self.value_between(from.b, to.b, t),
            c: self.value_between(from.c, to.c, t),
            d: self.value_between(from.d, to.d, t),
            tx: self.value_between(from.tx, to.tx, t),
            ty: self.value_between(from.ty, to.ty, t),
        }
    }
}

/// Timeline periodicity: with `Forever` repetition and no autoreverse,
/// the sample one duration later is identical, for any time at or past
/// the phase-shifted start.
pub proof fn lemma_periodic_forever(desc: AnimationDescriptor, t: int)
    requires
        desc.wf(),
        desc.repeat == RepeatPolicy::Forever,
        !desc.autoreverse,
        desc.local_time(t) >= 0,
    ensures
        desc.value_at_spec(t + desc.duration) == desc.value_at_spec(t),
{
    let d = desc.duration as int;
    let x = desc.local_time(t);
    vstd::arithmetic::div_mod::lemma_div_plus_one(x, d);
    vstd::arithmetic::div_mod::lemma_mod_add_multiples_vanish(x, d);
    assert(desc.local_time(t + d) == d + x);
    assert(desc.cycle_rem(t + d) == desc.cycle_rem(t));
}

/// Autoreverse mirror law: with `Forever` repetition and autoreverse, the
/// samples at local times `u` and `2*duration - u` coincide for
/// `0 <= u <= duration` — the forward pass of cycle zero mirrors the
/// reverse pass of cycle one.
pub proof fn lemma_autoreverse_mirror(desc: AnimationDescriptor, u: int)
    requires
        desc.wf(),
        desc.autoreverse,
        desc.repeat == RepeatPolicy::Forever,
        0 <= u <= desc.duration,
    ensures
        desc.value_at_spec(desc.phase_offset + u) == desc.value_at_spec(
            desc.phase_offset + 2 * desc.duration - u,
        ),
{
    let d = desc.duration as int;
    let t1 = desc.phase_offset + u;
    let t2 = desc.phase_offset + 2 * d - u;
    assert(desc.local_time(t1) == u);
    assert(desc.local_time(t2) == 2 * d - u);
    if u == d {
        assert(t1 == t2);
    } else if u == 0 {
        vstd::arithmetic::div_mod::lemma_fundamental_div_mod_converse(0, d, 0, 0);
        vstd::arithmetic::div_mod::lemma_fundamental_div_mod_converse(2 * d, d, 2, 0);
        assert(desc.phase_num(t1) == 0);
        assert(desc.phase_num(t2) == 0);
    } else {
        vstd::arithmetic::div_mod::lemma_fundamental_div_mod_converse(u, d, 0, u);
        vstd::arithmetic::div_mod::lemma_fundamental_div_mod_converse(2 * d - u, d, 1, d - u);
        assert(desc.cycle(t1) == 0);
        assert(desc.cycle(t2) == 1);
        assert(desc.phase_num(t1) == u);
        assert(desc.phase_num(t2) == d - (d - u));
    }
}

/// Finite repeat termination: once the local time has passed
/// `count * duration`, every sample equals the resting value — the
/// animation holds, it does not extrapolate.
pub proof fn lemma_finite_repeat_holds(desc: AnimationDescriptor, t: int)
    requires
        desc.wf(),
        desc.repeat is Count,
        desc.local_time(t) >= desc.repeat_count() * desc.duration,
    ensures
        desc.value_at_spec(t) == desc.resting_value(),
{
    let d = desc.duration as int;
    let n = desc.repeat_count();
    assert(n * d >= 1) by (nonlinear_arith)
        requires
            n >= 1,
            d >= 1,
    ;
    vstd::arithmetic::div_mod::lemma_div_is_ordered(n * d, desc.local_time(t), d);
    vstd::arithmetic::div_mod::lemma_div_by_multiple(n, d);
    assert(desc.cycle(t) >= n);
}

} // verus!

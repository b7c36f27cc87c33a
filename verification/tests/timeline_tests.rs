//! Easing curves and timeline sampling.
//!
//! Values are milli-units, times milliseconds: an easing phase is
//! sampled as a fraction `q / d`, and `Easing::eval(q, d)` returns the
//! eased numerator over the denominator `d * d`.

use core_animation::easing::Easing;
use core_animation::geom::AffineTransform;
use core_animation::timeline::{AnimationDescriptor, RepeatPolicy, TimelineError};

const VARIANTS: [Easing; 4] = [Easing::Linear, Easing::In, Easing::Out, Easing::InOut];

#[test]
fn test_easing_boundaries() {
    // f(0) = 0 and f(1) = 1, exactly, for every variant.
    let d: i64 = 100;
    for e in VARIANTS {
        assert_eq!(e.eval(0, d), 0);
        assert_eq!(e.eval(d, d), (d as i128) * (d as i128));
    }
}

#[test]
fn test_easing_monotone_on_hundred_samples() {
    let d: i64 = 100;
    for e in VARIANTS {
        for k in 0..d {
            assert!(e.eval(k, d) <= e.eval(k + 1, d));
        }
    }
}

#[test]
fn test_easing_exact_values() {
    // At phase 1/2 with denominator 1000: eased numerators over 10^6.
    let d: i64 = 1_000;
    assert_eq!(Easing::Linear.eval(500, d), 500_000);
    assert_eq!(Easing::In.eval(500, d), 250_000);
    assert_eq!(Easing::Out.eval(500, d), 750_000);
    assert_eq!(Easing::InOut.eval(500, d), 500_000);
    // At phase 1/4 the in-out curve is still in its quadratic half.
    assert_eq!(Easing::InOut.eval(250, d), 125_000);
}

fn linear_forever(autoreverse: bool) -> AnimationDescriptor {
    AnimationDescriptor::new(
        0,
        1_000,
        2_000,
        Easing::Linear,
        RepeatPolicy::Forever,
        autoreverse,
        0,
    )
    .unwrap()
}

#[test]
fn test_duration_validation() {
    let r = AnimationDescriptor::new(0, 1, 0, Easing::Linear, RepeatPolicy::Forever, false, 0);
    assert_eq!(r, Err(TimelineError::NonPositiveDuration));
    let r = AnimationDescriptor::new(0, 1, -5, Easing::Linear, RepeatPolicy::Forever, false, 0);
    assert_eq!(r, Err(TimelineError::NonPositiveDuration));
    let r = AnimationDescriptor::new(0, 1, 10, Easing::Linear, RepeatPolicy::Count(0), false, 0);
    assert_eq!(r, Err(TimelineError::ZeroRepeatCount));
    let r = AnimationDescriptor::new(0, 1, 10, Easing::Linear, RepeatPolicy::Count(1), false, 0);
    assert!(r.is_ok());
}

#[test]
fn test_timeline_periodicity() {
    // duration = 2 s, repeat forever, no autoreverse:
    // valueAt(t) == valueAt(t + 2 s) for sampled t >= 0.
    let desc = linear_forever(false);
    let mut t: i64 = 0;
    while t <= 10_000 {
        assert_eq!(desc.value_at(t), desc.value_at(t + 2_000));
        t += 137;
    }
}

#[test]
fn test_timeline_linear_samples() {
    let desc = linear_forever(false);
    assert_eq!(desc.value_at(0), 0);
    assert_eq!(desc.value_at(500), 250);
    assert_eq!(desc.value_at(1_000), 500);
    assert_eq!(desc.value_at(1_500), 750);
    // The next cycle restarts forward.
    assert_eq!(desc.value_at(2_000), 0);
}

#[test]
fn test_autoreverse_symmetry() {
    // With autoreverse and duration = 2 s, the forward pass of cycle
    // zero mirrors the reverse pass of cycle one: local times u and
    // 4 s - u sample the same value (phase 0.25 mirrors phase 0.75 at
    // u = 0.5 s).
    let desc = linear_forever(true);
    assert_eq!(desc.value_at(500), desc.value_at(3_500));
    let mut u: i64 = 0;
    while u <= 2_000 {
        assert_eq!(desc.value_at(u), desc.value_at(4_000 - u));
        u += 97;
    }
    // Within cycle zero both samples are forward and differ.
    assert_eq!(desc.value_at(500), 250);
    assert_eq!(desc.value_at(1_500), 750);
}

#[test]
fn test_finite_repeat_termination() {
    // Count(3), duration 1 s: after 3 s the animation holds its final
    // resting value and never extrapolates.
    let desc = AnimationDescriptor::new(
        0,
        1_000,
        1_000,
        Easing::Linear,
        RepeatPolicy::Count(3),
        false,
        0,
    )
    .unwrap();
    assert_eq!(desc.value_at(3_500), 1_000);
    assert_eq!(desc.value_at(3_500), desc.value_at(100_000));

    // With autoreverse and an even count the last pass is a reverse
    // pass, so the resting value is the starting value.
    let desc = AnimationDescriptor::new(
        0,
        1_000,
        1_000,
        Easing::Linear,
        RepeatPolicy::Count(2),
        true,
        0,
    )
    .unwrap();
    assert_eq!(desc.value_at(2_500), 0);
    assert_eq!(desc.value_at(2_500), desc.value_at(50_000));
}

#[test]
fn test_phase_offset_staggers_start() {
    // A positive offset holds at the starting value until it elapses.
    let desc = AnimationDescriptor::new(
        0,
        1_000,
        2_000,
        Easing::Linear,
        RepeatPolicy::Forever,
        false,
        500,
    )
    .unwrap();
    assert_eq!(desc.value_at(0), 0);
    assert_eq!(desc.value_at(499), 0);
    assert_eq!(desc.value_at(1_500), 500);

    // A negative offset starts the animation mid-flight.
    let desc = AnimationDescriptor::new(
        0,
        1_000,
        2_000,
        Easing::Linear,
        RepeatPolicy::Forever,
        false,
        -500,
    )
    .unwrap();
    assert_eq!(desc.value_at(0), 250);
}

#[test]
fn test_descending_range_interpolates_downward() {
    let desc = AnimationDescriptor::new(
        1_000,
        0,
        2_000,
        Easing::Linear,
        RepeatPolicy::Forever,
        false,
        0,
    )
    .unwrap();
    assert_eq!(desc.value_at(0), 1_000);
    assert_eq!(desc.value_at(500), 750);
    assert_eq!(desc.value_at(1_500), 250);
}

#[test]
fn test_transform_valued_interpolation() {
    // A transform-valued animation interpolates component-wise with the
    // same timing: halfway through a linear cycle, a doubling scale
    // animated toward a quadrupling scale is a tripling scale.
    let desc = linear_forever(false);
    let from = AffineTransform::scale(2_000, 2_000);
    let to = AffineTransform::scale(4_000, 4_000);
    let mid = desc.transform_value_at(&from, &to, 1_000);
    assert_eq!(mid, AffineTransform::scale(3_000, 3_000));
    assert_eq!(desc.transform_value_at(&from, &to, 0), from);
}

#[test]
fn test_value_between_matches_timing() {
    // The endpoint-generic sampler follows the same timing as the
    // descriptor's own value range.
    let desc = linear_forever(false);
    assert_eq!(desc.value_between(100, 300, 500), 150);
    assert_eq!(desc.value_between(100, 300, 0), 100);
}

#[test]
fn test_eased_timeline_samples() {
    let desc = AnimationDescriptor::new(
        0,
        1_000,
        1_000,
        Easing::In,
        RepeatPolicy::Count(1),
        false,
        0,
    )
    .unwrap();
    // Quadratic ease-in: f(1/2) = 1/4.
    assert_eq!(desc.value_at(500), 250);
    let desc = AnimationDescriptor::new(
        0,
        1_000,
        1_000,
        Easing::Out,
        RepeatPolicy::Count(1),
        false,
        0,
    )
    .unwrap();
    assert_eq!(desc.value_at(500), 750);
}

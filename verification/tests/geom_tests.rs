//! Affine transform arithmetic.
//!
//! Matrix coefficients are scaled by 1000: `scale(2_000, 2_000)` doubles
//! both coordinates; translations are plain milli-units.

use core_animation::geom::{AffineTransform, Point};

#[test]
fn test_identity_apply() {
    let t = AffineTransform::identity();
    let p = Point { x: 12_345, y: -6_789 };
    assert_eq!(t.apply(p), p);
}

#[test]
fn test_scale_apply() {
    let t = AffineTransform::scale(2_000, 500);
    let p = t.apply(Point { x: 10_000, y: 10_000 });
    assert_eq!(p, Point { x: 20_000, y: 5_000 });
}

#[test]
fn test_translation_apply() {
    let t = AffineTransform::translation(5_000, -3_000);
    let p = t.apply(Point { x: 1_000, y: 2_000 });
    assert_eq!(p, Point { x: 6_000, y: -1_000 });
}

#[test]
fn test_concat_scale_then_translate() {
    let s = AffineTransform::scale(2_000, 2_000);
    let t = AffineTransform::translation(10_000, 20_000);
    let both = s.concat(&t);
    // Apply the scale first, then the translation.
    let p = both.apply(Point { x: 1_000, y: 1_000 });
    assert_eq!(p, Point { x: 12_000, y: 22_000 });
    // The other order translates first, then scales.
    let other = t.concat(&s);
    let q = other.apply(Point { x: 1_000, y: 1_000 });
    assert_eq!(q, Point { x: 22_000, y: 42_000 });
}

#[test]
fn test_concat_identity_is_neutral() {
    let s = AffineTransform::scale(1_500, -2_500);
    let id = AffineTransform::identity();
    assert_eq!(s.concat(&id), s);
    assert_eq!(id.concat(&s), s);
}

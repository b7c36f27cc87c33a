//! Path builder construction and bounding-box behaviour.
//!
//! Coordinates are milli-units: `50_000` is 50 units.

use core_animation::geom::{AffineTransform, Point, Rect};
use core_animation::path::PathCmd;
use core_animation::path_builder::CGPathBuilder;

#[test]
fn test_new_builder() {
    let builder = CGPathBuilder::new();
    assert!(builder.is_empty());
}

#[test]
fn test_move_and_line() {
    let path = CGPathBuilder::new()
        .move_to(0, 0)
        .line_to(100_000, 100_000)
        .build();

    assert!(!path.is_empty());
}

#[test]
fn test_close_creates_closed_path() {
    let path = CGPathBuilder::new()
        .move_to(0, 0)
        .line_to(100_000, 0)
        .line_to(50_000, 100_000)
        .close()
        .build();

    assert!(!path.is_empty());
    assert_eq!(*path.cmds.last().unwrap(), PathCmd::Close);
}

#[test]
fn test_circle() {
    let path = CGPathBuilder::new().circle(50_000, 50_000, 50_000).build();

    let bounds = path.bounding_box().unwrap();
    // Circle at (50, 50) with diameter 50 has bounds (25, 25, 50, 50).
    assert_eq!(bounds, Rect { x: 25_000, y: 25_000, w: 50_000, h: 50_000 });
}

#[test]
fn test_rect() {
    let path = CGPathBuilder::new().rect(10_000, 20_000, 100_000, 50_000).build();

    let bounds = path.bounding_box().unwrap();
    assert_eq!(bounds, Rect { x: 10_000, y: 20_000, w: 100_000, h: 50_000 });
}

#[test]
fn test_bounding_box_during_construction() {
    let builder = CGPathBuilder::new()
        .move_to(10_000, 10_000)
        .line_to(90_000, 10_000)
        .line_to(90_000, 90_000)
        .line_to(10_000, 90_000)
        .close();

    let bounds = builder.bounding_box().unwrap();
    assert_eq!(bounds, Rect { x: 10_000, y: 10_000, w: 80_000, h: 80_000 });
}

#[test]
fn test_default_trait() {
    let builder = CGPathBuilder::default();
    assert!(builder.is_empty());
}

#[test]
fn test_lines_helper() {
    // A polyline moves to the first point, then draws lines to the rest:
    // (10,10) -> (20,0) -> (30,10).
    let path = CGPathBuilder::new()
        .lines(&vec![(10_000, 10_000), (20_000, 0), (30_000, 10_000)])
        .build();

    assert!(!path.is_empty());
    let bounds = path.bounding_box().unwrap();
    // x spans [10, 30] (width 20), y spans [0, 10] (height 10).
    assert_eq!(bounds, Rect { x: 10_000, y: 0, w: 20_000, h: 10_000 });
}

#[test]
fn test_transform_non_retroactive() {
    // A move under a doubling scale is scaled; clearing the transform
    // must not rescale it, and the following line is recorded as given.
    let path = CGPathBuilder::new()
        .transform(AffineTransform::scale(2_000, 2_000))
        .move_to(10_000, 10_000)
        .no_transform()
        .line_to(20_000, 20_000)
        .build();

    assert_eq!(
        path.cmds[0],
        PathCmd::MoveTo { p: Point { x: 20_000, y: 20_000 } }
    );
    assert_eq!(
        path.cmds[1],
        PathCmd::LineTo { p: Point { x: 20_000, y: 20_000 } }
    );
}

#[test]
fn test_empty_bounding_box() {
    let builder = CGPathBuilder::new();
    assert!(builder.bounding_box().is_none());
    let path = builder.build();
    assert!(path.bounding_box().is_none());
}

#[test]
fn test_degenerate_arc_appends_nothing() {
    let builder = CGPathBuilder::new().arc(50_000, 50_000, 0, 0, 3_142, false);
    assert!(builder.is_empty());
    let builder = builder.relative_arc(50_000, 50_000, -5_000, 0, 1_571);
    assert!(builder.is_empty());
}

#[test]
fn test_arc_bounding_box_is_frame() {
    let path = CGPathBuilder::new()
        .move_to(10_000, 0)
        .arc(0, 0, 10_000, 0, 3_142, false)
        .build();

    let bounds = path.bounding_box().unwrap();
    // The arc contributes its circle's frame: centre ± radius.
    assert_eq!(bounds, Rect { x: -10_000, y: -10_000, w: 20_000, h: 20_000 });
}

#[test]
fn test_relative_arc_sweep_direction() {
    let path = CGPathBuilder::new()
        .relative_arc(0, 0, 10_000, 500, -1_000)
        .build();

    match path.cmds[0] {
        PathCmd::Arc { start_angle, end_angle, clockwise, .. } => {
            assert_eq!(start_angle, 500);
            assert_eq!(end_angle, -500);
            assert!(clockwise);
        }
        ref c => panic!("expected an arc, got {:?}", c),
    }
}

#[test]
fn test_arc_to_collinear_falls_back_to_line() {
    let path = CGPathBuilder::new()
        .move_to(0, 0)
        .arc_to(10_000, 0, 20_000, 0, 5_000)
        .build();

    assert_eq!(
        path.cmds[1],
        PathCmd::LineTo { p: Point { x: 10_000, y: 0 } }
    );
}

#[test]
fn test_arc_to_records_tangent_arc() {
    let path = CGPathBuilder::new()
        .move_to(0, 50_000)
        .arc_to(0, 0, 50_000, 0, 10_000)
        .build();

    assert_eq!(
        path.cmds[1],
        PathCmd::ArcTo {
            p1: Point { x: 0, y: 0 },
            p2: Point { x: 50_000, y: 0 },
            radius: 10_000,
        }
    );
}

#[test]
fn test_lines_short_input_is_no_op() {
    let builder = CGPathBuilder::new().lines(&vec![]);
    assert!(builder.is_empty());
    let builder = builder.lines(&vec![(10_000, 10_000)]);
    assert!(builder.is_empty());
}

#[test]
fn test_circle_zero_diameter_is_no_op() {
    let builder = CGPathBuilder::new().circle(50_000, 50_000, 0);
    assert!(builder.is_empty());
}

#[test]
fn test_close_without_subpath_is_no_op() {
    let builder = CGPathBuilder::new().close();
    assert!(builder.is_empty());
}

#[test]
fn test_line_without_current_point_becomes_move() {
    let path = CGPathBuilder::new().line_to(30_000, 40_000).build();
    assert_eq!(
        path.cmds[0],
        PathCmd::MoveTo { p: Point { x: 30_000, y: 40_000 } }
    );
}

#[test]
fn test_curves_contribute_control_points_to_bounds() {
    let bounds = CGPathBuilder::new()
        .move_to(0, 0)
        .quad_curve_to(50_000, -50_000, 100_000, 0)
        .bounding_box()
        .unwrap();
    assert_eq!(bounds, Rect { x: 0, y: -50_000, w: 100_000, h: 50_000 });

    let bounds = CGPathBuilder::new()
        .move_to(0, 0)
        .curve_to(25_000, -50_000, 75_000, -50_000, 100_000, 0)
        .bounding_box()
        .unwrap();
    assert_eq!(bounds, Rect { x: 0, y: -50_000, w: 100_000, h: 50_000 });
}

#[test]
fn test_rounded_rect_records_corner_radii() {
    let path = CGPathBuilder::new()
        .rounded_rect(10_000, 10_000, 80_000, 60_000, 8_000)
        .build();

    match path.cmds[0] {
        PathCmd::RoundedRect { corner_w, corner_h, .. } => {
            assert_eq!(corner_w, 8_000);
            assert_eq!(corner_h, 8_000);
        }
        ref c => panic!("expected a rounded rectangle, got {:?}", c),
    }

    let path = CGPathBuilder::new()
        .rounded_rect_asymmetric(10_000, 10_000, 80_000, 60_000, 15_000, 8_000)
        .build();

    match path.cmds[0] {
        PathCmd::RoundedRect { corner_w, corner_h, .. } => {
            assert_eq!(corner_w, 15_000);
            assert_eq!(corner_h, 8_000);
        }
        ref c => panic!("expected a rounded rectangle, got {:?}", c),
    }
}

#[test]
fn test_ellipse_bounding_box() {
    let bounds = CGPathBuilder::new()
        .ellipse(10_000, 20_000, 80_000, 40_000)
        .bounding_box()
        .unwrap();
    assert_eq!(bounds, Rect { x: 10_000, y: 20_000, w: 80_000, h: 40_000 });
}

#[test]
fn test_add_path_applies_active_transform() {
    let inner = CGPathBuilder::new().rect(10_000, 10_000, 20_000, 20_000).build();

    let combined = CGPathBuilder::new()
        .transform(AffineTransform::scale(2_000, 2_000))
        .add_path(&inner)
        .build();

    // The appended rectangle's frame is the inner one, doubled.
    let bounds = combined.bounding_box().unwrap();
    assert_eq!(bounds, Rect { x: 20_000, y: 20_000, w: 40_000, h: 40_000 });
}

#[test]
fn test_add_path_without_transform_copies() {
    let inner = CGPathBuilder::new().move_to(1_000, 2_000).build();
    let combined = CGPathBuilder::new().add_path(&inner).build();
    assert_eq!(combined.cmds, inner.cmds);
}

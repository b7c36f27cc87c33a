//! Builder for vector paths: an ordered sequence of drawing commands
//! accumulated under an optional transform context.
//!
//! Each command is resolved — transformed by the context active at the
//! moment it is appended — and recorded immutably. Changing or clearing
//! the context is therefore never retroactive: it affects only commands
//! appended afterwards. [`CGPathBuilder::build`] consumes the builder
//! into an immutable [`Path`]; [`CGPathBuilder::bounding_box`] is a pure
//! query available at any point during construction.
//!
//! Geometric degeneracies are resolved by well-defined fallbacks, never
//! errors: a non-positive radius or diameter appends nothing, a polyline
//! of fewer than two points appends nothing, and a tangent arc whose
//! construction degenerates (no current point, non-positive radius, or
//! exactly collinear tangent lines) falls back to a straight line to its
//! first tangent point.
//!
//! The builder tracks where the current point is: exactly known (moves,
//! lines, curve endpoints, rectangle corners), known to exist but not
//! exactly representable (after an arc or an ellipse, whose endpoint
//! needs trigonometry), or absent. A line appended with no current point
//! establishes its position as a move instead, and closing with no open
//! subpath appends nothing.

use vstd::prelude::*;

use crate::fixed::{clamp, INPUT_LIMIT, RESOLVED_LIMIT};
use crate::geom::{AffineTransform, Point, Rect};
use crate::path::{
    bounds_match, bounds_of_cmds, cmd_in_range, cmds_in_range, quad_in_range, Path, PathCmd, Quad,
};

verus! {

/// What the builder knows about the current point.
#[derive(Clone, Copy, PartialEq, Eq, Structural, Debug)]
pub enum TracePoint {
    /// No subpath has been started.
    Absent,
    /// The current point is exactly this resolved point.
    Exact(Point),
    /// A current point exists, but its exact coordinates would need
    /// trigonometry (after an arc, an ellipse, or an appended path).
    Inexact,
}

/// The point recorded for input `(x, y)` under a transform context:
/// transformed by the active transform, or taken as given (saturated like
/// every resolved coordinate) when no transform is active.
pub open spec fn ctx_x(active: Option<AffineTransform>, x: int, y: int) -> int {
    match active {
        Option::Some(t) => t.apply_x_spec(x, y),
        Option::None => clamp(x, RESOLVED_LIMIT as int),
    }
}

/// The y coordinate recorded for input `(x, y)` under a transform
/// context.
pub open spec fn ctx_y(active: Option<AffineTransform>, x: int, y: int) -> int {
    match active {
        Option::Some(t) => t.apply_y_spec(x, y),
        Option::None => clamp(y, RESOLVED_LIMIT as int),
    }
}

/// The resolved point for input `(x, y)` under a transform context.
pub open spec fn ctx_pt(active: Option<AffineTransform>, x: int, y: int) -> Point {
    Point { x: ctx_x(active, x, y) as i64, y: ctx_y(active, x, y) as i64 }
}

/// The resolved frame for the axis-aligned rectangle with corners
/// `(x0, y0)` and `(x1, y1)`.
pub open spec fn ctx_quad(active: Option<AffineTransform>, x0: int, y0: int, x1: int, y1: int) -> Quad {
    Quad {
        p00: ctx_pt(active, x0, y0),
        p10: ctx_pt(active, x1, y0),
        p11: ctx_pt(active, x1, y1),
        p01: ctx_pt(active, x0, y1),
    }
}

/// A recorded command re-resolved under a transform context: every point
/// mapped, every scalar kept.
pub open spec fn ctx_cmd(active: Option<AffineTransform>, c: PathCmd) -> PathCmd {
    match c {
        PathCmd::MoveTo { p } => PathCmd::MoveTo { p: ctx_pt(active, p.x as int, p.y as int) },
        PathCmd::LineTo { p } => PathCmd::LineTo { p: ctx_pt(active, p.x as int, p.y as int) },
        PathCmd::QuadCurveTo { control, end } => PathCmd::QuadCurveTo {
            control: ctx_pt(active, control.x as int, control.y as int),
            end: ctx_pt(active, end.x as int, end.y as int),
        },
        PathCmd::CubicCurveTo { control1, control2, end } => PathCmd::CubicCurveTo {
            control1: ctx_pt(active, control1.x as int, control1.y as int),
            control2: ctx_pt(active, control2.x as int, control2.y as int),
            end: ctx_pt(active, end.x as int, end.y as int),
        },
        PathCmd::Arc { frame, start_angle, end_angle, clockwise } => PathCmd::Arc {
            frame: ctx_xquad(active, frame),
            start_angle,
            end_angle,
            clockwise,
        },
        PathCmd::ArcTo { p1, p2, radius } => PathCmd::ArcTo {
            p1: ctx_pt(active, p1.x as int, p1.y as int),
            p2: ctx_pt(active, p2.x as int, p2.y as int),
            radius,
        },
        PathCmd::Rect { frame } => PathCmd::Rect { frame: ctx_xquad(active, frame) },
        PathCmd::RoundedRect { frame, corner_w, corner_h } => PathCmd::RoundedRect {
            frame: ctx_xquad(active, frame),
            corner_w,
            corner_h,
        },
        PathCmd::Ellipse { frame } => PathCmd::Ellipse { frame: ctx_xquad(active, frame) },
        PathCmd::Close => PathCmd::Close,
    }
}

/// A recorded frame re-resolved under a transform context.
pub open spec fn ctx_xquad(active: Option<AffineTransform>, f: Quad) -> Quad {
    Quad {
        p00: ctx_pt(active, f.p00.x as int, f.p00.y as int),
        p10: ctx_pt(active, f.p10.x as int, f.p10.y as int),
        p11: ctx_pt(active, f.p11.x as int, f.p11.y as int),
        p01: ctx_pt(active, f.p01.x as int, f.p01.y as int),
    }
}

/// Three points lie on one straight line: the cross product of the two
/// steps vanishes.
pub open spec fn collinear(a: Point, b: Point, c: Point) -> bool {
    (b.x - a.x) * (c.y - b.y) == (b.y - a.y) * (c.x - b.x)
}

/// Resolve one input point under the context.
fn resolve_pt(active: &Option<AffineTransform>, x: i64, y: i64) -> (p: Point)
    requires
        active matches Some(t) ==> t.wf(),
        -RESOLVED_LIMIT <= x <= RESOLVED_LIMIT,
        -RESOLVED_LIMIT <= y <= RESOLVED_LIMIT,
    ensures
        p == ctx_pt(*active, x as int, y as int),
        p.in_range(RESOLVED_LIMIT as int),
{
    match active {
        Some(t) => t.apply(Point { x, y }),
        None => Point { x, y },
    }
}

/// Resolve the frame with corners `(x0, y0)` and `(x1, y1)` under the
/// context.
fn resolve_quad(active: &Option<AffineTransform>, x0: i64, y0: i64, x1: i64, y1: i64) -> (f: Quad)
    requires
        active matches Some(t) ==> t.wf(),
        -RESOLVED_LIMIT <= x0 <= RESOLVED_LIMIT,
        -RESOLVED_LIMIT <= y0 <= RESOLVED_LIMIT,
        -RESOLVED_LIMIT <= x1 <= RESOLVED_LIMIT,
        -RESOLVED_LIMIT <= y1 <= RESOLVED_LIMIT,
    ensures
        f == ctx_quad(*active, x0 as int, y0 as int, x1 as int, y1 as int),
        quad_in_range(f, RESOLVED_LIMIT as int),
{
    Quad {
        p00: resolve_pt(active, x0, y0),
        p10: resolve_pt(active, x1, y0),
        p11: resolve_pt(active, x1, y1),
        p01: resolve_pt(active, x0, y1),
    }
}

/// Re-resolve a recorded frame under the context.
fn xform_quad_exec(active: &Option<AffineTransform>, f: Quad) -> (r: Quad)
    requires
        active matches Some(t) ==> t.wf(),
        quad_in_range(f, RESOLVED_LIMIT as int),
    ensures
        r == ctx_xquad(*active, f),
        quad_in_range(r, RESOLVED_LIMIT as int),
{
    Quad {
        p00: resolve_pt(active, f.p00.x, f.p00.y),
        p10: resolve_pt(active, f.p10.x, f.p10.y),
        p11: resolve_pt(active, f.p11.x, f.p11.y),
        p01: resolve_pt(active, f.p01.x, f.p01.y),
    }
}

/// Re-resolve one recorded command under the context.
fn xform_cmd_exec(active: &Option<AffineTransform>, c: &PathCmd) -> (r: PathCmd)
    requires
        active matches Some(t) ==> t.wf(),
        cmd_in_range(*c),
    ensures
        r == ctx_cmd(*active, *c),
        cmd_in_range(r),
{
    match *c {
        PathCmd::MoveTo { p } => PathCmd::MoveTo { p: resolve_pt(active, p.x, p.y) },
        PathCmd::LineTo { p } => PathCmd::LineTo { p: resolve_pt(active, p.x, p.y) },
        PathCmd::QuadCurveTo { control, end } => PathCmd::QuadCurveTo {
            control: resolve_pt(active, control.x, control.y),
            end: resolve_pt(active, end.x, end.y),
        },
        PathCmd::CubicCurveTo { control1, control2, end } => PathCmd::CubicCurveTo {
            control1: resolve_pt(active, control1.x, control1.y),
            control2: resolve_pt(active, control2.x, control2.y),
            end: resolve_pt(active, end.x, end.y),
        },
        PathCmd::Arc { frame, start_angle, end_angle, clockwise } => PathCmd::Arc {
            frame: xform_quad_exec(active, frame),
            start_angle,
            end_angle,
            clockwise,
        },
        PathCmd::ArcTo { p1, p2, radius } => PathCmd::ArcTo {
            p1: resolve_pt(active, p1.x, p1.y),
            p2: resolve_pt(active, p2.x, p2.y),
            radius,
        },
        PathCmd::Rect { frame } => PathCmd::Rect { frame: xform_quad_exec(active, frame) },
        PathCmd::RoundedRect { frame, corner_w, corner_h } => PathCmd::RoundedRect {
            frame: xform_quad_exec(active, frame),
            corner_w,
            corner_h,
        },
        PathCmd::Ellipse { frame } => PathCmd::Ellipse { frame: xform_quad_exec(active, frame) },
        PathCmd::Close => PathCmd::Close,
    }
}

/// Exact collinearity of three resolved points.
fn collinear_exec(a: Point, b: Point, c: Point) -> (r: bool)
    requires
        a.in_range(RESOLVED_LIMIT as int),
        b.in_range(RESOLVED_LIMIT as int),
        c.in_range(RESOLVED_LIMIT as int),
    ensures
        r == collinear(a, b, c),
{
    let d1x: i128 = b.x as i128 - a.x as i128;
    let d1y: i128 = b.y as i128 - a.y as i128;
    let d2x: i128 = c.x as i128 - b.x as i128;
    let d2y: i128 = c.y as i128 - b.y as i128;
    proof {
        assert(d1x * d2y <= 16_000_000_000_000_000_000_000_000_000_000_000_000 as int && d1x * d2y
            >= -(16_000_000_000_000_000_000_000_000_000_000_000_000 as int) && d1y * d2x
            <= 16_000_000_000_000_000_000_000_000_000_000_000_000 as int && d1y * d2x >= -(
        16_000_000_000_000_000_000_000_000_000_000_000_000 as int)) by (nonlinear_arith)
            requires
                -(4_000_000_000_000_000_000 as int) <= d1x <= 4_000_000_000_000_000_000 as int,
                -(4_000_000_000_000_000_000 as int) <= d1y <= 4_000_000_000_000_000_000 as int,
                -(4_000_000_000_000_000_000 as int) <= d2x <= 4_000_000_000_000_000_000 as int,
                -(4_000_000_000_000_000_000 as int) <= d2y <= 4_000_000_000_000_000_000 as int,
        ;
    }
    d1x * d2y == d1y * d2x
}

/// Appending an in-range command keeps every recorded point in range.
proof fn lemma_push_in_range(cmds: Seq<PathCmd>, c: PathCmd)
    requires
        cmds_in_range(cmds),
        cmd_in_range(c),
    ensures
        cmds_in_range(cmds.push(c)),
{
    assert forall|i: int| 0 <= i < cmds.push(c).len() implies cmd_in_range(
        #[trigger] cmds.push(c)[i],
    ) by {
        if i < cmds.len() {
            assert(cmds.push(c)[i] == cmds[i]);
        } else {
            assert(cmds.push(c)[i] == c);
        }
    }
}

/// Builder for vector paths.
///
/// Accumulates resolved commands under the active transform context,
/// with value semantics: each call consumes the builder and returns the
/// next builder state, and [`CGPathBuilder::build`] consumes it for good.
pub struct CGPathBuilder {
    /// The commands recorded so far, already resolved.
    pub cmds: Vec<PathCmd>,
    /// The active transform context, applied to every subsequently
    /// appended command; `None` records inputs as given.
    pub active: Option<AffineTransform>,
    /// What is known of the current point.
    pub cur: TracePoint,
    /// What is known of the current subpath's starting point.
    pub start: TracePoint,
}

impl CGPathBuilder {
    /// The builder's invariant: a well-formed context and every recorded
    /// point in range.
    pub open spec fn wf(self) -> bool {
        &&& (self.active matches Some(t) ==> t.wf())
        &&& cmds_in_range(self.cmds@)
        &&& (self.cur matches TracePoint::Exact(p) ==> p.in_range(RESOLVED_LIMIT as int))
        &&& (self.start matches TracePoint::Exact(p) ==> p.in_range(RESOLVED_LIMIT as int))
    }

    /// A new, empty builder with no transform context.
    pub fn new() -> (r: Self)
        ensures
            r.cmds@.len() == 0,
            r.active is None,
            r.cur is Absent,
            r.start is Absent,
            r.wf(),
    {
        CGPathBuilder {
            cmds: Vec::new(),
            active: None,
            cur: TracePoint::Absent,
            start: TracePoint::Absent,
        }
    }

    /// Set the transform context for all subsequent commands; commands
    /// already recorded are untouched.
    pub fn transform(self, transform: AffineTransform) -> (r: Self)
        requires
            self.wf(),
            transform.wf(),
        ensures
            r.cmds@ == self.cmds@,
            r.active == Some(transform),
            r.cur == self.cur,
            r.start == self.start,
            r.wf(),
    {
        CGPathBuilder { active: Some(transform), ..self }
    }

    /// Clear the transform context; commands already recorded are
    /// untouched.
    pub fn no_transform(self) -> (r: Self)
        requires
            self.wf(),
        ensures
            r.cmds@ == self.cmds@,
            r.active is None,
            r.cur == self.cur,
            r.start == self.start,
            r.wf(),
    {
        CGPathBuilder { active: None, ..self }
    }

    /// Start a new subpath at `(x, y)`.
    pub fn move_to(self, x: i64, y: i64) -> (r: Self)
        requires
            self.wf(),
            -INPUT_LIMIT <= x <= INPUT_LIMIT,
            -INPUT_LIMIT <= y <= INPUT_LIMIT,
        ensures
            r.wf(),
            r.active == self.active,
            r.cmds@ == self.cmds@.push((PathCmd::MoveTo { p: ctx_pt(self.active, x as int, y as int) })),
            r.cur == TracePoint::Exact(ctx_pt(self.active, x as int, y as int)),
            r.start == TracePoint::Exact(ctx_pt(self.active, x as int, y as int)),
    {
        let p = resolve_pt(&self.active, x, y);
        proof {
            lemma_push_in_range(self.cmds@, PathCmd::MoveTo { p });
        }
        let mut cmds = self.cmds;
        cmds.push(PathCmd::MoveTo { p });
        CGPathBuilder {
            cmds,
            active: self.active,
            cur: TracePoint::Exact(p),
            start: TracePoint::Exact(p),
        }
    }

    /// Append a straight segment from the current point to `(x, y)`; with
    /// no current point, establish the position as a move instead.
    pub fn line_to(self, x: i64, y: i64) -> (r: Self)
        requires
            self.wf(),
            -INPUT_LIMIT <= x <= INPUT_LIMIT,
            -INPUT_LIMIT <= y <= INPUT_LIMIT,
        ensures
            r.wf(),
            r.active == self.active,
            self.cur is Absent ==> r.cmds@ == self.cmds@.push(
                (PathCmd::MoveTo { p: ctx_pt(self.active, x as int, y as int) }),
            ) && r.start == TracePoint::Exact(ctx_pt(self.active, x as int, y as int)),
            !(self.cur is Absent) ==> r.cmds@ == self.cmds@.push(
                (PathCmd::LineTo { p: ctx_pt(self.active, x as int, y as int) }),
            ) && r.start == self.start,
            r.cur == TracePoint::Exact(ctx_pt(self.active, x as int, y as int)),
    {
        let p = resolve_pt(&self.active, x, y);
        let absent = matches!(self.cur, TracePoint::Absent);
        let cmd = if absent {
            PathCmd::MoveTo { p }
        } else {
            PathCmd::LineTo { p }
        };
        proof {
            lemma_push_in_range(self.cmds@, cmd);
        }
        let start = if absent {
            TracePoint::Exact(p)
        } else {
            self.start
        };
        let mut cmds = self.cmds;
        cmds.push(cmd);
        CGPathBuilder { cmds, active: self.active, cur: TracePoint::Exact(p), start }
    }

    /// Close the current subpath with a straight segment back to its
    /// starting point; with no open subpath, append nothing.
    pub fn close(self) -> (r: Self)
        requires
            self.wf(),
        ensures
            r.wf(),
            r.active == self.active,
            r.start == self.start,
            self.start is Absent ==> r.cmds@ == self.cmds@ && r.cur == self.cur,
            !(self.start is Absent) ==> r.cmds@ == self.cmds@.push(PathCmd::Close) && r.cur
                == self.start,
    {
        if matches!(self.start, TracePoint::Absent) {
            return self;
        }
        proof {
            lemma_push_in_range(self.cmds@, PathCmd::Close);
        }
        let mut cmds = self.cmds;
        cmds.push(PathCmd::Close);
        CGPathBuilder { cmds, active: self.active, cur: self.start, start: self.start }
    }

    /// Append a circular arc around `(center_x, center_y)`.
    ///
    /// Angles are milliradians from the positive x axis; `clockwise`
    /// selects the sweep direction independent of the angle values. A
    /// non-positive radius is a degenerate arc: nothing is appended.
    /// The recorded frame is the circle's bounding square, resolved
    /// corner by corner.
    pub fn arc(
        self,
        center_x: i64,
        center_y: i64,
        radius: i64,
        start_angle: i64,
        end_angle: i64,
        clockwise: bool,
    ) -> (r: Self)
        requires
            self.wf(),
            -INPUT_LIMIT <= center_x <= INPUT_LIMIT,
            -INPUT_LIMIT <= center_y <= INPUT_LIMIT,
            -INPUT_LIMIT <= radius <= INPUT_LIMIT,
        ensures
            r.wf(),
            r.active == self.active,
            radius <= 0 ==> r.cmds@ == self.cmds@ && r.cur == self.cur && r.start == self.start,
            radius > 0 ==> r.cmds@ == self.cmds@.push(
                (PathCmd::Arc {
                    frame: ctx_quad(
                        self.active,
                        center_x - radius,
                        center_y - radius,
                        center_x + radius,
                        center_y + radius,
                    ),
                    start_angle,
                    end_angle,
                    clockwise,
                }),
            ),
            radius > 0 ==> r.cur == TracePoint::Inexact,
            radius > 0 ==> r.start == (if self.start is Absent {
                TracePoint::Inexact
            } else {
                self.start
            }),
    {
        if radius <= 0 {
            return self;
        }
        let f = resolve_quad(
            &self.active,
            center_x - radius,
            center_y - radius,
            center_x + radius,
            center_y + radius,
        );
        let cmd = PathCmd::Arc { frame: f, start_angle, end_angle, clockwise };
        proof {
            lemma_push_in_range(self.cmds@, cmd);
        }
        let start = if matches!(self.start, TracePoint::Absent) {
            TracePoint::Inexact
        } else {
            self.start
        };
        let mut cmds = self.cmds;
        cmds.push(cmd);
        CGPathBuilder { cmds, active: self.active, cur: TracePoint::Inexact, start }
    }

    /// Append an arc given a starting angle and an angular sweep:
    /// equivalent to [`CGPathBuilder::arc`] with
    /// `end_angle = start_angle + delta` and the sweep direction taken
    /// from the sign of `delta`.
    pub fn relative_arc(
        self,
        center_x: i64,
        center_y: i64,
        radius: i64,
        start_angle: i64,
        delta: i64,
    ) -> (r: Self)
        requires
            self.wf(),
            -INPUT_LIMIT <= center_x <= INPUT_LIMIT,
            -INPUT_LIMIT <= center_y <= INPUT_LIMIT,
            -INPUT_LIMIT <= radius <= INPUT_LIMIT,
            -INPUT_LIMIT <= start_angle <= INPUT_LIMIT,
            -INPUT_LIMIT <= delta <= INPUT_LIMIT,
        ensures
            r.wf(),
            r.active == self.active,
            radius <= 0 ==> r.cmds@ == self.cmds@ && r.cur == self.cur && r.start == self.start,
            radius > 0 ==> r.cmds@ == self.cmds@.push(
                (PathCmd::Arc {
                    frame: ctx_quad(
                        self.active,
                        center_x - radius,
                        center_y - radius,
                        center_x + radius,
                        center_y + radius,
                    ),
                    start_angle,
                    end_angle: (start_angle + delta) as i64,
                    clockwise: delta < 0,
                }),
            ),
            radius > 0 ==> r.cur == TracePoint::Inexact,
            radius > 0 ==> r.start == (if self.start is Absent {
                TracePoint::Inexact
            } else {
                self.start
            }),
    {
        self.arc(center_x, center_y, radius, start_angle, start_angle + delta, delta < 0)
    }

    /// Append a tangent arc of the given radius: a straight reach to the
    /// tangent point on the line toward `(x1, y1)`, then an arc tangent
    /// to both that line and the line from `(x1, y1)` to `(x2, y2)`.
    ///
    /// Degenerate cases fall back rather than fail: with no current
    /// point the position is established at `(x1, y1)` as a move; with a
    /// non-positive radius, or with exactly collinear tangent lines
    /// (detectable only while the current point is exactly known), a
    /// straight line to `(x1, y1)` is appended instead.
    pub fn arc_to(self, x1: i64, y1: i64, x2: i64, y2: i64, radius: i64) -> (r: Self)
        requires
            self.wf(),
            -INPUT_LIMIT <= x1 <= INPUT_LIMIT,
            -INPUT_LIMIT <= y1 <= INPUT_LIMIT,
            -INPUT_LIMIT <= x2 <= INPUT_LIMIT,
            -INPUT_LIMIT <= y2 <= INPUT_LIMIT,
            -INPUT_LIMIT <= radius <= INPUT_LIMIT,
        ensures
            r.wf(),
            r.active == self.active,
            self.cur is Absent ==> r.cmds@ == self.cmds@.push(
                (PathCmd::MoveTo { p: ctx_pt(self.active, x1 as int, y1 as int) }),
            ) && r.cur == TracePoint::Exact(ctx_pt(self.active, x1 as int, y1 as int)) && r.start
                == TracePoint::Exact(ctx_pt(self.active, x1 as int, y1 as int)),
            !(self.cur is Absent) ==> r.start == self.start,
            (self.cur matches TracePoint::Exact(c) && (radius <= 0 || collinear(
                c,
                ctx_pt(self.active, x1 as int, y1 as int),
                ctx_pt(self.active, x2 as int, y2 as int),
            ))) || (self.cur is Inexact && radius <= 0) ==> r.cmds@ == self.cmds@.push(
                (PathCmd::LineTo { p: ctx_pt(self.active, x1 as int, y1 as int) }),
            ) && r.cur == TracePoint::Exact(ctx_pt(self.active, x1 as int, y1 as int)),
            (self.cur matches TracePoint::Exact(c) && radius > 0 && !collinear(
                c,
                ctx_pt(self.active, x1 as int, y1 as int),
                ctx_pt(self.active, x2 as int, y2 as int),
            )) || (self.cur is Inexact && radius > 0) ==> r.cmds@ == self.cmds@.push(
                (PathCmd::ArcTo {
                    p1: ctx_pt(self.active, x1 as int, y1 as int),
                    p2: ctx_pt(self.active, x2 as int, y2 as int),
                    radius,
                }),
            ) && r.cur == TracePoint::Inexact,
    {
        let p1 = resolve_pt(&self.active, x1, y1);
        let p2 = resolve_pt(&self.active, x2, y2);
        match self.cur {
            TracePoint::Absent => {
                let cmd = PathCmd::MoveTo { p: p1 };
                proof {
                    lemma_push_in_range(self.cmds@, cmd);
                }
                let mut cmds = self.cmds;
                cmds.push(cmd);
                CGPathBuilder {
                    cmds,
                    active: self.active,
                    cur: TracePoint::Exact(p1),
                    start: TracePoint::Exact(p1),
                }
            },
            TracePoint::Exact(c) => {
                if radius <= 0 || collinear_exec(c, p1, p2) {
                    let cmd = PathCmd::LineTo { p: p1 };
                    proof {
                        lemma_push_in_range(self.cmds@, cmd);
                    }
                    let mut cmds = self.cmds;
                    cmds.push(cmd);
                    CGPathBuilder {
                        cmds,
                        active: self.active,
                        cur: TracePoint::Exact(p1),
                        start: self.start,
                    }
                } else {
                    let cmd = PathCmd::ArcTo { p1, p2, radius };
                    proof {
                        lemma_push_in_range(self.cmds@, cmd);
                    }
                    let mut cmds = self.cmds;
                    cmds.push(cmd);
                    CGPathBuilder {
                        cmds,
                        active: self.active,
                        cur: TracePoint::Inexact,
                        start: self.start,
                    }
                }
            },
            TracePoint::Inexact => {
                if radius <= 0 {
                    let cmd = PathCmd::LineTo { p: p1 };
                    proof {
                        lemma_push_in_range(self.cmds@, cmd);
                    }
                    let mut cmds = self.cmds;
                    cmds.push(cmd);
                    CGPathBuilder {
                        cmds,
                        active: self.active,
                        cur: TracePoint::Exact(p1),
                        start: self.start,
                    }
                } else {
                    let cmd = PathCmd::ArcTo { p1, p2, radius };
                    proof {
                        lemma_push_in_range(self.cmds@, cmd);
                    }
                    let mut cmds = self.cmds;
                    cmds.push(cmd);
                    CGPathBuilder {
                        cmds,
                        active: self.active,
                        cur: TracePoint::Inexact,
                        start: self.start,
                    }
                }
            },
        }
    }

    /// Append a quadratic Bézier segment from the current point, with
    /// one control point; with no current point, establish the position
    /// at the segment's end as a move instead.
    pub fn quad_curve_to(self, control_x: i64, control_y: i64, x: i64, y: i64) -> (r: Self)
        requires
            self.wf(),
            -INPUT_LIMIT <= control_x <= INPUT_LIMIT,
            -INPUT_LIMIT <= control_y <= INPUT_LIMIT,
            -INPUT_LIMIT <= x <= INPUT_LIMIT,
            -INPUT_LIMIT <= y <= INPUT_LIMIT,
        ensures
            r.wf(),
            r.active == self.active,
            self.cur is Absent ==> r.cmds@ == self.cmds@.push(
                (PathCmd::MoveTo { p: ctx_pt(self.active, x as int, y as int) }),
            ) && r.start == TracePoint::Exact(ctx_pt(self.active, x as int, y as int)),
            !(self.cur is Absent) ==> r.cmds@ == self.cmds@.push(
                (PathCmd::QuadCurveTo {
                    control: ctx_pt(self.active, control_x as int, control_y as int),
                    end: ctx_pt(self.active, x as int, y as int),
                }),
            ) && r.start == self.start,
            r.cur == TracePoint::Exact(ctx_pt(self.active, x as int, y as int)),
    {
        let pc = resolve_pt(&self.active, control_x, control_y);
        let pe = resolve_pt(&self.active, x, y);
        let absent = matches!(self.cur, TracePoint::Absent);
        let cmd = if absent {
            PathCmd::MoveTo { p: pe }
        } else {
            PathCmd::QuadCurveTo { control: pc, end: pe }
        };
        proof {
            lemma_push_in_range(self.cmds@, cmd);
        }
        let start = if absent {
            TracePoint::Exact(pe)
        } else {
            self.start
        };
        let mut cmds = self.cmds;
        cmds.push(cmd);
        CGPathBuilder { cmds, active: self.active, cur: TracePoint::Exact(pe), start }
    }

    /// Append a cubic Bézier segment from the current point, with two
    /// control points; with no current point, establish the position at
    /// the segment's end as a move instead.
    pub fn curve_to(
        self,
        cp1_x: i64,
        cp1_y: i64,
        cp2_x: i64,
        cp2_y: i64,
        x: i64,
        y: i64,
    ) -> (r: Self)
        requires
            self.wf(),
            -INPUT_LIMIT <= cp1_x <= INPUT_LIMIT,
            -INPUT_LIMIT <= cp1_y <= INPUT_LIMIT,
            -INPUT_LIMIT <= cp2_x <= INPUT_LIMIT,
            -INPUT_LIMIT <= cp2_y <= INPUT_LIMIT,
            -INPUT_LIMIT <= x <= INPUT_LIMIT,
            -INPUT_LIMIT <= y <= INPUT_LIMIT,
        ensures
            r.wf(),
            r.active == self.active,
            self.cur is Absent ==> r.cmds@ == self.cmds@.push(
                (PathCmd::MoveTo { p: ctx_pt(self.active, x as int, y as int) }),
            ) && r.start == TracePoint::Exact(ctx_pt(self.active, x as int, y as int)),
            !(self.cur is Absent) ==> r.cmds@ == self.cmds@.push(
                (PathCmd::CubicCurveTo {
                    control1: ctx_pt(self.active, cp1_x as int, cp1_y as int),
                    control2: ctx_pt(self.active, cp2_x as int, cp2_y as int),
                    end: ctx_pt(self.active, x as int, y as int),
                }),
            ) && r.start == self.start,
            r.cur == TracePoint::Exact(ctx_pt(self.active, x as int, y as int)),
    {
        let pc1 = resolve_pt(&self.active, cp1_x, cp1_y);
        let pc2 = resolve_pt(&self.active, cp2_x, cp2_y);
        let pe = resolve_pt(&self.active, x, y);
        let absent = matches!(self.cur, TracePoint::Absent);
        let cmd = if absent {
            PathCmd::MoveTo { p: pe }
        } else {
            PathCmd::CubicCurveTo { control1: pc1, control2: pc2, end: pe }
        };
        proof {
            lemma_push_in_range(self.cmds@, cmd);
        }
        let start = if absent {
            TracePoint::Exact(pe)
        } else {
            self.start
        };
        let mut cmds = self.cmds;
        cmds.push(cmd);
        CGPathBuilder { cmds, active: self.active, cur: TracePoint::Exact(pe), start }
    }

    /// Append a rectangle as an independent closed subpath; the current
    /// point moves to the rectangle's resolved origin corner.
    pub fn rect(self, x: i64, y: i64, width: i64, height: i64) -> (r: Self)
        requires
            self.wf(),
            -INPUT_LIMIT <= x <= INPUT_LIMIT,
            -INPUT_LIMIT <= y <= INPUT_LIMIT,
            -INPUT_LIMIT <= width <= INPUT_LIMIT,
            -INPUT_LIMIT <= height <= INPUT_LIMIT,
        ensures
            r.wf(),
            r.active == self.active,
            r.cmds@ == self.cmds@.push(
                (PathCmd::Rect {
                    frame: ctx_quad(self.active, x as int, y as int, x + width, y + height),
                }),
            ),
            r.cur == TracePoint::Exact(ctx_pt(self.active, x as int, y as int)),
            r.start == TracePoint::Exact(ctx_pt(self.active, x as int, y as int)),
    {
        let f = resolve_quad(&self.active, x, y, x + width, y + height);
        let cmd = PathCmd::Rect { frame: f };
        proof {
            lemma_push_in_range(self.cmds@, cmd);
        }
        let p00 = f.p00;
        let mut cmds = self.cmds;
        cmds.push(cmd);
        CGPathBuilder {
            cmds,
            active: self.active,
            cur: TracePoint::Exact(p00),
            start: TracePoint::Exact(p00),
        }
    }

    /// Append a rounded rectangle as an independent closed subpath, with
    /// one radius for all corners.
    pub fn rounded_rect(self, x: i64, y: i64, width: i64, height: i64, corner_radius: i64) -> (r:
        Self)
        requires
            self.wf(),
            -INPUT_LIMIT <= x <= INPUT_LIMIT,
            -INPUT_LIMIT <= y <= INPUT_LIMIT,
            -INPUT_LIMIT <= width <= INPUT_LIMIT,
            -INPUT_LIMIT <= height <= INPUT_LIMIT,
            -INPUT_LIMIT <= corner_radius <= INPUT_LIMIT,
        ensures
            r.wf(),
            r.active == self.active,
            r.cmds@ == self.cmds@.push(
                (PathCmd::RoundedRect {
                    frame: ctx_quad(self.active, x as int, y as int, x + width, y + height),
                    corner_w: corner_radius,
                    corner_h: corner_radius,
                }),
            ),
            r.cur == TracePoint::Inexact,
            r.start == TracePoint::Inexact,
    {
        self.rounded_rect_asymmetric(x, y, width, height, corner_radius, corner_radius)
    }

    /// Append a rounded rectangle with distinct horizontal and vertical
    /// corner radii, as an independent closed subpath.
    pub fn rounded_rect_asymmetric(
        self,
        x: i64,
        y: i64,
        width: i64,
        height: i64,
        corner_width: i64,
        corner_height: i64,
    ) -> (r: Self)
        requires
            self.wf(),
            -INPUT_LIMIT <= x <= INPUT_LIMIT,
            -INPUT_LIMIT <= y <= INPUT_LIMIT,
            -INPUT_LIMIT <= width <= INPUT_LIMIT,
            -INPUT_LIMIT <= height <= INPUT_LIMIT,
            -INPUT_LIMIT <= corner_width <= INPUT_LIMIT,
            -INPUT_LIMIT <= corner_height <= INPUT_LIMIT,
        ensures
            r.wf(),
            r.active == self.active,
            r.cmds@ == self.cmds@.push(
                (PathCmd::RoundedRect {
                    frame: ctx_quad(self.active, x as int, y as int, x + width, y + height),
                    corner_w: corner_width,
                    corner_h: corner_height,
                }),
            ),
            r.cur == TracePoint::Inexact,
            r.start == TracePoint::Inexact,
    {
        let f = resolve_quad(&self.active, x, y, x + width, y + height);
        let cmd = PathCmd::RoundedRect { frame: f, corner_w: corner_width, corner_h: corner_height };
        proof {
            lemma_push_in_range(self.cmds@, cmd);
        }
        let mut cmds = self.cmds;
        cmds.push(cmd);
        CGPathBuilder {
            cmds,
            active: self.active,
            cur: TracePoint::Inexact,
            start: TracePoint::Inexact,
        }
    }

    /// Append an ellipse inscribed in the given frame rectangle, as an
    /// independent closed subpath.
    pub fn ellipse(self, x: i64, y: i64, width: i64, height: i64) -> (r: Self)
        requires
            self.wf(),
            -INPUT_LIMIT <= x <= INPUT_LIMIT,
            -INPUT_LIMIT <= y <= INPUT_LIMIT,
            -INPUT_LIMIT <= width <= INPUT_LIMIT,
            -INPUT_LIMIT <= height <= INPUT_LIMIT,
        ensures
            r.wf(),
            r.active == self.active,
            r.cmds@ == self.cmds@.push(
                (PathCmd::Ellipse {
                    frame: ctx_quad(self.active, x as int, y as int, x + width, y + height),
                }),
            ),
            r.cur == TracePoint::Inexact,
            r.start == TracePoint::Inexact,
    {
        let f = resolve_quad(&self.active, x, y, x + width, y + height);
        let cmd = PathCmd::Ellipse { frame: f };
        proof {
            lemma_push_in_range(self.cmds@, cmd);
        }
        let mut cmds = self.cmds;
        cmds.push(cmd);
        CGPathBuilder {
            cmds,
            active: self.active,
            cur: TracePoint::Inexact,
            start: TracePoint::Inexact,
        }
    }

    /// Append a circle centred at `(center_x, center_y)` with the given
    /// diameter: exactly an ellipse inscribed in the square of that
    /// diameter around the centre. A non-positive diameter appends
    /// nothing.
    pub fn circle(self, center_x: i64, center_y: i64, diameter: i64) -> (r: Self)
        requires
            self.wf(),
            -INPUT_LIMIT <= center_x <= INPUT_LIMIT,
            -INPUT_LIMIT <= center_y <= INPUT_LIMIT,
            -INPUT_LIMIT <= diameter <= INPUT_LIMIT,
        ensures
            r.wf(),
            r.active == self.active,
            diameter <= 0 ==> r.cmds@ == self.cmds@ && r.cur == self.cur && r.start == self.start,
            diameter > 0 ==> r.cmds@ == self.cmds@.push(
                (PathCmd::Ellipse {
                    frame: ctx_quad(
                        self.active,
                        center_x - diameter / 2,
                        center_y - diameter / 2,
                        center_x - diameter / 2 + diameter,
                        center_y - diameter / 2 + diameter,
                    ),
                }),
            ),
            diameter > 0 ==> r.cur == TracePoint::Inexact && r.start == TracePoint::Inexact,
    {
        if diameter <= 0 {
            return self;
        }
        let radius: i64 = (diameter as u64 / 2) as i64;
        let x0 = center_x - radius;
        let y0 = center_y - radius;
        let f = resolve_quad(&self.active, x0, y0, x0 + diameter, y0 + diameter);
        let cmd = PathCmd::Ellipse { frame: f };
        proof {
            lemma_push_in_range(self.cmds@, cmd);
        }
        let mut cmds = self.cmds;
        cmds.push(cmd);
        CGPathBuilder {
            cmds,
            active: self.active,
            cur: TracePoint::Inexact,
            start: TracePoint::Inexact,
        }
    }

    /// Append every command of an already-finalized path, re-resolved
    /// through the transform context active now: the other path's
    /// geometry is treated as already resolved and is transformed again
    /// as a whole.
    pub fn add_path(self, other: &Path) -> (r: Self)
        requires
            self.wf(),
            other.wf(),
        ensures
            r.wf(),
            r.active == self.active,
            r.cmds@.len() == self.cmds@.len() + other.cmds@.len(),
            forall|i: int| 0 <= i < self.cmds@.len() ==> r.cmds@[i] == self.cmds@[i],
            forall|i: int|
                0 <= i < other.cmds@.len() ==> r.cmds@[self.cmds@.len() + i] == ctx_cmd(
                    self.active,
                    #[trigger] other.cmds@[i],
                ),
            other.cmds@.len() == 0 ==> r.cur == self.cur && r.start == self.start,
            other.cmds@.len() > 0 ==> r.cur == TracePoint::Inexact && r.start
                == TracePoint::Inexact,
    {
        let n = other.cmds.len();
        if n == 0 {
            return self;
        }
        let active = self.active;
        let base = Ghost(self.cmds@.len() as int);
        let mut cmds = self.cmds;
        let mut i: usize = 0;
        while i < n
            invariant
                n == other.cmds@.len(),
                i <= n,
                active matches Some(t) ==> t.wf(),
                other.wf(),
                cmds@.len() == base@ + i,
                cmds_in_range(cmds@),
                forall|j: int| 0 <= j < base@ ==> cmds@[j] == self.cmds@[j],
                forall|j: int|
                    0 <= j < i ==> cmds@[base@ + j] == ctx_cmd(active, #[trigger] other.cmds@[j]),
                base@ == self.cmds@.len(),
                active == self.active,
            decreases n - i,
        {
            proof {
                assert(cmd_in_range(other.cmds@[i as int]));
            }
            let c = xform_cmd_exec(&active, &other.cmds[i]);
            proof {
                lemma_push_in_range(cmds@, c);
            }
            cmds.push(c);
            i = i + 1;
        }
        CGPathBuilder { cmds, active, cur: TracePoint::Inexact, start: TracePoint::Inexact }
    }

    /// Append a polyline: a move to the first point, then a straight
    /// segment to each subsequent point in order. Fewer than two points
    /// appends nothing.
    pub fn lines(self, points: &Vec<(i64, i64)>) -> (r: Self)
        requires
            self.wf(),
            forall|i: int|
                0 <= i < points@.len() ==> -INPUT_LIMIT <= (#[trigger] points@[i]).0 <= INPUT_LIMIT
                    && -INPUT_LIMIT <= points@[i].1 <= INPUT_LIMIT,
        ensures
            r.wf(),
            r.active == self.active,
            points@.len() < 2 ==> r.cmds@ == self.cmds@ && r.cur == self.cur && r.start
                == self.start,
            points@.len() >= 2 ==> r.cmds@.len() == self.cmds@.len() + points@.len(),
            points@.len() >= 2 ==> forall|i: int|
                0 <= i < self.cmds@.len() ==> r.cmds@[i] == self.cmds@[i],
            points@.len() >= 2 ==> r.cmds@[self.cmds@.len() as int] == (PathCmd::MoveTo {
                p: ctx_pt(self.active, points@[0].0 as int, points@[0].1 as int),
            }),
            points@.len() >= 2 ==> forall|i: int|
                1 <= i < points@.len() ==> r.cmds@[self.cmds@.len() + i] == (PathCmd::LineTo {
                    p: ctx_pt(
                        self.active,
                        (#[trigger] points@[i]).0 as int,
                        points@[i].1 as int,
                    ),
                }),
            points@.len() >= 2 ==> r.cur == TracePoint::Exact(
                ctx_pt(
                    self.active,
                    points@[points@.len() - 1].0 as int,
                    points@[points@.len() - 1].1 as int,
                ),
            ),
            points@.len() >= 2 ==> r.start == TracePoint::Exact(
                ctx_pt(self.active, points@[0].0 as int, points@[0].1 as int),
            ),
    {
        let n = points.len();
        if n < 2 {
            return self;
        }
        let active = self.active;
        let base = Ghost(self.cmds@.len() as int);
        let first = points[0];
        let p0 = resolve_pt(&active, first.0, first.1);
        let cmd0 = PathCmd::MoveTo { p: p0 };
        proof {
            lemma_push_in_range(self.cmds@, cmd0);
        }
        let mut cmds = self.cmds;
        cmds.push(cmd0);
        let mut i: usize = 1;
        while i < n
            invariant
                n == points@.len(),
                n >= 2,
                1 <= i <= n,
                active matches Some(t) ==> t.wf(),
                forall|j: int|
                    0 <= j < points@.len() ==> -INPUT_LIMIT <= (#[trigger] points@[j]).0
                        <= INPUT_LIMIT && -INPUT_LIMIT <= points@[j].1 <= INPUT_LIMIT,
                cmds@.len() == base@ + i,
                cmds_in_range(cmds@),
                forall|j: int| 0 <= j < base@ ==> cmds@[j] == self.cmds@[j],
                cmds@[base@] == (PathCmd::MoveTo {
                    p: ctx_pt(active, points@[0].0 as int, points@[0].1 as int),
                }),
                forall|j: int|
                    1 <= j < i ==> cmds@[base@ + j] == (PathCmd::LineTo {
                        p: ctx_pt(
                            active,
                            (#[trigger] points@[j]).0 as int,
                            points@[j].1 as int,
                        ),
                    }),
                base@ == self.cmds@.len(),
                active == self.active,
            decreases n - i,
        {
            let pt = points[i];
            let p = resolve_pt(&active, pt.0, pt.1);
            let cmd = PathCmd::LineTo { p };
            proof {
                lemma_push_in_range(cmds@, cmd);
            }
            cmds.push(cmd);
            i = i + 1;
        }
        let last = points[n - 1];
        let pl = resolve_pt(&active, last.0, last.1);
        CGPathBuilder {
            cmds,
            active,
            cur: TracePoint::Exact(pl),
            start: TracePoint::Exact(p0),
        }
    }

    /// Whether nothing has been recorded yet.
    pub fn is_empty(&self) -> (r: bool)
        ensures
            r == (self.cmds@.len() == 0),
    {
        self.cmds.len() == 0
    }

    /// The minimal axis-aligned rectangle enclosing everything recorded
    /// so far, or `None` while nothing is recorded; a pure query, usable
    /// at any point during construction.
    pub fn bounding_box(&self) -> (r: Option<Rect>)
        requires
            self.wf(),
        ensures
            bounds_match(self.cmds@, r),
    {
        bounds_of_cmds(&self.cmds)
    }

    /// Consume the builder and snapshot it into an immutable [`Path`].
    pub fn build(self) -> (r: Path)
        requires
            self.wf(),
        ensures
            r.cmds@ == self.cmds@,
            r.wf(),
    {
        Path { cmds: self.cmds }
    }
}

impl Default for CGPathBuilder {
    /// Same as [`CGPathBuilder::new`].
    fn default() -> (r: Self)
        ensures
            r.cmds@.len() == 0,
            r.active is None,
            r.cur is Absent,
            r.start is Absent,
            r.wf(),
    {
        CGPathBuilder::new()
    }
}

} // verus!

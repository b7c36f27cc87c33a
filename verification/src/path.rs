//! Resolved path commands, immutable paths, and bounding boxes.
//!
//! A [`PathCmd`] is one drawing command with its geometry already
//! resolved: every point was transformed by the transform context active
//! when the command was appended, so a recorded command never changes
//! when the context later changes. A [`Path`] is an immutable sequence of
//! such commands.
//!
//! The bounding box is the smallest axis-aligned rectangle containing
//! every recorded point of every command ([`points_bounds`] over
//! [`path_points`]). Point-for-point commands (moves, lines, polylines)
//! contribute exactly their geometry; curves contribute their control
//! points as well, and an arc contributes the corners of its circle's
//! frame, so for curved commands the box is the conservative control-point
//! hull, the same box the host compositor reports for a path's control
//! points.

use vstd::prelude::*;

use crate::fixed::RESOLVED_LIMIT;
use crate::geom::{Point, Rect};
use vstd::math::{max, min};

verus! {

/// The four corners of a shape's frame rectangle, each resolved through
/// the transform context active at append time (so a transformed frame
/// may be any parallelogram).
#[derive(Clone, Copy, PartialEq, Eq, Structural, Debug)]
pub struct Quad {
    /// Corner at the frame's origin.
    pub p00: Point,
    /// Corner right of the origin.
    pub p10: Point,
    /// Corner opposite the origin.
    pub p11: Point,
    /// Corner above the origin.
    pub p01: Point,
}

/// One resolved drawing command.
///
/// Angles are milliradians measured from the positive x axis; `clockwise`
/// selects the sweep direction independent of the angle values. A radius
/// or corner radius rides along unresolved, in milli-units.
#[derive(Clone, Copy, PartialEq, Eq, Structural, Debug)]
pub enum PathCmd {
    /// Start a new subpath at `p`.
    MoveTo { p: Point },
    /// Straight segment from the current point to `p`.
    LineTo { p: Point },
    /// Quadratic Bézier segment from the current point.
    QuadCurveTo { control: Point, end: Point },
    /// Cubic Bézier segment from the current point.
    CubicCurveTo { control1: Point, control2: Point, end: Point },
    /// Circular arc inside the given frame.
    Arc { frame: Quad, start_angle: i64, end_angle: i64, clockwise: bool },
    /// Tangent arc of the given radius between the lines current→`p1`
    /// and `p1`→`p2`.
    ArcTo { p1: Point, p2: Point, radius: i64 },
    /// Closed rectangle subpath with the given frame.
    Rect { frame: Quad },
    /// Closed rounded-rectangle subpath; corner radii in milli-units.
    RoundedRect { frame: Quad, corner_w: i64, corner_h: i64 },
    /// Closed ellipse subpath inscribed in the given frame.
    Ellipse { frame: Quad },
    /// Straight segment back to the subpath's start, closing it.
    Close,
}

/// The corner points of a frame, in order.
pub open spec fn quad_points(f: Quad) -> Seq<Point> {
    seq![f.p00, f.p10, f.p11, f.p01]
}

/// The recorded points of one command: the points that determine its
/// contribution to the bounding box.
pub open spec fn cmd_points(c: PathCmd) -> Seq<Point> {
    match c {
        PathCmd::MoveTo { p } => seq![p],
        PathCmd::LineTo { p } => seq![p],
        PathCmd::QuadCurveTo { control, end } => seq![control, end],
        PathCmd::CubicCurveTo { control1, control2, end } => seq![control1, control2, end],
        PathCmd::Arc { frame, .. } => quad_points(frame),
        PathCmd::ArcTo { p1, p2, .. } => seq![p1, p2],
        PathCmd::Rect { frame } => quad_points(frame),
        PathCmd::RoundedRect { frame, .. } => quad_points(frame),
        PathCmd::Ellipse { frame } => quad_points(frame),
        PathCmd::Close => Seq::empty(),
    }
}

/// All four frame corners are in range.
pub open spec fn quad_in_range(f: Quad, lim: int) -> bool {
    &&& f.p00.in_range(lim)
    &&& f.p10.in_range(lim)
    &&& f.p11.in_range(lim)
    &&& f.p01.in_range(lim)
}

/// Every recorded point of the command lies within the resolved-coordinate
/// bound.
pub open spec fn cmd_in_range(c: PathCmd) -> bool {
    match c {
        PathCmd::MoveTo { p } => p.in_range(RESOLVED_LIMIT as int),
        PathCmd::LineTo { p } => p.in_range(RESOLVED_LIMIT as int),
        PathCmd::QuadCurveTo { control, end } => control.in_range(RESOLVED_LIMIT as int)
            && end.in_range(RESOLVED_LIMIT as int),
        PathCmd::CubicCurveTo { control1, control2, end } => control1.in_range(
            RESOLVED_LIMIT as int,
        ) && control2.in_range(RESOLVED_LIMIT as int) && end.in_range(RESOLVED_LIMIT as int),
        PathCmd::Arc { frame, .. } => quad_in_range(frame, RESOLVED_LIMIT as int),
        PathCmd::ArcTo { p1, p2, .. } => p1.in_range(RESOLVED_LIMIT as int) && p2.in_range(
            RESOLVED_LIMIT as int,
        ),
        PathCmd::Rect { frame } => quad_in_range(frame, RESOLVED_LIMIT as int),
        PathCmd::RoundedRect { frame, .. } => quad_in_range(frame, RESOLVED_LIMIT as int),
        PathCmd::Ellipse { frame } => quad_in_range(frame, RESOLVED_LIMIT as int),
        PathCmd::Close => true,
    }
}

/// Every recorded point of every command is in range.
pub open spec fn cmds_in_range(cmds: Seq<PathCmd>) -> bool {
    forall|i: int| 0 <= i < cmds.len() ==> cmd_in_range(#[trigger] cmds[i])
}

/// The recorded points of a command sequence, in append order.
pub open spec fn path_points(cmds: Seq<PathCmd>) -> Seq<Point>
    decreases cmds.len(),
{
    if cmds.len() == 0 {
        Seq::empty()
    } else {
        path_points(cmds.drop_last()) + cmd_points(cmds.last())
    }
}

/// The bounds of a non-empty point sequence as
/// `(min x, min y, max x, max y)`.
pub open spec fn points_bounds(pts: Seq<Point>) -> (int, int, int, int)
    recommends
        pts.len() > 0,
    decreases pts.len(),
{
    if pts.len() <= 1 {
        (pts[0].x as int, pts[0].y as int, pts[0].x as int, pts[0].y as int)
    } else {
        expand_bounds(points_bounds(pts.drop_last()), pts.last())
    }
}

/// Bounds grown to contain one more point.
pub open spec fn expand_bounds(b: (int, int, int, int), p: Point) -> (int, int, int, int) {
    (min(b.0, p.x as int), min(b.1, p.y as int), max(b.2, p.x as int), max(b.3, p.y as int))
}

/// An immutable, finalized path: an ordered sequence of resolved
/// commands. Never mutated after [`CGPathBuilder::build`] snapshots the
/// builder into it; its bounding box is a pure function of its commands.
///
/// [`CGPathBuilder::build`]: crate::path_builder::CGPathBuilder::build
pub struct Path {
    /// The resolved commands, in append order.
    pub cmds: Vec<PathCmd>,
}

impl Path {
    /// Every recorded point is within the resolved-coordinate bound;
    /// finalization establishes this.
    pub open spec fn wf(self) -> bool {
        cmds_in_range(self.cmds@)
    }

    /// Whether the path records no commands at all.
    pub fn is_empty(&self) -> (r: bool)
        ensures
            r == (self.cmds@.len() == 0),
    {
        self.cmds.len() == 0
    }

    /// The minimal axis-aligned rectangle enclosing every recorded point,
    /// or `None` for a path with no recorded points.
    pub fn bounding_box(&self) -> (r: Option<Rect>)
        requires
            self.wf(),
        ensures
            bounds_match(self.cmds@, r),
    {
        bounds_of_cmds(&self.cmds)
    }
}

/// How a bounding-box query result relates to a command sequence: `None`
/// exactly when no point is recorded, otherwise the rectangle spanning
/// [`points_bounds`] of the recorded points.
pub open spec fn bounds_match(cmds: Seq<PathCmd>, r: Option<Rect>) -> bool {
    match r {
        Option::None => path_points(cmds).len() == 0,
        Option::Some(rect) => {
            let b = points_bounds(path_points(cmds));
            &&& path_points(cmds).len() > 0
            &&& rect.x == b.0
            &&& rect.y == b.1
            &&& rect.x + rect.w == b.2
            &&& rect.y + rect.h == b.3
        },
    }
}

/// Running bounds over the points seen so far.
struct BoundsAcc {
    has: bool,
    lox: i64,
    loy: i64,
    hix: i64,
    hiy: i64,
}

/// The accumulator describes exactly the bounds of `pts`.
spec fn acc_inv(acc: BoundsAcc, pts: Seq<Point>) -> bool {
    if pts.len() == 0 {
        !acc.has
    } else {
        &&& acc.has
        &&& points_bounds(pts) == (acc.lox as int, acc.loy as int, acc.hix as int, acc.hiy as int)
        &&& -RESOLVED_LIMIT <= acc.lox <= acc.hix <= RESOLVED_LIMIT
        &&& -RESOLVED_LIMIT <= acc.loy <= acc.hiy <= RESOLVED_LIMIT
    }
}

/// Grow the accumulator by one point.
fn acc_point(acc: BoundsAcc, p: Point, pts: Ghost<Seq<Point>>) -> (r: BoundsAcc)
    requires
        acc_inv(acc, pts@),
        p.in_range(RESOLVED_LIMIT as int),
    ensures
        acc_inv(r, pts@.push(p)),
{
    proof {
        assert(pts@.push(p).drop_last() =~= pts@);
        assert(pts@.push(p).last() == p);
    }
    if !acc.has {
        BoundsAcc { has: true, lox: p.x, loy: p.y, hix: p.x, hiy: p.y }
    } else {
        BoundsAcc {
            has: true,
            lox: if p.x < acc.lox {
                p.x
            } else {
                acc.lox
            },
            loy: if p.y < acc.loy {
                p.y
            } else {
                acc.loy
            },
            hix: if p.x > acc.hix {
                p.x
            } else {
                acc.hix
            },
            hiy: if p.y > acc.hiy {
                p.y
            } else {
                acc.hiy
            },
        }
    }
}

/// Grow the accumulator by every recorded point of one command.
fn acc_cmd(acc: BoundsAcc, c: &PathCmd, pts: Ghost<Seq<Point>>) -> (r: BoundsAcc)
    requires
        acc_inv(acc, pts@),
        cmd_in_range(*c),
    ensures
        acc_inv(r, pts@ + cmd_points(*c)),
{
    match *c {
        PathCmd::MoveTo { p } => {
            let r = acc_point(acc, p, pts);
            proof {
                assert(pts@ + cmd_points(*c) =~= pts@.push(p));
            }
            r
        },
        PathCmd::LineTo { p } => {
            let r = acc_point(acc, p, pts);
            proof {
                assert(pts@ + cmd_points(*c) =~= pts@.push(p));
            }
            r
        },
        PathCmd::QuadCurveTo { control, end } => {
            let r1 = acc_point(acc, control, pts);
            let r = acc_point(r1, end, Ghost(pts@.push(control)));
            proof {
                assert(pts@ + cmd_points(*c) =~= pts@.push(control).push(end));
            }
            r
        },
        PathCmd::CubicCurveTo { control1, control2, end } => {
            let r1 = acc_point(acc, control1, pts);
            let r2 = acc_point(r1, control2, Ghost(pts@.push(control1)));
            let r = acc_point(r2, end, Ghost(pts@.push(control1).push(control2)));
            proof {
                assert(pts@ + cmd_points(*c) =~= pts@.push(control1).push(control2).push(end));
            }
            r
        },
        PathCmd::Arc { frame, .. } => acc_quad(acc, frame, pts, Ghost(cmd_points(*c))),
        PathCmd::ArcTo { p1, p2, .. } => {
            let r1 = acc_point(acc, p1, pts);
            let r = acc_point(r1, p2, Ghost(pts@.push(p1)));
            proof {
                assert(pts@ + cmd_points(*c) =~= pts@.push(p1).push(p2));
            }
            r
        },
        PathCmd::Rect { frame } => acc_quad(acc, frame, pts, Ghost(cmd_points(*c))),
        PathCmd::RoundedRect { frame, .. } => acc_quad(acc, frame, pts, Ghost(cmd_points(*c))),
        PathCmd::Ellipse { frame } => acc_quad(acc, frame, pts, Ghost(cmd_points(*c))),
        PathCmd::Close => {
            proof {
                assert(pts@ + cmd_points(*c) =~= pts@);
            }
            acc
        },
    }
}

/// Grow the accumulator by the four corners of a frame.
fn acc_quad(acc: BoundsAcc, f: Quad, pts: Ghost<Seq<Point>>, cps: Ghost<Seq<Point>>) -> (r:
    BoundsAcc)
    requires
        acc_inv(acc, pts@),
        quad_in_range(f, RESOLVED_LIMIT as int),
        cps@ == quad_points(f),
    ensures
        acc_inv(r, pts@ + cps@),
{
    let r1 = acc_point(acc, f.p00, pts);
    let r2 = acc_point(r1, f.p10, Ghost(pts@.push(f.p00)));
    let r3 = acc_point(r2, f.p11, Ghost(pts@.push(f.p00).push(f.p10)));
    let r = acc_point(r3, f.p01, Ghost(pts@.push(f.p00).push(f.p10).push(f.p11)));
    proof {
        assert(pts@ + cps@ =~= pts@.push(f.p00).push(f.p10).push(f.p11).push(f.p01));
    }
    r
}

/// Appending one command appends exactly its recorded points.
proof fn lemma_path_points_step(cmds: Seq<PathCmd>, i: int)
    requires
        0 <= i < cmds.len(),
    ensures
        path_points(cmds.take(i + 1)) == path_points(cmds.take(i)) + cmd_points(cmds[i]),
{
    assert(cmds.take(i + 1).drop_last() =~= cmds.take(i));
    assert(cmds.take(i + 1).last() == cmds[i]);
}

/// The bounds of a command sequence, shared by the path and the builder.
pub(crate) fn bounds_of_cmds(cmds: &Vec<PathCmd>) -> (r: Option<Rect>)
    requires
        cmds_in_range(cmds@),
    ensures
        bounds_match(cmds@, r),
{
    let mut acc = BoundsAcc { has: false, lox: 0, loy: 0, hix: 0, hiy: 0 };
    let n = cmds.len();
    let mut i: usize = 0;
    proof {
        assert(cmds@.take(0) =~= Seq::<PathCmd>::empty());
    }
    while i < n
        invariant
            n == cmds@.len(),
            i <= n,
            cmds_in_range(cmds@),
            acc_inv(acc, path_points(cmds@.take(i as int))),
        decreases n - i,
    {
        proof {
            lemma_path_points_step(cmds@, i as int);
            assert(cmd_in_range(cmds@[i as int]));
        }
        acc = acc_cmd(acc, &cmds[i], Ghost(path_points(cmds@.take(i as int))));
        i = i + 1;
    }
    proof {
        assert(cmds@.take(n as int) =~= cmds@);
    }
    if acc.has {
        Some(Rect { x: acc.lox, y: acc.loy, w: acc.hix - acc.lox, h: acc.hiy - acc.loy })
    } else {
        None
    }
}

} // verus!

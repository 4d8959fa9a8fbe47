//! Builders for path-based shapes: single curves, point-chains, and the
//! composite heart and star outlines, all stroked into ribbon meshes.

use vstd::prelude::*;

verus! {

use crate::fixed::{
    fx_ok, fx_mul, fx_mul_spec, fx_div, fx_div_spec, fx_cos, fx_sin, fx_cos_spec, fx_sin_spec,
    lemma_fx_div_half, FX_ONE, FX_MAX, FX_PI, FX_HALF_PI, FX_TAU,
};
use crate::object::curve::{
    curve_points_spec, catmull_rom_spec, path_strip_vertices_spec, path_strip_indices_spec,
    point_ok, strip_vertices_spec, strip_indices_spec, Curve, Path, Point,
};
use crate::object::primitives::{Color, Position};
use crate::object::Object;

/// The point a position names.
pub open spec fn position_point_spec(p: Position) -> Point {
    Point { x: p.x, y: p.y }
}

/// The midpoint of two points, each coordinate halved toward zero.
pub open spec fn midpoint_spec(a: Point, b: Point) -> Point {
    Point {
        x: fx_div_spec(a.x + b.x, 131072) as i64,
        y: fx_div_spec(a.y + b.y, 131072) as i64,
    }
}

/// A freshly built stroked object over one curve's samples.
pub open spec fn stroked_object_spec(
    r: Object,
    pts: Seq<Point>,
    color: Color,
    z_index: i64,
    line_width: i64,
) -> bool {
    Object::fresh_spec(
        r,
        strip_vertices_spec(pts, color, z_index, fx_mul_spec(line_width as int, 32768)),
        strip_indices_spec(pts.len() as int, 0),
    )
}

/// Wraps a single well-formed curve in a path and strokes it.
fn single_curve_object(curve: Curve, color: Color, z_index: i64, line_width: i64, steps: usize) -> (r:
    Object)
    requires
        curve.wf(),
        fx_ok(line_width as int),
        1 <= steps <= 0x10000,
    ensures
        stroked_object_spec(r, curve_points_spec(curve, steps as int), color, z_index, line_width),
{
    let ghost gcurve = curve;
    let path = Path { curves: vec![curve] };
    proof {
        assert(path.curves@ =~= seq![gcurve]);
        assert(path.curves@[0].wf());
    }
    let r = path.to_object(steps, color, z_index, line_width);
    proof {
        let cs = seq![gcurve];
        assert(cs.drop_last() =~= Seq::<Curve>::empty());
        assert(cs.last() == gcurve);
        let hw = fx_mul_spec(line_width as int, 32768);
        assert(path_strip_vertices_spec(Seq::<Curve>::empty(), steps as int, color, z_index, hw)
            == Seq::<crate::object::Vertex>::empty());
        assert(path_strip_indices_spec(Seq::<Curve>::empty(), steps as int)
            == Seq::<u32>::empty());
        assert(path_strip_vertices_spec(cs, steps as int, color, z_index, hw) =~= strip_vertices_spec(
            curve_points_spec(gcurve, steps as int),
            color,
            z_index,
            hw,
        ));
        assert(path_strip_indices_spec(cs, steps as int) =~= strip_indices_spec(
            steps as int + 1,
            0,
        ));
    }
    r
}

/// Creates a stroked quadratic Bezier curve object.
pub fn create_quadratic_bezier(
    start: Position,
    control: Position,
    end: Position,
    color: Color,
    z_index: i64,
    line_width: i64,
    steps: usize,
) -> (r: Object)
    requires
        start.wf(),
        control.wf(),
        end.wf(),
        fx_ok(line_width as int),
        1 <= steps <= 0x10000,
    ensures
        stroked_object_spec(
            r,
            curve_points_spec(
                Curve::Quadratic {
                    p0: position_point_spec(start),
                    p1: position_point_spec(control),
                    p2: position_point_spec(end),
                },
                steps as int,
            ),
            color,
            z_index,
            line_width,
        ),
{
    let curve = Curve::Quadratic {
        p0: Point { x: start.x, y: start.y },
        p1: Point { x: control.x, y: control.y },
        p2: Point { x: end.x, y: end.y },
    };
    single_curve_object(curve, color, z_index, line_width, steps)
}

/// The four anchors of a cubic Bezier curve.
#[derive(Debug, Clone, Copy, PartialEq, Eq, Structural)]
pub struct ControlPath {
    /// The starting point of the cubic Bezier curve.
    pub start: Position,
    /// The first control point of the cubic Bezier curve.
    pub control1: Position,
    /// The second control point of the cubic Bezier curve.
    pub control2: Position,
    /// The ending point of the cubic Bezier curve.
    pub end: Position,
}

/// Creates a stroked cubic Bezier curve object.
pub fn create_cubic_bezier(
    control: ControlPath,
    color: Color,
    z_index: i64,
    line_width: i64,
    steps: usize,
) -> (r: Object)
    requires
        control.start.wf(),
        control.control1.wf(),
        control.control2.wf(),
        control.end.wf(),
        fx_ok(line_width as int),
        1 <= steps <= 0x10000,
    ensures
        stroked_object_spec(
            r,
            curve_points_spec(
                Curve::Cubic {
                    p0: position_point_spec(control.start),
                    p1: position_point_spec(control.control1),
                    p2: position_point_spec(control.control2),
                    p3: position_point_spec(control.end),
                },
                steps as int,
            ),
            color,
            z_index,
            line_width,
        ),
{
    let curve = Curve::Cubic {
        p0: Point { x: control.start.x, y: control.start.y },
        p1: Point { x: control.control1.x, y: control.control1.y },
        p2: Point { x: control.control2.x, y: control.control2.y },
        p3: Point { x: control.end.x, y: control.end.y },
    };
    single_curve_object(curve, color, z_index, line_width, steps)
}

/// An arc: its center, radius and the two sweep angles.
#[derive(Debug, Clone, Copy, PartialEq, Eq, Structural)]
pub struct ArcAngle {
    /// The center of the arc.
    pub center: Position,
    /// The radius of the arc.
    pub radius: i64,
    /// The starting angle of the arc in fixed-point radians.
    pub start_angle: i64,
    /// The ending angle of the arc in fixed-point radians.
    pub end_angle: i64,
}

/// Creates a stroked arc object.
pub fn create_arc(arc: ArcAngle, color: Color, z_index: i64, line_width: i64, steps: usize) -> (r:
    Object)
    requires
        arc.center.wf(),
        fx_ok(arc.radius as int),
        fx_ok(arc.start_angle as int),
        fx_ok(arc.end_angle as int),
        fx_ok(line_width as int),
        1 <= steps <= 0x10000,
    ensures
        stroked_object_spec(
            r,
            curve_points_spec(
                Curve::Arc {
                    center: position_point_spec(arc.center),
                    radius: arc.radius,
                    start_angle: arc.start_angle,
                    end_angle: arc.end_angle,
                },
                steps as int,
            ),
            color,
            z_index,
            line_width,
        ),
{
    let curve = Curve::Arc {
        center: Point { x: arc.center.x, y: arc.center.y },
        radius: arc.radius,
        start_angle: arc.start_angle,
        end_angle: arc.end_angle,
    };
    single_curve_object(curve, color, z_index, line_width, steps)
}

/// Creates a stroked full-circle arc object (one whole turn).
pub fn create_circle_arc(
    center: Position,
    radius: i64,
    color: Color,
    z_index: i64,
    line_width: i64,
    steps: usize,
) -> (r: Object)
    requires
        center.wf(),
        fx_ok(radius as int),
        fx_ok(line_width as int),
        1 <= steps <= 0x10000,
    ensures
        stroked_object_spec(
            r,
            curve_points_spec(
                Curve::Arc {
                    center: position_point_spec(center),
                    radius,
                    start_angle: 0,
                    end_angle: FX_TAU,
                },
                steps as int,
            ),
            color,
            z_index,
            line_width,
        ),
{
    create_arc(
        ArcAngle { center, radius, start_angle: 0, end_angle: 411775 },
        color,
        z_index,
        line_width,
        steps,
    )
}

/// The control points of a spline, as points.
pub open spec fn positions_points_spec(ps: Seq<Position>) -> Seq<Point> {
    Seq::new(ps.len(), |i: int| position_point_spec(ps[i]))
}

/// The samples of a Catmull-Rom spline over the given control points.
pub open spec fn spline_points_spec(ps: Seq<Point>, tension: int, steps: int) -> Seq<Point> {
    Seq::new((steps + 1) as nat, |i: int| catmull_rom_spec(ps, tension, fx_div_spec(i, steps)))
}

/// Creates a stroked Catmull-Rom spline object through the given control
/// points.  Fewer than 4 points give an empty, validly drawable object.
pub fn create_catmull_rom_spline(
    points: Vec<Position>,
    tension: i64,
    color: Color,
    z_index: i64,
    line_width: i64,
    steps: usize,
) -> (r: Object)
    requires
        forall|i: int| 0 <= i < points@.len() ==> points@[i].wf(),
        -FX_ONE <= tension <= FX_ONE,
        points@.len() <= 0x10000,
        fx_ok(line_width as int),
        1 <= steps <= 0x10000,
    ensures
        points@.len() < 4 ==> Object::fresh_spec(r, Seq::empty(), Seq::empty()),
        points@.len() >= 4 ==> stroked_object_spec(
            r,
            spline_points_spec(positions_points_spec(points@), tension as int, steps as int),
            color,
            z_index,
            line_width,
        ),
{
    if points.len() < 4 {
        return Object::new(Vec::new(), Vec::new());
    }
    let ghost gps = positions_points_spec(points@);
    let mut curve_points: Vec<Point> = Vec::new();
    let mut i: usize = 0;
    while i < points.len()
        invariant
            0 <= i <= points@.len(),
            gps == positions_points_spec(points@),
            curve_points@ == gps.subrange(0, i as int),
        decreases points@.len() - i,
    {
        curve_points.push(Point { x: points[i].x, y: points[i].y });
        i = i + 1;
        proof {
            assert(curve_points@ =~= gps.subrange(0, i as int));
        }
    }
    proof {
        assert(curve_points@ =~= gps);
    }
    let curve = Curve::CatmullRom { points: curve_points, tension };
    let r = single_curve_object(curve, color, z_index, line_width, steps);
    proof {
        assert(curve_points_spec(curve, steps as int) =~= spline_points_spec(
            gps,
            tension as int,
            steps as int,
        ));
    }
    r
}

/// The chain of quadratic segments through consecutive points, each with
/// its control point at the exact segment midpoint (so each segment
/// renders as a straight line even though stored as a curve).
pub open spec fn segment_curves_spec(ps: Seq<Position>) -> Seq<Curve> {
    Seq::new(
        (ps.len() - 1) as nat,
        |i: int|
            Curve::Quadratic {
                p0: position_point_spec(ps[i]),
                p1: midpoint_spec(position_point_spec(ps[i]), position_point_spec(ps[i + 1])),
                p2: position_point_spec(ps[i + 1]),
            },
    )
}

/// Builds the chain of midpoint-controlled quadratics through the points
/// and strokes it.  Fewer than 2 points give an empty object.
fn chained_points_object(
    points: &Vec<Position>,
    color: Color,
    z_index: i64,
    line_width: i64,
    steps: usize,
) -> (r: Object)
    requires
        forall|i: int| 0 <= i < points@.len() ==> points@[i].wf(),
        points@.len() <= 0x1000,
        fx_ok(line_width as int),
        1 <= steps <= 0x10000,
    ensures
        points@.len() < 2 ==> Object::fresh_spec(r, Seq::empty(), Seq::empty()),
        points@.len() >= 2 ==> Object::fresh_spec(
            r,
            path_strip_vertices_spec(
                segment_curves_spec(points@),
                steps as int,
                color,
                z_index,
                fx_mul_spec(line_width as int, 32768),
            ),
            path_strip_indices_spec(segment_curves_spec(points@), steps as int),
        ),
{
    if points.len() < 2 {
        return Object::new(Vec::new(), Vec::new());
    }
    let ghost scs = segment_curves_spec(points@);
    let mut curves: Vec<Curve> = Vec::new();
    let mut i: usize = 0;
    while i < points.len() - 1
        invariant
            points@.len() >= 2,
            0 <= i <= points@.len() - 1,
            forall|k: int| 0 <= k < points@.len() ==> points@[k].wf(),
            scs == segment_curves_spec(points@),
            curves@ == scs.subrange(0, i as int),
        decreases points@.len() - 1 - i,
    {
        let start = Point { x: points[i].x, y: points[i].y };
        let end = Point { x: points[i + 1].x, y: points[i + 1].y };
        proof {
            lemma_fx_div_half(start.x + end.x);
            lemma_fx_div_half(start.y + end.y);
        }
        let control = Point {
            x: fx_div(start.x + end.x, 131072),
            y: fx_div(start.y + end.y, 131072),
        };
        curves.push(Curve::Quadratic { p0: start, p1: control, p2: end });
        i = i + 1;
        proof {
            assert(curves@ =~= scs.subrange(0, i as int));
        }
    }
    proof {
        assert(curves@ =~= scs);
    }
    let path = Path { curves };
    proof {
        assert forall|k: int| 0 <= k < path.curves@.len() implies path.curves@[k].wf() by {
            lemma_fx_div_half(points@[k].x + points@[k + 1].x);
            lemma_fx_div_half(points@[k].y + points@[k + 1].y);
        }
    }
    path.to_object(steps, color, z_index, line_width)
}

/// Creates a smooth path object from a series of points: each consecutive
/// pair joined by a quadratic whose control point is the midpoint.
pub fn create_smooth_path(
    points: Vec<Position>,
    color: Color,
    z_index: i64,
    line_width: i64,
    steps: usize,
) -> (r: Object)
    requires
        forall|i: int| 0 <= i < points@.len() ==> points@[i].wf(),
        points@.len() <= 0x1000,
        fx_ok(line_width as int),
        1 <= steps <= 0x10000,
    ensures
        points@.len() < 2 ==> Object::fresh_spec(r, Seq::empty(), Seq::empty()),
        points@.len() >= 2 ==> Object::fresh_spec(
            r,
            path_strip_vertices_spec(
                segment_curves_spec(points@),
                steps as int,
                color,
                z_index,
                fx_mul_spec(line_width as int, 32768),
            ),
            path_strip_indices_spec(segment_curves_spec(points@), steps as int),
        ),
{
    chained_points_object(&points, color, z_index, line_width, steps)
}

/// The point where an arc ends: the center pushed out by the radius at
/// the end angle.
pub open spec fn arc_end_spec(center: Position, radius: int, end_angle: int) -> Point {
    Point {
        x: (center.x + fx_mul_spec(radius, fx_cos_spec(end_angle))) as i64,
        y: (center.y + fx_mul_spec(radius, fx_sin_spec(end_angle))) as i64,
    }
}

/// A mutable cursor that chains curves into a path: each call appends a
/// curve from the current point and advances the cursor to the new
/// endpoint.
pub struct PathBuilder {
    /// The curves appended so far.
    pub curves: Vec<Curve>,
    /// The cursor: where the next curve will start, once a start exists.
    pub current_point: Option<Point>,
}

impl PathBuilder {
    /// The cursor, if set, is an in-range point.
    pub open spec fn cursor_ok(self) -> bool {
        match self.current_point {
            Some(p) => point_ok(p),
            None => true,
        }
    }

    /// Creates an empty builder with no current point.
    pub fn new() -> (r: Self)
        ensures
            r.curves@ == Seq::<Curve>::empty(),
            r.current_point is None,
    {
        PathBuilder { curves: Vec::new(), current_point: None }
    }

    /// Moves the cursor without drawing.
    pub fn move_to(self, position: Position) -> (r: Self)
        ensures
            r.curves == self.curves,
            r.current_point == Some(position_point_spec(position)),
    {
        PathBuilder {
            curves: self.curves,
            current_point: Some(Point { x: position.x, y: position.y }),
        }
    }

    /// Draws a straight segment to `position` (stored as a quadratic whose
    /// control point is the exact midpoint).  Without a current point the
    /// builder is unchanged.
    pub fn line_to(self, position: Position) -> (r: Self)
        requires
            self.cursor_ok(),
            position.wf(),
            self.curves@.len() < 0x1000,
        ensures
            self.current_point is None ==> r == self,
            self.current_point matches Some(start) ==> r.curves@ == self.curves@.push(
                Curve::Quadratic {
                    p0: start,
                    p1: midpoint_spec(start, position_point_spec(position)),
                    p2: position_point_spec(position),
                },
            ) && r.current_point == Some(position_point_spec(position)),
    {
        match self.current_point {
            Some(start) => {
                let end = Point { x: position.x, y: position.y };
                proof {
                    lemma_fx_div_half(start.x + end.x);
                    lemma_fx_div_half(start.y + end.y);
                }
                let control = Point {
                    x: fx_div(start.x + end.x, 131072),
                    y: fx_div(start.y + end.y, 131072),
                };
                let mut curves = self.curves;
                curves.push(Curve::Quadratic { p0: start, p1: control, p2: end });
                PathBuilder { curves, current_point: Some(end) }
            },
            None => self,
        }
    }

    /// Draws a quadratic Bezier to `end` with the given control point.
    pub fn quadratic_to(self, control: Position, end: Position) -> (r: Self)
        requires
            self.curves@.len() < 0x1000,
        ensures
            self.current_point is None ==> r == self,
            self.current_point matches Some(start) ==> r.curves@ == self.curves@.push(
                Curve::Quadratic {
                    p0: start,
                    p1: position_point_spec(control),
                    p2: position_point_spec(end),
                },
            ) && r.current_point == Some(position_point_spec(end)),
    {
        match self.current_point {
            Some(start) => {
                let mut curves = self.curves;
                curves.push(
                    Curve::Quadratic {
                        p0: start,
                        p1: Point { x: control.x, y: control.y },
                        p2: Point { x: end.x, y: end.y },
                    },
                );
                PathBuilder { curves, current_point: Some(Point { x: end.x, y: end.y }) }
            },
            None => self,
        }
    }

    /// Draws a cubic Bezier to `end` with the given control points.
    pub fn cubic_to(self, control1: Position, control2: Position, end: Position) -> (r: Self)
        requires
            self.curves@.len() < 0x1000,
        ensures
            self.current_point is None ==> r == self,
            self.current_point matches Some(start) ==> r.curves@ == self.curves@.push(
                Curve::Cubic {
                    p0: start,
                    p1: position_point_spec(control1),
                    p2: position_point_spec(control2),
                    p3: position_point_spec(end),
                },
            ) && r.current_point == Some(position_point_spec(end)),
    {
        match self.current_point {
            Some(start) => {
                let mut curves = self.curves;
                curves.push(
                    Curve::Cubic {
                        p0: start,
                        p1: Point { x: control1.x, y: control1.y },
                        p2: Point { x: control2.x, y: control2.y },
                        p3: Point { x: end.x, y: end.y },
                    },
                );
                PathBuilder { curves, current_point: Some(Point { x: end.x, y: end.y }) }
            },
            None => self,
        }
    }

    /// Appends an arc (no connection from the current point) and moves the
    /// cursor to the arc's end.  The center and radius are limited to half
    /// the scalar range so that the endpoint stays in range.
    pub fn arc_to(self, center: Position, radius: i64, start_angle: i64, end_angle: i64) -> (r:
        Self)
        requires
            -536870912 <= center.x <= 536870912,
            -536870912 <= center.y <= 536870912,
            -536870912 <= radius <= 536870912,
            fx_ok(start_angle as int),
            fx_ok(end_angle as int),
            self.curves@.len() < 0x1000,
        ensures
            r.curves@ == self.curves@.push(
                Curve::Arc {
                    center: position_point_spec(center),
                    radius,
                    start_angle,
                    end_angle,
                },
            ),
            r.current_point == Some(arc_end_spec(center, radius as int, end_angle as int)),
            r.cursor_ok(),
    {
        let mut curves = self.curves;
        curves.push(
            Curve::Arc {
                center: Point { x: center.x, y: center.y },
                radius,
                start_angle,
                end_angle,
            },
        );
        let c = fx_cos(end_angle);
        let s = fx_sin(end_angle);
        proof {
            crate::fixed::lemma_fx_mul_coef_coord(radius as int, c as int, 536870912, 65536);
            crate::fixed::lemma_fx_mul_coef_coord(radius as int, s as int, 536870912, 65536);
            assert((536870912int * 65536) / 65536 == 536870912);
        }
        let end_x: i64 = center.x + fx_mul(radius, c);
        let end_y: i64 = center.y + fx_mul(radius, s);
        PathBuilder { curves, current_point: Some(Point { x: end_x, y: end_y }) }
    }

    /// Strokes the accumulated path into an object.
    pub fn build(self, color: Color, z_index: i64, line_width: i64, steps: usize) -> (r: Object)
        requires
            forall|i: int| 0 <= i < self.curves@.len() ==> self.curves@[i].wf(),
            self.curves@.len() <= 0x1000,
            fx_ok(line_width as int),
            1 <= steps <= 0x10000,
        ensures
            Object::fresh_spec(
                r,
                path_strip_vertices_spec(
                    self.curves@,
                    steps as int,
                    color,
                    z_index,
                    fx_mul_spec(line_width as int, 32768),
                ),
                path_strip_indices_spec(self.curves@, steps as int),
            ),
    {
        let path = Path { curves: self.curves };
        path.to_object(steps, color, z_index, line_width)
    }

    /// Hands the accumulated curves over as a path.
    pub fn build_path(self) -> (r: Path)
        ensures
            r.curves == self.curves,
    {
        Path { curves: self.curves }
    }
}

/// The heart outline's four cubic curves, for a heart of the given size
/// centered at `center`.  All offsets are multiples of a hundredth of the
/// size.
pub open spec fn heart_curves_spec(center: Position, size: i64) -> Seq<Curve> {
    let s = fx_div_spec(size as int, 6553600);
    let cx = center.x as int;
    let cy = center.y as int;
    seq![
        Curve::Cubic {
            p0: Point { x: cx as i64, y: (cy + 25 * s) as i64 },
            p1: Point { x: cx as i64, y: (cy + 5 * s) as i64 },
            p2: Point { x: (cx - 25 * s) as i64, y: (cy - 20 * s) as i64 },
            p3: Point { x: (cx - 25 * s) as i64, y: (cy - 35 * s) as i64 },
        },
        Curve::Cubic {
            p0: Point { x: (cx - 25 * s) as i64, y: (cy - 35 * s) as i64 },
            p1: Point { x: (cx - 25 * s) as i64, y: (cy - 50 * s) as i64 },
            p2: Point { x: cx as i64, y: (cy - 50 * s) as i64 },
            p3: Point { x: cx as i64, y: (cy - 35 * s) as i64 },
        },
        Curve::Cubic {
            p0: Point { x: cx as i64, y: (cy - 35 * s) as i64 },
            p1: Point { x: cx as i64, y: (cy - 50 * s) as i64 },
            p2: Point { x: (cx + 25 * s) as i64, y: (cy - 50 * s) as i64 },
            p3: Point { x: (cx + 25 * s) as i64, y: (cy - 35 * s) as i64 },
        },
        Curve::Cubic {
            p0: Point { x: (cx + 25 * s) as i64, y: (cy - 35 * s) as i64 },
            p1: Point { x: (cx + 25 * s) as i64, y: (cy - 20 * s) as i64 },
            p2: Point { x: cx as i64, y: (cy + 5 * s) as i64 },
            p3: Point { x: cx as i64, y: (cy + 25 * s) as i64 },
        },
    ]
}

/// Creates a stroked heart outline of the given size centered at
/// `center`.  Center and size are limited to half the scalar range so
/// every outline point stays in range.
pub fn create_heart_shape(
    center: Position,
    size: i64,
    color: Color,
    z_index: i64,
    line_width: i64,
    steps: usize,
) -> (r: Object)
    requires
        -536870912 <= center.x <= 536870912,
        -536870912 <= center.y <= 536870912,
        0 <= size <= 536870912,
        fx_ok(line_width as int),
        1 <= steps <= 0x10000,
    ensures
        Object::fresh_spec(
            r,
            path_strip_vertices_spec(
                heart_curves_spec(center, size),
                steps as int,
                color,
                z_index,
                fx_mul_spec(line_width as int, 32768),
            ),
            path_strip_indices_spec(heart_curves_spec(center, size), steps as int),
        ),
{
    proof {
        vstd::arithmetic::div_mod::lemma_div_is_ordered(
            (size as int) * 65536,
            536870912int * 65536,
            6553600,
        );
        vstd::arithmetic::div_mod::lemma_div_pos_is_pos((size as int) * 65536, 6553600);
    }
    let scale: i64 = fx_div(size, 6553600);

    let builder = PathBuilder::new().move_to(Position::new(center.x, center.y + 25 * scale))
        .cubic_to(
        Position::new(center.x, center.y + 5 * scale),
        Position::new(center.x - 25 * scale, center.y - 20 * scale),
        Position::new(center.x - 25 * scale, center.y - 35 * scale),
    ).cubic_to(
        Position::new(center.x - 25 * scale, center.y - 50 * scale),
        Position::new(center.x, center.y - 50 * scale),
        Position::new(center.x, center.y - 35 * scale),
    ).cubic_to(
        Position::new(center.x, center.y - 50 * scale),
        Position::new(center.x + 25 * scale, center.y - 50 * scale),
        Position::new(center.x + 25 * scale, center.y - 35 * scale),
    ).cubic_to(
        Position::new(center.x + 25 * scale, center.y - 20 * scale),
        Position::new(center.x, center.y + 5 * scale),
        Position::new(center.x, center.y + 25 * scale),
    );
    proof {
        assert(builder.curves@ =~= heart_curves_spec(center, size));
        assert forall|i: int| 0 <= i < builder.curves@.len() implies builder.curves@[i].wf() by {
        }
    }
    builder.build(color, z_index, line_width, steps)
}

/// A star outline: its center, the two radii, and the number of points.
#[derive(Debug, Clone, Copy, PartialEq, Eq, Structural)]
pub struct StarShape {
    /// The center of the star.
    pub center: Position,
    /// The outer radius of the star.
    pub outer_radius: i64,
    /// The inner radius of the star.
    pub inner_radius: i64,
    /// The number of points in the star.
    pub points: usize,
}

/// The angular step between consecutive star vertices: half a turn per
/// point.
pub open spec fn star_step_spec(n: int) -> int {
    (FX_PI as int) / n
}

/// The center pushed out by `radius` at angle `ang`.
pub open spec fn star_radial_spec(center: Position, radius: int, ang: int) -> Point {
    Point {
        x: (center.x + fx_mul_spec(radius, fx_cos_spec(ang))) as i64,
        y: (center.y + fx_mul_spec(radius, fx_sin_spec(ang))) as i64,
    }
}

/// Computes the center pushed out by `radius` at angle `ang`.
fn star_radial(center: Position, radius: i64, ang: i64) -> (r: Point)
    requires
        -536870912 <= center.x <= 536870912,
        -536870912 <= center.y <= 536870912,
        -536870912 <= radius <= 536870912,
        -3 * FX_MAX <= ang <= 3 * FX_MAX,
    ensures
        r == star_radial_spec(center, radius as int, ang as int),
        point_ok(r),
{
    let c: i64 = fx_cos(ang);
    let s: i64 = fx_sin(ang);
    proof {
        crate::fixed::lemma_fx_mul_coef_coord(radius as int, c as int, 536870912, 65536);
        crate::fixed::lemma_fx_mul_coef_coord(radius as int, s as int, 536870912, 65536);
        assert((536870912int * 65536) / 65536 == 536870912);
    }
    Point { x: center.x + fx_mul(radius, c), y: center.y + fx_mul(radius, s) }
}

/// The `j`-th stop of the star outline: the topmost outer vertex first
/// and last, and in between the vertices alternating between the two
/// radii, each half a step further around.
pub open spec fn star_pos_spec(shape: StarShape, j: int) -> Point {
    let n = shape.points as int;
    if j == 0 || j == 2 * n + 1 {
        star_radial_spec(shape.center, shape.outer_radius as int, -(FX_HALF_PI as int))
    } else {
        let i = j - 1;
        let radius = if i % 2 == 0 {
            shape.inner_radius as int
        } else {
            shape.outer_radius as int
        };
        star_radial_spec(shape.center, radius, -(FX_HALF_PI as int) + i * star_step_spec(n))
    }
}

/// Every stop of a star with bounded center and radii is an in-range
/// point.
proof fn lemma_star_pos_ok(shape: StarShape, j: int)
    requires
        -536870912 <= shape.center.x <= 536870912,
        -536870912 <= shape.center.y <= 536870912,
        -536870912 <= shape.outer_radius <= 536870912,
        -536870912 <= shape.inner_radius <= 536870912,
    ensures
        point_ok(star_pos_spec(shape, j)),
{
    let n = shape.points as int;
    if j == 0 || j == 2 * n + 1 {
        let ang = -(FX_HALF_PI as int);
        crate::fixed::lemma_fx_cos_spec_bounds(ang);
        crate::fixed::lemma_fx_sin_spec_bounds(ang);
        crate::fixed::lemma_fx_mul_coef_coord(
            shape.outer_radius as int,
            fx_cos_spec(ang),
            536870912,
            65536,
        );
        crate::fixed::lemma_fx_mul_coef_coord(
            shape.outer_radius as int,
            fx_sin_spec(ang),
            536870912,
            65536,
        );
        assert((536870912int * 65536) / 65536 == 536870912);
    } else {
        let i = j - 1;
        let radius = if i % 2 == 0 {
            shape.inner_radius as int
        } else {
            shape.outer_radius as int
        };
        let ang = -(FX_HALF_PI as int) + i * star_step_spec(n);
        crate::fixed::lemma_fx_cos_spec_bounds(ang);
        crate::fixed::lemma_fx_sin_spec_bounds(ang);
        crate::fixed::lemma_fx_mul_coef_coord(radius, fx_cos_spec(ang), 536870912, 65536);
        crate::fixed::lemma_fx_mul_coef_coord(radius, fx_sin_spec(ang), 536870912, 65536);
        assert((536870912int * 65536) / 65536 == 536870912);
    }
}

/// The star outline's straight segments (stored as midpoint-controlled
/// quadratics), joining consecutive stops and closing back to the start.
pub open spec fn star_curves_spec(shape: StarShape) -> Seq<Curve> {
    Seq::new(
        (2 * shape.points + 1) as nat,
        |j: int|
            Curve::Quadratic {
                p0: star_pos_spec(shape, j),
                p1: midpoint_spec(star_pos_spec(shape, j), star_pos_spec(shape, j + 1)),
                p2: star_pos_spec(shape, j + 1),
            },
    )
}

/// Creates a stroked star outline.  Fewer than 3 points give an empty,
/// validly drawable object.  Center and radii are limited to half the
/// scalar range so every outline point stays in range.
#[verifier::rlimit(100)]
pub fn create_star_shape(
    shape: StarShape,
    color: Color,
    z_index: i64,
    line_width: i64,
    steps: usize,
) -> (r: Object)
    requires
        -536870912 <= shape.center.x <= 536870912,
        -536870912 <= shape.center.y <= 536870912,
        -536870912 <= shape.outer_radius <= 536870912,
        -536870912 <= shape.inner_radius <= 536870912,
        shape.points <= 0x7ff,
        fx_ok(line_width as int),
        1 <= steps <= 0x10000,
    ensures
        shape.points < 3 ==> Object::fresh_spec(r, Seq::empty(), Seq::empty()),
        shape.points >= 3 ==> Object::fresh_spec(
            r,
            path_strip_vertices_spec(
                star_curves_spec(shape),
                steps as int,
                color,
                z_index,
                fx_mul_spec(line_width as int, 32768),
            ),
            path_strip_indices_spec(star_curves_spec(shape), steps as int),
        ),
{
    let n = shape.points;
    if n < 3 {
        return Object::new(Vec::new(), Vec::new());
    }
    proof {
        vstd::arithmetic::div_mod::lemma_fundamental_div_mod(205887, n as int);
        vstd::arithmetic::div_mod::lemma_div_pos_is_pos(205887, n as int);
        vstd::arithmetic::div_mod::lemma_div_is_ordered(205887, 205887, n as int);
        assert((205887int) / (n as int) <= 205887int / 3) by {
            vstd::arithmetic::div_mod::lemma_div_is_ordered_by_denominator(205887, 3, n as int);
        }
    }
    let angle_step: i64 = ((205887u64) / (n as u64)) as i64;
    proof {
        assert((n as int) * (angle_step as int) <= 205887) by (nonlinear_arith)
            requires
                205887int == (n as int) * (angle_step as int) + 205887int % (n as int),
                0 <= 205887int % (n as int),
        ;
    }

    let start = star_radial(shape.center, shape.outer_radius, -102944);
    let start_x: i64 = start.x;
    let start_y: i64 = start.y;
    let mut builder = PathBuilder::new().move_to(Position::new(start_x, start_y));
    proof {
        assert(builder.current_point == Some(star_pos_spec(shape, 0)));
    }

    let mut i: usize = 0;
    while i < 2 * n
        invariant
            3 <= n <= 0x7ff,
            n == shape.points,
            0 <= i <= 2 * n,
            -536870912 <= shape.center.x <= 536870912,
            -536870912 <= shape.center.y <= 536870912,
            -536870912 <= shape.outer_radius <= 536870912,
            -536870912 <= shape.inner_radius <= 536870912,
            angle_step == star_step_spec(n as int),
            0 <= angle_step <= 68629,
            (n as int) * (angle_step as int) <= 205887,
            builder.curves@ == star_curves_spec(shape).subrange(0, i as int),
            builder.current_point == Some(star_pos_spec(shape, i as int)),
            builder.cursor_ok(),
        decreases 2 * n - i,
    {
        proof {
            assert((i as int) * (angle_step as int) <= 2 * 205887) by (nonlinear_arith)
                requires
                    0 <= i <= 2 * n,
                    0 <= angle_step,
                    (n as int) * (angle_step as int) <= 205887,
            ;
            assert(0 <= (i as int) * (angle_step as int)) by (nonlinear_arith)
                requires
                    0 <= i,
                    0 <= angle_step,
            ;
        }
        let angle: i64 = -102944 + (i as i64) * angle_step;
        let radius: i64 = if i % 2 == 0 {
            shape.inner_radius
        } else {
            shape.outer_radius
        };
        let p = star_radial(shape.center, radius, angle);
        builder = builder.line_to(Position::new(p.x, p.y));
        i = i + 1;
        proof {
            assert(p == star_pos_spec(shape, i as int));
            assert(builder.curves@ =~= star_curves_spec(shape).subrange(0, i as int));
        }
    }
    builder = builder.line_to(Position::new(start_x, start_y));
    proof {
        assert(Point { x: start_x, y: start_y } == star_pos_spec(shape, 2 * n as int + 1));
        assert(builder.curves@ =~= star_curves_spec(shape));
        assert forall|k: int| 0 <= k < builder.curves@.len() implies builder.curves@[k].wf() by {
            lemma_star_pos_ok(shape, k);
            lemma_star_pos_ok(shape, k + 1);
            lemma_fx_div_half(star_pos_spec(shape, k).x + star_pos_spec(shape, k + 1).x);
            lemma_fx_div_half(star_pos_spec(shape, k).y + star_pos_spec(shape, k + 1).y);
        }
    }
    builder.build(color, z_index, line_width, steps)
}

/// Creates a path object of straight segments between consecutive points
/// (stored as midpoint-controlled quadratics).
pub fn create_path_from_points(
    points: Vec<Position>,
    color: Color,
    z_index: i64,
    line_width: i64,
    steps: usize,
) -> (r: Object)
    requires
        forall|i: int| 0 <= i < points@.len() ==> points@[i].wf(),
        points@.len() <= 0x1000,
        fx_ok(line_width as int),
        1 <= steps <= 0x10000,
    ensures
        points@.len() < 2 ==> Object::fresh_spec(r, Seq::empty(), Seq::empty()),
        points@.len() >= 2 ==> Object::fresh_spec(
            r,
            path_strip_vertices_spec(
                segment_curves_spec(points@),
                steps as int,
                color,
                z_index,
                fx_mul_spec(line_width as int, 32768),
            ),
            path_strip_indices_spec(segment_curves_spec(points@), steps as int),
        ),
{
    chained_points_object(&points, color, z_index, line_width, steps)
}

} // verus!

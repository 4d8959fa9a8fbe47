//! Parametric curves: quadratic and cubic Bezier, circular arc, and
//! Catmull-Rom spline, with exact fixed-point evaluation.

use vstd::prelude::*;

verus! {

use crate::fixed::{
    fx_ok, fx_mul, fx_mul_spec, fx_div, fx_div_spec, fx_sin, fx_cos, fx_sin_spec, fx_cos_spec,
    lemma_mul_bound, lemma_fx_mul_spec_bound, lemma_fx_mul_unit_interval, lemma_fx_mul_coef_coord,
    lemma_fx_mul_spec_units, lemma_fx_div_unit, sqrt_floor, isqrt_u128, lemma_sqrt_floor_bounds,
    lemma_sqrt_floor_square, lemma_sqrt_floor_monotonic, FX_ONE, FX_MAX,
};
use crate::object::primitives::Color;
use crate::object::{Object, Vertex};

/// Largest magnitude an evaluated curve point may have.  In-range control
/// points keep every blend below this.
pub const FX_EVAL_MAX: i64 = 17179869184;

/// A point (or any 2-vector) in fixed-point scene space.
#[derive(Debug, Clone, Copy, PartialEq, Eq, Structural)]
pub struct Point {
    /// The x coordinate.
    pub x: i64,
    /// The y coordinate.
    pub y: i64,
}

/// Both coordinates are in the scalar range.
pub open spec fn point_ok(p: Point) -> bool {
    fx_ok(p.x as int) && fx_ok(p.y as int)
}

/// Both coordinates are within the given bound.
pub open spec fn point_within(p: Point, bound: int) -> bool {
    -bound <= p.x <= bound && -bound <= p.y <= bound
}

/// A parametric curve, evaluated on `t` in `[0, FX_ONE]`.
pub enum Curve {
    /// A quadratic Bezier curve.
    Quadratic {
        /// The start point.
        p0: Point,
        /// The control point.
        p1: Point,
        /// The end point.
        p2: Point,
    },
    /// A cubic Bezier curve.
    Cubic {
        /// The start point.
        p0: Point,
        /// The first control point.
        p1: Point,
        /// The second control point.
        p2: Point,
        /// The end point.
        p3: Point,
    },
    /// A circular arc.  The end angle may be smaller than the start angle,
    /// in which case the arc sweeps backward.
    Arc {
        /// The center of the arc.
        center: Point,
        /// The radius of the arc.
        radius: i64,
        /// The starting angle, in fixed-point radians.
        start_angle: i64,
        /// The ending angle, in fixed-point radians.
        end_angle: i64,
    },
    /// A Catmull-Rom spline through the given control points.  With fewer
    /// than 4 points it degenerates to the origin (a defined edge case,
    /// not an error).
    CatmullRom {
        /// The control points.
        points: Vec<Point>,
        /// The tension scaling the Hermite tangents, in `[-1, 1]`.
        tension: i64,
    },
}

impl Curve {
    /// Control points in range; spline point count bounded and tension in
    /// `[-1, 1]`.
    pub open spec fn wf(self) -> bool {
        match self {
            Curve::Quadratic { p0, p1, p2 } => point_ok(p0) && point_ok(p1) && point_ok(p2),
            Curve::Cubic { p0, p1, p2, p3 } => point_ok(p0) && point_ok(p1) && point_ok(p2)
                && point_ok(p3),
            Curve::Arc { center, radius, start_angle, end_angle } => point_ok(center) && fx_ok(
                radius as int,
            ) && fx_ok(start_angle as int) && fx_ok(end_angle as int),
            Curve::CatmullRom { points, tension } => (forall|i: int|
                0 <= i < points@.len() ==> point_ok(points@[i])) && -FX_ONE <= tension <= FX_ONE
                && points@.len() <= 0x10000,
        }
    }
}

/// The quadratic Bernstein blend `(1-t)^2 a + 2(1-t)t b + t^2 c`, with
/// every product the exact truncating fixed-point product.
pub open spec fn quad_blend_spec(a: int, b: int, c: int, t: int) -> int {
    let u = FX_ONE - t;
    fx_mul_spec(fx_mul_spec(u, u), a) + fx_mul_spec(2 * fx_mul_spec(u, t), b) + fx_mul_spec(
        fx_mul_spec(t, t),
        c,
    )
}

/// The cubic Bernstein blend
/// `(1-t)^3 a + 3(1-t)^2 t b + 3(1-t) t^2 c + t^3 d`.
pub open spec fn cubic_blend_spec(a: int, b: int, c: int, d: int, t: int) -> int {
    let u = FX_ONE - t;
    let uu = fx_mul_spec(u, u);
    let ut = fx_mul_spec(u, t);
    let tt = fx_mul_spec(t, t);
    fx_mul_spec(fx_mul_spec(uu, u), a) + fx_mul_spec(3 * fx_mul_spec(uu, t), b) + fx_mul_spec(
        3 * fx_mul_spec(ut, t),
        c,
    ) + fx_mul_spec(fx_mul_spec(tt, t), d)
}

/// The Hermite blend with the classic basis:
/// `(2t^3-3t^2+1) p1 + (t^3-2t^2+t) m1 + (3t^2-2t^3) p2 + (t^3-t^2) m2`.
pub open spec fn hermite_blend_spec(p1: int, m1: int, p2: int, m2: int, t: int) -> int {
    let t2 = fx_mul_spec(t, t);
    let t3 = fx_mul_spec(t2, t);
    fx_mul_spec(2 * t3 - 3 * t2 + FX_ONE, p1) + fx_mul_spec(t3 - 2 * t2 + t, m1) + fx_mul_spec(
        3 * t2 - 2 * t3,
        p2,
    ) + fx_mul_spec(t3 - t2, m2)
}

/// The angle swept at parameter `t`: `start + (end - start) t`, not
/// normalized, so `end < start` sweeps backward.
pub open spec fn arc_angle_spec(start: int, end: int, t: int) -> int {
    start + fx_mul_spec(end - start, t)
}

/// The arc point: `center + radius (cos angle, sin angle)`.
pub open spec fn arc_point_spec(center: Point, radius: int, start: int, end: int, t: int) -> Point {
    let ang = arc_angle_spec(start, end, t);
    Point {
        x: (center.x + fx_mul_spec(radius, fx_cos_spec(ang))) as i64,
        y: (center.y + fx_mul_spec(radius, fx_sin_spec(ang))) as i64,
    }
}

/// The Catmull-Rom point.  Fewer than 4 control points degenerate to the
/// origin.  Otherwise `t` scaled by the segment count selects a segment
/// (the last segment takes the endpoint `t == FX_ONE`), and the segment is
/// a Hermite blend with tangents `tension * (p2 - p0)` and
/// `tension * (p3 - p1)`.
pub open spec fn catmull_rom_spec(pts: Seq<Point>, tension: int, t: int) -> Point {
    if pts.len() < 4 {
        Point { x: 0, y: 0 }
    } else {
        let n = pts.len() as int;
        let ts = t * (n - 3);
        let i0 = ts / (FX_ONE as int);
        let i = if i0 > n - 4 {
            n - 4
        } else {
            i0
        };
        let lt = ts - i * (FX_ONE as int);
        let p0 = pts[i];
        let p1 = pts[i + 1];
        let p2 = pts[i + 2];
        let p3 = pts[i + 3];
        Point {
            x: hermite_blend_spec(
                p1.x as int,
                fx_mul_spec(tension, p2.x - p0.x),
                p2.x as int,
                fx_mul_spec(tension, p3.x - p1.x),
                lt,
            ) as i64,
            y: hermite_blend_spec(
                p1.y as int,
                fx_mul_spec(tension, p2.y - p0.y),
                p2.y as int,
                fx_mul_spec(tension, p3.y - p1.y),
                lt,
            ) as i64,
        }
    }
}

/// What `Curve::evaluate` returns, for each curve kind.
pub open spec fn curve_eval_spec(c: Curve, t: int) -> Point {
    match c {
        Curve::Quadratic { p0, p1, p2 } => Point {
            x: quad_blend_spec(p0.x as int, p1.x as int, p2.x as int, t) as i64,
            y: quad_blend_spec(p0.y as int, p1.y as int, p2.y as int, t) as i64,
        },
        Curve::Cubic { p0, p1, p2, p3 } => Point {
            x: cubic_blend_spec(p0.x as int, p1.x as int, p2.x as int, p3.x as int, t) as i64,
            y: cubic_blend_spec(p0.y as int, p1.y as int, p2.y as int, p3.y as int, t) as i64,
        },
        Curve::Arc { center, radius, start_angle, end_angle } => arc_point_spec(
            center,
            radius as int,
            start_angle as int,
            end_angle as int,
            t,
        ),
        Curve::CatmullRom { points, tension } => catmull_rom_spec(points@, tension as int, t),
    }
}

/// Computes the quadratic Bernstein blend for one coordinate.
fn quad_blend(a: i64, b: i64, c: i64, t: i64) -> (r: i64)
    requires
        fx_ok(a as int),
        fx_ok(b as int),
        fx_ok(c as int),
        0 <= t <= FX_ONE,
    ensures
        r == quad_blend_spec(a as int, b as int, c as int, t as int),
        -FX_EVAL_MAX <= r <= FX_EVAL_MAX,
{
    let u: i64 = 65536 - t;
    proof {
        lemma_fx_mul_unit_interval(u as int, u as int);
        lemma_fx_mul_unit_interval(u as int, t as int);
        lemma_fx_mul_unit_interval(t as int, t as int);
    }
    let uu: i64 = fx_mul(u, u);
    let ut: i64 = fx_mul(u, t);
    let tt: i64 = fx_mul(t, t);
    proof {
        lemma_fx_mul_coef_coord(uu as int, a as int, 65536, FX_MAX as int);
        lemma_fx_mul_coef_coord(2 * (ut as int), b as int, 131072, FX_MAX as int);
        lemma_fx_mul_coef_coord(tt as int, c as int, 65536, FX_MAX as int);
        assert((65536int * 1073741824) / 65536 == 1073741824);
        assert((131072int * 1073741824) / 65536 == 2147483648);
    }
    let x1: i64 = fx_mul(uu, a);
    let x2: i64 = fx_mul(2 * ut, b);
    let x3: i64 = fx_mul(tt, c);
    x1 + x2 + x3
}

/// Computes the cubic Bernstein blend for one coordinate.
fn cubic_blend(a: i64, b: i64, c: i64, d: i64, t: i64) -> (r: i64)
    requires
        fx_ok(a as int),
        fx_ok(b as int),
        fx_ok(c as int),
        fx_ok(d as int),
        0 <= t <= FX_ONE,
    ensures
        r == cubic_blend_spec(a as int, b as int, c as int, d as int, t as int),
        -FX_EVAL_MAX <= r <= FX_EVAL_MAX,
{
    let u: i64 = 65536 - t;
    proof {
        lemma_fx_mul_unit_interval(u as int, u as int);
        lemma_fx_mul_unit_interval(u as int, t as int);
        lemma_fx_mul_unit_interval(t as int, t as int);
    }
    let uu: i64 = fx_mul(u, u);
    let ut: i64 = fx_mul(u, t);
    let tt: i64 = fx_mul(t, t);
    proof {
        lemma_fx_mul_unit_interval(uu as int, u as int);
        lemma_fx_mul_unit_interval(uu as int, t as int);
        lemma_fx_mul_unit_interval(ut as int, t as int);
        lemma_fx_mul_unit_interval(tt as int, t as int);
    }
    let uuu: i64 = fx_mul(uu, u);
    let uut: i64 = fx_mul(uu, t);
    let utt: i64 = fx_mul(ut, t);
    let ttt: i64 = fx_mul(tt, t);
    proof {
        lemma_fx_mul_coef_coord(uuu as int, a as int, 65536, FX_MAX as int);
        lemma_fx_mul_coef_coord(3 * (uut as int), b as int, 196608, FX_MAX as int);
        lemma_fx_mul_coef_coord(3 * (utt as int), c as int, 196608, FX_MAX as int);
        lemma_fx_mul_coef_coord(ttt as int, d as int, 65536, FX_MAX as int);
        assert((65536int * 1073741824) / 65536 == 1073741824);
        assert((196608int * 1073741824) / 65536 == 3221225472);
    }
    let x1: i64 = fx_mul(uuu, a);
    let x2: i64 = fx_mul(3 * uut, b);
    let x3: i64 = fx_mul(3 * utt, c);
    let x4: i64 = fx_mul(ttt, d);
    x1 + x2 + x3 + x4
}

/// Computes the Hermite blend for one coordinate.  The tangents may be up
/// to twice the scalar range (a difference of two in-range coordinates).
fn hermite_blend(p1: i64, m1: i64, p2: i64, m2: i64, t: i64) -> (r: i64)
    requires
        fx_ok(p1 as int),
        fx_ok(p2 as int),
        -0x8000_0000 <= m1 <= 0x8000_0000,
        -0x8000_0000 <= m2 <= 0x8000_0000,
        0 <= t <= FX_ONE,
    ensures
        r == hermite_blend_spec(p1 as int, m1 as int, p2 as int, m2 as int, t as int),
        -FX_EVAL_MAX <= r <= FX_EVAL_MAX,
{
    proof {
        lemma_fx_mul_unit_interval(t as int, t as int);
    }
    let t2: i64 = fx_mul(t, t);
    proof {
        lemma_fx_mul_unit_interval(t2 as int, t as int);
    }
    let t3: i64 = fx_mul(t2, t);
    let c1: i64 = 2 * t3 - 3 * t2 + 65536;
    let c2: i64 = t3 - 2 * t2 + t;
    let c3: i64 = 3 * t2 - 2 * t3;
    let c4: i64 = t3 - t2;
    proof {
        lemma_fx_mul_coef_coord(c1 as int, p1 as int, 196608, FX_MAX as int);
        lemma_fx_mul_coef_coord(c2 as int, m1 as int, 131072, 0x8000_0000);
        lemma_fx_mul_coef_coord(c3 as int, p2 as int, 196608, FX_MAX as int);
        lemma_fx_mul_coef_coord(c4 as int, m2 as int, 65536, 0x8000_0000);
        assert((196608int * 1073741824) / 65536 == 3221225472);
        assert((131072int * 0x8000_0000) / 65536 == 4294967296);
        assert((65536int * 0x8000_0000) / 65536 == 2147483648);
    }
    let x1: i64 = fx_mul(c1, p1);
    let x2: i64 = fx_mul(c2, m1);
    let x3: i64 = fx_mul(c3, p2);
    let x4: i64 = fx_mul(c4, m2);
    x1 + x2 + x3 + x4
}

/// Evaluates a Catmull-Rom spline.
fn catmull_eval(points: &Vec<Point>, tension: i64, t: i64) -> (r: Point)
    requires
        forall|i: int| 0 <= i < points@.len() ==> point_ok(points@[i]),
        -FX_ONE <= tension <= FX_ONE,
        points@.len() <= 0x10000,
        0 <= t <= FX_ONE,
    ensures
        r == catmull_rom_spec(points@, tension as int, t as int),
        point_within(r, FX_EVAL_MAX as int),
{
    let n = points.len();
    if n < 4 {
        return Point { x: 0, y: 0 };
    }
    proof {
        assert(0 <= (t as int) * ((n - 3) as int) <= 65536int * 65533) by (nonlinear_arith)
            requires
                0 <= t <= 65536,
                4 <= n <= 0x10000,
        ;
    }
    let ts: u64 = (t as u64) * ((n - 3) as u64);
    proof {
        assert(ts == (t as int) * (n - 3));
        assert(ts <= 65536 * (n - 3)) by (nonlinear_arith)
            requires
                ts == (t as int) * (n - 3),
                0 <= t <= 65536,
                n >= 4,
        ;
        vstd::arithmetic::div_mod::lemma_div_is_ordered(ts as int, 65536int * 65533, 65536);
        vstd::arithmetic::div_mod::lemma_div_pos_is_pos(ts as int, 65536);
    }
    let i0: usize = (ts / 65536) as usize;
    proof {
        vstd::arithmetic::div_mod::lemma_fundamental_div_mod(ts as int, 65536);
    }
    let i: usize = if i0 > n - 4 {
        n - 4
    } else {
        i0
    };
    proof {
        if i0 > n - 4 {
            // Only t == FX_ONE reaches past the last segment.
            vstd::arithmetic::div_mod::lemma_div_is_ordered(
                (n - 3) * 65536,
                ts as int,
                65536,
            );
            vstd::arithmetic::div_mod::lemma_div_by_multiple(n - 3, 65536);
            assert(ts >= (n - 3) * 65536) by {
                if ts < (n - 3) * 65536 {
                    vstd::arithmetic::div_mod::lemma_div_is_ordered(ts as int, (n - 3) * 65536 - 1, 65536);
                    assert(((n - 3) * 65536 - 1) / 65536 == n - 4) by (nonlinear_arith)
                        requires
                            n >= 4,
                    ;
                }
            }
            assert(ts == (n - 3) * 65536);
        }
        assert(0 <= ts - (i as int) * 65536 <= 65536) by {
            if i0 > n - 4 {
                assert(ts - (i as int) * 65536 == 65536) by (nonlinear_arith)
                    requires
                        ts == (n - 3) * 65536,
                        i == n - 4,
                        n >= 4,
                ;
            } else {
                vstd::arithmetic::div_mod::lemma_fundamental_div_mod(ts as int, 65536);
                vstd::arithmetic::div_mod::lemma_mod_bound(ts as int, 65536);
            }
        }
    }
    let lt: i64 = (ts - (i as u64) * 65536) as i64;
    let p0 = points[i];
    let p1 = points[i + 1];
    let p2 = points[i + 2];
    let p3 = points[i + 3];
    proof {
        lemma_fx_mul_coef_coord(tension as int, p2.x - p0.x, 65536, 0x8000_0000);
        lemma_fx_mul_coef_coord(tension as int, p2.y - p0.y, 65536, 0x8000_0000);
        lemma_fx_mul_coef_coord(tension as int, p3.x - p1.x, 65536, 0x8000_0000);
        lemma_fx_mul_coef_coord(tension as int, p3.y - p1.y, 65536, 0x8000_0000);
        assert((65536int * 0x8000_0000) / 65536 == 2147483648);
    }
    let m1x: i64 = fx_mul(tension, p2.x - p0.x);
    let m1y: i64 = fx_mul(tension, p2.y - p0.y);
    let m2x: i64 = fx_mul(tension, p3.x - p1.x);
    let m2y: i64 = fx_mul(tension, p3.y - p1.y);
    Point {
        x: hermite_blend(p1.x, m1x, p2.x, m2x, lt),
        y: hermite_blend(p1.y, m1y, p2.y, m2y, lt),
    }
}

impl Curve {
    /// Evaluates the curve at parameter `t` in `[0, FX_ONE]`.
    pub fn evaluate(&self, t: i64) -> (r: Point)
        requires
            self.wf(),
            0 <= t <= FX_ONE,
        ensures
            r == curve_eval_spec(*self, t as int),
            point_within(r, FX_EVAL_MAX as int),
    {
        match self {
            Curve::Quadratic { p0, p1, p2 } => Point {
                x: quad_blend(p0.x, p1.x, p2.x, t),
                y: quad_blend(p0.y, p1.y, p2.y, t),
            },
            Curve::Cubic { p0, p1, p2, p3 } => Point {
                x: cubic_blend(p0.x, p1.x, p2.x, p3.x, t),
                y: cubic_blend(p0.y, p1.y, p2.y, p3.y, t),
            },
            Curve::Arc { center, radius, start_angle, end_angle } => {
                let d: i64 = *end_angle - *start_angle;
                proof {
                    lemma_mul_bound(d as int, t as int, 0x8000_0000, 65536);
                    lemma_fx_mul_spec_bound(d as int, t as int, 0x8000_0000int * 65536);
                    assert((0x8000_0000int * 65536) / 65536 == 0x8000_0000);
                }
                let sweep: i64 = fx_mul(d, t);
                let ang: i64 = *start_angle + sweep;
                let c: i64 = fx_cos(ang);
                let s: i64 = fx_sin(ang);
                proof {
                    lemma_fx_mul_coef_coord(*radius as int, c as int, FX_MAX as int, 65536);
                    lemma_fx_mul_coef_coord(*radius as int, s as int, FX_MAX as int, 65536);
                    assert((1073741824int * 65536) / 65536 == 1073741824);
                }
                Point { x: center.x + fx_mul(*radius, c), y: center.y + fx_mul(*radius, s) }
            },
            Curve::CatmullRom { points, tension } => catmull_eval(points, *tension, t),
        }
    }
}

/// At `t == 0` a quadratic Bezier is exactly its first control point, and
/// at `t == FX_ONE` exactly its last: fixed-point truncation never moves
/// the endpoints.
pub proof fn lemma_quadratic_endpoints(p0: Point, p1: Point, p2: Point)
    requires
        point_ok(p0),
        point_ok(p1),
        point_ok(p2),
    ensures
        curve_eval_spec(Curve::Quadratic { p0, p1, p2 }, 0) == p0,
        curve_eval_spec(Curve::Quadratic { p0, p1, p2 }, FX_ONE as int) == p2,
{
    lemma_fx_mul_spec_units(FX_ONE as int);
    lemma_fx_mul_spec_units(0);
    lemma_fx_mul_spec_units(p0.x as int);
    lemma_fx_mul_spec_units(p0.y as int);
    lemma_fx_mul_spec_units(p1.x as int);
    lemma_fx_mul_spec_units(p1.y as int);
    lemma_fx_mul_spec_units(p2.x as int);
    lemma_fx_mul_spec_units(p2.y as int);
}

/// At `t == 0` a cubic Bezier is exactly its first control point, and at
/// `t == FX_ONE` exactly its last.
pub proof fn lemma_cubic_endpoints(p0: Point, p1: Point, p2: Point, p3: Point)
    requires
        point_ok(p0),
        point_ok(p1),
        point_ok(p2),
        point_ok(p3),
    ensures
        curve_eval_spec(Curve::Cubic { p0, p1, p2, p3 }, 0) == p0,
        curve_eval_spec(Curve::Cubic { p0, p1, p2, p3 }, FX_ONE as int) == p3,
{
    lemma_fx_mul_spec_units(FX_ONE as int);
    lemma_fx_mul_spec_units(0);
    lemma_fx_mul_spec_units(p0.x as int);
    lemma_fx_mul_spec_units(p0.y as int);
    lemma_fx_mul_spec_units(p1.x as int);
    lemma_fx_mul_spec_units(p1.y as int);
    lemma_fx_mul_spec_units(p2.x as int);
    lemma_fx_mul_spec_units(p2.y as int);
    lemma_fx_mul_spec_units(p3.x as int);
    lemma_fx_mul_spec_units(p3.y as int);
}

/// A Catmull-Rom spline with fewer than 4 control points evaluates to the
/// origin for every parameter: a defined degenerate result, not an error.
pub proof fn lemma_catmull_rom_degenerate(pts: Seq<Point>, tension: int, t: int)
    requires
        pts.len() < 4,
    ensures
        catmull_rom_spec(pts, tension, t) == (Point { x: 0, y: 0 }),
{
}

/// The fixed-point length of a segment delta: the integer square root of
/// the sum of squares (the scale factors cancel, so the result is again in
/// fixed point).
pub open spec fn fx_len_spec(dx: int, dy: int) -> int {
    sqrt_floor((dx * dx + dy * dy) as nat) as int
}

/// Computes the fixed-point length of a segment delta.
fn seg_length(dx: i64, dy: i64) -> (r: i64)
    requires
        -0x20_0000_0000 <= dx <= 0x20_0000_0000,
        -0x20_0000_0000 <= dy <= 0x20_0000_0000,
    ensures
        r == fx_len_spec(dx as int, dy as int),
        0 <= r <= 0x80_0000_0000,
{
    let ax: u128 = if dx < 0 {
        (-(dx as i128)) as u128
    } else {
        dx as u128
    };
    let ay: u128 = if dy < 0 {
        (-(dy as i128)) as u128
    } else {
        dy as u128
    };
    proof {
        assert(ax == vstd::math::abs(dx as int));
        assert(ay == vstd::math::abs(dy as int));
        assert((ax as int) * (ax as int) == (dx as int) * (dx as int)) by (nonlinear_arith)
            requires
                ax == vstd::math::abs(dx as int),
        ;
        assert((ay as int) * (ay as int) == (dy as int) * (dy as int)) by (nonlinear_arith)
            requires
                ay == vstd::math::abs(dy as int),
        ;
        assert((ax as int) * (ax as int) <= 0x20_0000_0000int * 0x20_0000_0000) by (nonlinear_arith)
            requires
                0 <= ax <= 0x20_0000_0000,
        ;
        assert((ay as int) * (ay as int) <= 0x20_0000_0000int * 0x20_0000_0000) by (nonlinear_arith)
            requires
                0 <= ay <= 0x20_0000_0000,
        ;
    }
    let lsq: u128 = ax * ax + ay * ay;
    let l: u128 = isqrt_u128(lsq);
    proof {
        lemma_sqrt_floor_bounds(lsq as nat);
        assert(l <= 0x80_0000_0000) by {
            if l > 0x80_0000_0000 {
                assert((l as int) * (l as int) > 0x80_0000_0000int * 0x80_0000_0000)
                    by (nonlinear_arith)
                    requires
                        l > 0x80_0000_0000,
                ;
            }
        }
    }
    l as i64
}

/// The perpendicular of a single segment, normalized to unit length in
/// fixed point; a zero-length segment falls back to the vertical normal.
pub open spec fn seg_normal_spec(a: Point, b: Point) -> Point {
    let dx = b.x - a.x;
    let dy = b.y - a.y;
    let l = fx_len_spec(dx, dy);
    if l > 0 {
        Point { x: fx_div_spec(-dy, l) as i64, y: fx_div_spec(dx, l) as i64 }
    } else {
        Point { x: 0, y: FX_ONE }
    }
}

/// The magnitude of each delta is at most the segment length.
proof fn lemma_delta_le_len(dx: int, dy: int)
    ensures
        vstd::math::abs(dx) <= fx_len_spec(dx, dy),
        vstd::math::abs(dy) <= fx_len_spec(dx, dy),
{
    let ax = vstd::math::abs(dx);
    let ay = vstd::math::abs(dy);
    assert(ax * ax == dx * dx) by (nonlinear_arith)
        requires
            ax == vstd::math::abs(dx),
    ;
    assert(ay * ay == dy * dy) by (nonlinear_arith)
        requires
            ay == vstd::math::abs(dy),
    ;
    assert(dx * dx >= 0 && dy * dy >= 0) by (nonlinear_arith);
    lemma_sqrt_floor_square(ax);
    lemma_sqrt_floor_square(ay);
    lemma_sqrt_floor_monotonic((dx * dx) as nat, (dx * dx + dy * dy) as nat);
    lemma_sqrt_floor_monotonic((dy * dy) as nat, (dx * dx + dy * dy) as nat);
}

/// Computes the normalized perpendicular of the segment from `a` to `b`.
fn seg_normal(a: Point, b: Point) -> (r: Point)
    requires
        point_within(a, FX_EVAL_MAX as int),
        point_within(b, FX_EVAL_MAX as int),
    ensures
        r == seg_normal_spec(a, b),
        point_within(r, FX_ONE as int),
{
    let dx: i64 = b.x - a.x;
    let dy: i64 = b.y - a.y;
    let l: i64 = seg_length(dx, dy);
    if l > 0 {
        proof {
            lemma_delta_le_len(dx as int, dy as int);
            lemma_fx_div_unit(-(dx as int), l as int);
            lemma_fx_div_unit(-(dy as int), l as int);
            lemma_fx_div_unit(dx as int, l as int);
            lemma_fx_div_unit(dy as int, l as int);
        }
        Point { x: fx_div(-dy, l), y: fx_div(dx, l) }
    } else {
        Point { x: 0, y: 65536 }
    }
}

/// The per-point normal of a stroked polyline: at the endpoints the single
/// adjacent segment's perpendicular; at interior points the averaged,
/// re-normalized perpendicular of the two adjacent segments (a miter-style
/// join approximation without a miter limit).
pub open spec fn strip_normal_spec(pts: Seq<Point>, i: int) -> Point {
    if i == 0 {
        seg_normal_spec(pts[0], pts[1])
    } else if i == pts.len() - 1 {
        seg_normal_spec(pts[i - 1], pts[i])
    } else {
        let n1 = seg_normal_spec(pts[i - 1], pts[i]);
        let n2 = seg_normal_spec(pts[i], pts[i + 1]);
        let ax = fx_div_spec(n1.x + n2.x, 131072);
        let ay = fx_div_spec(n1.y + n2.y, 131072);
        let l = fx_len_spec(ax, ay);
        if l > 0 {
            Point { x: fx_div_spec(ax, l) as i64, y: fx_div_spec(ay, l) as i64 }
        } else {
            Point { x: 0, y: FX_ONE }
        }
    }
}

/// Computes the per-point normal of a stroked polyline.
fn strip_normal(points: &Vec<Point>, i: usize) -> (r: Point)
    requires
        points@.len() >= 2,
        i < points@.len(),
        forall|k: int| 0 <= k < points@.len() ==> point_within(points@[k], FX_EVAL_MAX as int),
    ensures
        r == strip_normal_spec(points@, i as int),
        point_within(r, FX_ONE as int),
{
    if i == 0 {
        seg_normal(points[0], points[1])
    } else if i == points.len() - 1 {
        seg_normal(points[i - 1], points[i])
    } else {
        let n1 = seg_normal(points[i - 1], points[i]);
        let n2 = seg_normal(points[i], points[i + 1]);
        proof {
            lemma_fx_div_unit(n1.x + n2.x, 131072);
            lemma_fx_div_unit(n1.y + n2.y, 131072);
        }
        let ax: i64 = fx_div(n1.x + n2.x, 131072);
        let ay: i64 = fx_div(n1.y + n2.y, 131072);
        let l: i64 = seg_length(ax, ay);
        if l > 0 {
            proof {
                lemma_delta_le_len(ax as int, ay as int);
                lemma_fx_div_unit(ax as int, l as int);
                lemma_fx_div_unit(ay as int, l as int);
            }
            Point { x: fx_div(ax, l), y: fx_div(ay, l) }
        } else {
            Point { x: 0, y: 65536 }
        }
    }
}

/// The arc-length fraction along the polyline at sample `i`, in fixed
/// point: `i / (n - 1)`.
pub open spec fn strip_t_spec(i: int, n: int) -> int {
    fx_div_spec(i, n - 1)
}

/// One ribbon vertex: the sample offset along its normal by the half
/// width (outward for the top edge, inward for the bottom), with the UV x
/// the arc-length fraction and the UV y naming the edge.
pub open spec fn strip_vertex_spec(
    pts: Seq<Point>,
    i: int,
    top: bool,
    color: Color,
    z_index: i64,
    hw: int,
) -> Vertex {
    let nm = strip_normal_spec(pts, i);
    let ox = fx_mul_spec(nm.x as int, hw);
    let oy = fx_mul_spec(nm.y as int, hw);
    Vertex {
        position: Point {
            x: (if top {
                pts[i].x + ox
            } else {
                pts[i].x - ox
            }) as i64,
            y: (if top {
                pts[i].y + oy
            } else {
                pts[i].y - oy
            }) as i64,
        },
        color,
        z_index,
        uv: Point {
            x: strip_t_spec(i, pts.len() as int) as i64,
            y: if top {
                0
            } else {
                FX_ONE
            },
        },
    }
}

/// The full ribbon: two vertices per sample, top then bottom.
pub open spec fn strip_vertices_spec(pts: Seq<Point>, color: Color, z_index: i64, hw: int) -> Seq<
    Vertex,
> {
    Seq::new(2 * pts.len(), |j: int| strip_vertex_spec(pts, j / 2, j % 2 == 0, color, z_index, hw))
}

/// The ribbon's triangles: for each segment, two triangles joining the
/// segment's two vertex pairs, all offset by `off`.
pub open spec fn strip_indices_spec(n: int, off: int) -> Seq<u32> {
    Seq::new(
        (6 * (n - 1)) as nat,
        |k: int|
            {
                let base = off + 2 * (k / 6);
                let m = k % 6;
                (if m == 0 {
                    base
                } else if m == 1 {
                    base + 1
                } else if m == 2 {
                    base + 2
                } else if m == 3 {
                    base + 1
                } else if m == 4 {
                    base + 3
                } else {
                    base + 2
                }) as u32
            },
    )
}

/// Converts a sampled polyline into a stroked ribbon of half-width
/// `line_width / 2`: two vertices per sample and two triangles per
/// segment.  Fewer than two samples give an empty mesh.
fn points_to_line_strip(points: &Vec<Point>, color: Color, z_index: i64, line_width: i64) -> (r: (
    Vec<Vertex>,
    Vec<u32>,
))
    requires
        points@.len() <= 0x100000,
        forall|k: int| 0 <= k < points@.len() ==> point_within(points@[k], FX_EVAL_MAX as int),
        fx_ok(line_width as int),
    ensures
        points@.len() < 2 ==> r.0@.len() == 0 && r.1@.len() == 0,
        points@.len() >= 2 ==> r.0@ == strip_vertices_spec(
            points@,
            color,
            z_index,
            fx_mul_spec(line_width as int, 32768),
        ) && r.1@ == strip_indices_spec(points@.len() as int, 0),
{
    let n = points.len();
    if n < 2 {
        return (Vec::new(), Vec::new());
    }
    proof {
        lemma_mul_bound(line_width as int, 32768, FX_MAX as int, 32768);
        lemma_fx_mul_spec_bound(line_width as int, 32768, (FX_MAX as int) * 32768);
        assert(((FX_MAX as int) * 32768) / 65536 == 536870912);
    }
    let half_width: i64 = fx_mul(line_width, 32768);
    let ghost hw: int = half_width as int;
    let ghost svs = strip_vertices_spec(points@, color, z_index, hw);
    let ghost sis = strip_indices_spec(points@.len() as int, 0);

    let mut vertices: Vec<Vertex> = Vec::new();
    let mut indices: Vec<u32> = Vec::new();
    let mut i: usize = 0;
    while i < n
        invariant
            2 <= n <= 0x100000,
            n == points@.len(),
            0 <= i <= n,
            forall|k: int| 0 <= k < points@.len() ==> point_within(points@[k], FX_EVAL_MAX as int),
            fx_ok(line_width as int),
            hw == fx_mul_spec(line_width as int, 32768),
            -536870912 <= half_width <= 536870912,
            half_width == hw,
            svs == strip_vertices_spec(points@, color, z_index, hw),
            sis == strip_indices_spec(points@.len() as int, 0),
            vertices@ == svs.subrange(0, 2 * i as int),
            indices@ == sis.subrange(
                0,
                6 * (if i < n {
                    i as int
                } else {
                    n - 1
                }),
            ),
        decreases n - i,
    {
        let nm = strip_normal(points, i);
        proof {
            lemma_fx_mul_coef_coord(nm.x as int, hw, 65536, 536870912);
            lemma_fx_mul_coef_coord(nm.y as int, hw, 65536, 536870912);
            assert((65536int * 536870912) / 65536 == 536870912);
        }
        let ox: i64 = fx_mul(nm.x, half_width);
        let oy: i64 = fx_mul(nm.y, half_width);
        let t: i64 = fx_div(i as i64, (n - 1) as i64);
        let current = points[i];

        let vertex_top = Vertex {
            position: Point { x: current.x + ox, y: current.y + oy },
            color,
            z_index,
            uv: Point { x: t, y: 0 },
        };
        let vertex_bottom = Vertex {
            position: Point { x: current.x - ox, y: current.y - oy },
            color,
            z_index,
            uv: Point { x: t, y: 65536 },
        };
        vertices.push(vertex_top);
        vertices.push(vertex_bottom);
        proof {
            vstd::arithmetic::div_mod::lemma_fundamental_div_mod_converse(
                2 * i as int,
                2,
                i as int,
                0,
            );
            vstd::arithmetic::div_mod::lemma_fundamental_div_mod_converse(
                2 * i as int + 1,
                2,
                i as int,
                1,
            );
            assert(vertex_top == svs[2 * i as int]);
            assert(vertex_bottom == svs[2 * i as int + 1]);
            assert(vertices@ =~= svs.subrange(0, 2 * (i as int + 1)));
        }

        if i < n - 1 {
            let base: u32 = (i as u32) * 2;
            indices.push(base);
            indices.push(base + 1);
            indices.push(base + 2);
            indices.push(base + 1);
            indices.push(base + 3);
            indices.push(base + 2);
            proof {
                assert forall|k: int| 6 * i as int <= k < 6 * (i as int + 1) implies indices@[k]
                    == sis[k] by {
                    assert(k / 6 == i as int) by (nonlinear_arith)
                        requires
                            6 * (i as int) <= k < 6 * (i as int + 1),
                    ;
                    assert(k % 6 == k - 6 * (i as int)) by (nonlinear_arith)
                        requires
                            6 * (i as int) <= k < 6 * (i as int + 1),
                    ;
                }
                assert(indices@ =~= sis.subrange(0, 6 * (i as int + 1)));
            }
        }
        i = i + 1;
    }
    proof {
        assert(vertices@ =~= svs);
        assert(indices@ =~= sis);
    }
    (vertices, indices)
}

/// One vertex of a plain (non-stroked) polyline mesh: the sample itself,
/// with the UV x the arc-length fraction.
pub open spec fn poly_vertex_spec(
    pts: Seq<Point>,
    i: int,
    color: Color,
    z_index: i64,
) -> Vertex {
    Vertex {
        position: pts[i],
        color,
        z_index,
        uv: Point {
            x: if pts.len() > 1 {
                strip_t_spec(i, pts.len() as int) as i64
            } else {
                0
            },
            y: 0,
        },
    }
}

/// The plain polyline mesh: one vertex per sample.
pub open spec fn poly_vertices_spec(pts: Seq<Point>, color: Color, z_index: i64) -> Seq<Vertex> {
    Seq::new(pts.len(), |i: int| poly_vertex_spec(pts, i, color, z_index))
}

/// Converts a sampled polyline into bare vertices (no triangles).
fn points_to_vertices(points: &Vec<Point>, color: Color, z_index: i64) -> (r: Vec<Vertex>)
    requires
        points@.len() <= 0x100000,
    ensures
        r@ == poly_vertices_spec(points@, color, z_index),
{
    let n = points.len();
    let ghost pvs = poly_vertices_spec(points@, color, z_index);
    let mut vertices: Vec<Vertex> = Vec::new();
    let mut i: usize = 0;
    while i < n
        invariant
            n == points@.len() <= 0x100000,
            0 <= i <= n,
            pvs == poly_vertices_spec(points@, color, z_index),
            vertices@ == pvs.subrange(0, i as int),
        decreases n - i,
    {
        let t: i64 = if n > 1 {
            fx_div(i as i64, (n - 1) as i64)
        } else {
            0
        };
        vertices.push(
            Vertex { position: points[i], color, z_index, uv: Point { x: t, y: 0 } },
        );
        i = i + 1;
        proof {
            assert(vertices@ =~= pvs.subrange(0, i as int));
        }
    }
    proof {
        assert(vertices@ =~= pvs);
    }
    vertices
}

/// The samples of a curve: `steps + 1` points at `t = i / steps`.
pub open spec fn curve_points_spec(c: Curve, steps: int) -> Seq<Point> {
    Seq::new((steps + 1) as nat, |i: int| curve_eval_spec(c, fx_div_spec(i, steps)))
}

impl Curve {
    /// Samples the curve at `steps + 1` evenly spaced parameters,
    /// including both endpoints.
    pub fn points(&self, steps: usize) -> (r: Vec<Point>)
        requires
            self.wf(),
            1 <= steps <= 0x10000,
        ensures
            r@ == curve_points_spec(*self, steps as int),
            r@.len() == steps + 1,
            forall|k: int| 0 <= k < r@.len() ==> point_within(r@[k], FX_EVAL_MAX as int),
    {
        let ghost cps = curve_points_spec(*self, steps as int);
        let mut r: Vec<Point> = Vec::new();
        let mut i: usize = 0;
        while i <= steps
            invariant
                self.wf(),
                1 <= steps <= 0x10000,
                0 <= i <= steps + 1,
                cps == curve_points_spec(*self, steps as int),
                r@ == cps.subrange(0, i as int),
                forall|k: int| 0 <= k < r@.len() ==> point_within(r@[k], FX_EVAL_MAX as int),
            decreases steps + 1 - i,
        {
            proof {
                vstd::arithmetic::div_mod::lemma_div_pos_is_pos(i as int * 65536, steps as int);
                vstd::arithmetic::div_mod::lemma_div_is_ordered(
                    i as int * 65536,
                    steps as int * 65536,
                    steps as int,
                );
                vstd::arithmetic::div_mod::lemma_div_by_multiple(65536, steps as int);
                assert((steps as int) * 65536 == 65536 * (steps as int)) by (nonlinear_arith);
            }
            let t: i64 = fx_div(i as i64, steps as i64);
            let p = self.evaluate(t);
            r.push(p);
            i = i + 1;
            proof {
                assert(r@ =~= cps.subrange(0, i as int));
            }
        }
        proof {
            assert(r@ =~= cps);
        }
        r
    }

    /// Samples the curve and converts the samples to bare vertices.
    pub fn to_vertices(&self, steps: usize, color: Color, z_index: i64, line_width: i64) -> (r:
        Vec<Vertex>)
        requires
            self.wf(),
            1 <= steps <= 0x10000,
        ensures
            r@ == poly_vertices_spec(curve_points_spec(*self, steps as int), color, z_index),
    {
        let points = self.points(steps);
        points_to_vertices(&points, color, z_index)
    }

    /// Samples the curve and strokes the samples into a ribbon of width
    /// `line_width`.
    pub fn to_line_vertices(&self, steps: usize, color: Color, z_index: i64, line_width: i64) -> (r:
        (Vec<Vertex>, Vec<u32>))
        requires
            self.wf(),
            1 <= steps <= 0x10000,
            fx_ok(line_width as int),
        ensures
            r.0@ == strip_vertices_spec(
                curve_points_spec(*self, steps as int),
                color,
                z_index,
                fx_mul_spec(line_width as int, 32768),
            ),
            r.1@ == strip_indices_spec(steps + 1, 0),
    {
        let points = self.points(steps);
        points_to_line_strip(&points, color, z_index, line_width)
    }
}

/// The samples of a path: each curve's samples, concatenated in order.
pub open spec fn path_points_spec(cs: Seq<Curve>, steps: int) -> Seq<Point>
    decreases cs.len(),
{
    if cs.len() == 0 {
        Seq::empty()
    } else {
        path_points_spec(cs.drop_last(), steps) + curve_points_spec(cs.last(), steps)
    }
}

/// The bare vertices of a path: each curve's vertices, concatenated.
pub open spec fn path_poly_vertices_spec(
    cs: Seq<Curve>,
    steps: int,
    color: Color,
    z_index: i64,
) -> Seq<Vertex>
    decreases cs.len(),
{
    if cs.len() == 0 {
        Seq::empty()
    } else {
        path_poly_vertices_spec(cs.drop_last(), steps, color, z_index) + poly_vertices_spec(
            curve_points_spec(cs.last(), steps),
            color,
            z_index,
        )
    }
}

/// The ribbon vertices of a path: each curve's ribbon, concatenated.
pub open spec fn path_strip_vertices_spec(
    cs: Seq<Curve>,
    steps: int,
    color: Color,
    z_index: i64,
    hw: int,
) -> Seq<Vertex>
    decreases cs.len(),
{
    if cs.len() == 0 {
        Seq::empty()
    } else {
        path_strip_vertices_spec(cs.drop_last(), steps, color, z_index, hw)
            + strip_vertices_spec(curve_points_spec(cs.last(), steps), color, z_index, hw)
    }
}

/// The ribbon triangles of a path: each curve's triangles, offset by the
/// vertices that came before it (every curve contributes exactly
/// `2 (steps + 1)` vertices).
pub open spec fn path_strip_indices_spec(cs: Seq<Curve>, steps: int) -> Seq<u32>
    decreases cs.len(),
{
    if cs.len() == 0 {
        Seq::empty()
    } else {
        path_strip_indices_spec(cs.drop_last(), steps) + strip_indices_spec(
            steps + 1,
            2 * (cs.len() - 1) * (steps + 1),
        )
    }
}

/// An ordered list of curves, stroked as one object.
pub struct Path {
    /// The curves of the path, in drawing order.
    pub curves: Vec<Curve>,
}

impl Path {
    /// Every curve well formed, and the count bounded so that all ribbon
    /// indices fit `u32`.
    pub open spec fn wf(self) -> bool {
        (forall|i: int| 0 <= i < self.curves@.len() ==> self.curves@[i].wf())
            && self.curves@.len() <= 0x1000
    }

    /// Samples every curve of the path, in order.
    pub fn points(&self, steps: usize) -> (r: Vec<Point>)
        requires
            self.wf(),
            1 <= steps <= 0x10000,
        ensures
            r@ == path_points_spec(self.curves@, steps as int),
    {
        let ghost cs = self.curves@;
        let mut r: Vec<Point> = Vec::new();
        let mut m: usize = 0;
        while m < self.curves.len()
            invariant
                self.wf(),
                1 <= steps <= 0x10000,
                cs == self.curves@,
                0 <= m <= cs.len(),
                r@ == path_points_spec(cs.subrange(0, m as int), steps as int),
            decreases self.curves@.len() - m,
        {
            let mut pts = self.curves[m].points(steps);
            r.append(&mut pts);
            m = m + 1;
            proof {
                let pre = cs.subrange(0, m as int - 1);
                let cur = cs.subrange(0, m as int);
                assert(cur.drop_last() =~= pre);
                assert(cur.last() == cs[m as int - 1]);
            }
        }
        proof {
            assert(cs.subrange(0, cs.len() as int) =~= cs);
        }
        r
    }

    /// Converts every curve of the path to bare vertices, concatenated.
    pub fn to_vertices(&self, steps: usize, color: Color, z_index: i64, line_width: i64) -> (r:
        Vec<Vertex>)
        requires
            self.wf(),
            1 <= steps <= 0x10000,
        ensures
            r@ == path_poly_vertices_spec(self.curves@, steps as int, color, z_index),
    {
        let ghost cs = self.curves@;
        let mut r: Vec<Vertex> = Vec::new();
        let mut m: usize = 0;
        while m < self.curves.len()
            invariant
                self.wf(),
                1 <= steps <= 0x10000,
                cs == self.curves@,
                0 <= m <= cs.len(),
                r@ == path_poly_vertices_spec(cs.subrange(0, m as int), steps as int, color, z_index),
            decreases self.curves@.len() - m,
        {
            let mut vs = self.curves[m].to_vertices(steps, color, z_index, line_width);
            r.append(&mut vs);
            m = m + 1;
            proof {
                let pre = cs.subrange(0, m as int - 1);
                let cur = cs.subrange(0, m as int);
                assert(cur.drop_last() =~= pre);
                assert(cur.last() == cs[m as int - 1]);
            }
        }
        proof {
            assert(cs.subrange(0, cs.len() as int) =~= cs);
        }
        r
    }

    /// Strokes every curve of the path into one ribbon mesh, shifting each
    /// curve's triangles past the vertices already emitted.
    pub fn to_line_vertices(&self, steps: usize, color: Color, z_index: i64, line_width: i64) -> (r:
        (Vec<Vertex>, Vec<u32>))
        requires
            self.wf(),
            1 <= steps <= 0x10000,
            fx_ok(line_width as int),
        ensures
            r.0@ == path_strip_vertices_spec(
                self.curves@,
                steps as int,
                color,
                z_index,
                fx_mul_spec(line_width as int, 32768),
            ),
            r.1@ == path_strip_indices_spec(self.curves@, steps as int),
    {
        let ghost cs = self.curves@;
        let ghost hw = fx_mul_spec(line_width as int, 32768);
        let mut all_vertices: Vec<Vertex> = Vec::new();
        let mut all_indices: Vec<u32> = Vec::new();
        let mut m: usize = 0;
        while m < self.curves.len()
            invariant
                self.wf(),
                1 <= steps <= 0x10000,
                fx_ok(line_width as int),
                cs == self.curves@,
                hw == fx_mul_spec(line_width as int, 32768),
                0 <= m <= cs.len(),
                all_vertices@ == path_strip_vertices_spec(
                    cs.subrange(0, m as int),
                    steps as int,
                    color,
                    z_index,
                    hw,
                ),
                all_indices@ == path_strip_indices_spec(cs.subrange(0, m as int), steps as int),
                all_vertices@.len() == 2 * m * (steps + 1),
            decreases self.curves@.len() - m,
        {
            let (mut vertices, indices) = self.curves[m].to_line_vertices(
                steps,
                color,
                z_index,
                line_width,
            );
            let ghost off = 2 * (m as int) * (steps as int + 1);
            proof {
                assert(0 <= 2 * (m as int) * (steps as int + 1) <= 2 * 0x1000 * 0x10001)
                    by (nonlinear_arith)
                    requires
                        0 <= m <= 0x1000,
                        1 <= steps <= 0x10000,
                ;
            }
            let vertex_offset: u32 = (all_vertices.len() as u32);
            proof {
                assert(vertex_offset == off);
            }
            let mut j: usize = 0;
            while j < indices.len()
                invariant
                    0 <= j <= indices@.len(),
                    indices@ == strip_indices_spec(steps as int + 1, 0),
                    1 <= steps <= 0x10000,
                    vertex_offset == off,
                    0 <= off <= 2 * 0x1000 * 0x10001,
                    all_indices@ == path_strip_indices_spec(cs.subrange(0, m as int), steps as int)
                        + strip_indices_spec(steps as int + 1, off).subrange(0, j as int),
                decreases indices@.len() - j,
            {
                proof {
                    let k = j as int;
                    let n1 = steps as int + 1;
                    vstd::arithmetic::div_mod::lemma_div_is_ordered(k, 6 * (n1 - 1) - 1, 6);
                    vstd::arithmetic::div_mod::lemma_fundamental_div_mod_converse(
                        6 * (n1 - 1) - 1,
                        6,
                        n1 - 2,
                        5,
                    );
                    vstd::arithmetic::div_mod::lemma_div_pos_is_pos(k, 6);
                    assert(0 <= k / 6 <= n1 - 2);
                    assert(indices@[k] <= 2 * (n1 - 2) + 3);
                }
                let v: u32 = indices[j] + vertex_offset;
                all_indices.push(v);
                j = j + 1;
                proof {
                    assert(all_indices@ =~= path_strip_indices_spec(
                        cs.subrange(0, m as int),
                        steps as int,
                    ) + strip_indices_spec(steps as int + 1, off).subrange(0, j as int));
                }
            }
            all_vertices.append(&mut vertices);
            m = m + 1;
            proof {
                let pre = cs.subrange(0, m as int - 1);
                let cur = cs.subrange(0, m as int);
                assert(cur.drop_last() =~= pre);
                assert(cur.last() == cs[m as int - 1]);
                assert(strip_indices_spec(steps as int + 1, off).subrange(
                    0,
                    strip_indices_spec(steps as int + 1, off).len() as int,
                ) =~= strip_indices_spec(steps as int + 1, off));
                assert(all_indices@ == path_strip_indices_spec(cur, steps as int));
                assert(2 * (m as int - 1) * (steps as int + 1) + 2 * (steps as int + 1) == 2 * (
                m as int) * (steps as int + 1)) by (nonlinear_arith);
            }
        }
        proof {
            assert(cs.subrange(0, cs.len() as int) =~= cs);
        }
        (all_vertices, all_indices)
    }

    /// Strokes the path and wraps the mesh in a fresh object with default
    /// transform and style, buffers uploaded.
    pub fn to_object(&self, steps: usize, color: Color, z_index: i64, line_width: i64) -> (r:
        Object)
        requires
            self.wf(),
            1 <= steps <= 0x10000,
            fx_ok(line_width as int),
        ensures
            Object::fresh_spec(
                r,
                path_strip_vertices_spec(
                    self.curves@,
                    steps as int,
                    color,
                    z_index,
                    fx_mul_spec(line_width as int, 32768),
                ),
                path_strip_indices_spec(self.curves@, steps as int),
            ),
    {
        let (vertices, indices) = self.to_line_vertices(steps, color, z_index, line_width);
        let mut object = Object::new(vertices, indices);
        object.update_buffer();
        object
    }
}

} // verus!

//! Curve evaluation and sampling behavior.

use cgraph::fixed::{fx_cos, fx_sin, fx_sqrt, FX_HALF_PI, FX_ONE};
use cgraph::object::curve::{Curve, Path, Point};

const ONE: i64 = 65536;

#[test]
fn quadratic_bezier_reproduces_endpoints() {
    let p0 = Point { x: 3 * ONE, y: 4 * ONE };
    let p1 = Point { x: 50 * ONE, y: -20 * ONE };
    let p2 = Point { x: -7 * ONE, y: 9 * ONE };
    let curve = Curve::Quadratic { p0, p1, p2 };
    assert_eq!(curve.evaluate(0), p0);
    assert_eq!(curve.evaluate(ONE), p2);
}

#[test]
fn cubic_bezier_reproduces_endpoints() {
    let p0 = Point { x: -2 * ONE, y: ONE };
    let p1 = Point { x: 10 * ONE, y: 30 * ONE };
    let p2 = Point { x: -40 * ONE, y: 5 * ONE };
    let p3 = Point { x: 8 * ONE, y: -6 * ONE };
    let curve = Curve::Cubic { p0, p1, p2, p3 };
    assert_eq!(curve.evaluate(0), p0);
    assert_eq!(curve.evaluate(ONE), p3);
}

#[test]
fn quadratic_bezier_midpoint_value() {
    // p0 = (0, 0), p1 = (1, 1), p2 = (2, 0): at t = 1/2 the blend gives
    // exactly (1, 1/2).
    let curve = Curve::Quadratic {
        p0: Point { x: 0, y: 0 },
        p1: Point { x: ONE, y: ONE },
        p2: Point { x: 2 * ONE, y: 0 },
    };
    assert_eq!(curve.evaluate(32768), Point { x: 65536, y: 32768 });
}

#[test]
fn points_returns_steps_plus_one_samples() {
    let curve = Curve::Quadratic {
        p0: Point { x: 0, y: 0 },
        p1: Point { x: ONE, y: ONE },
        p2: Point { x: 2 * ONE, y: 0 },
    };
    for steps in [1usize, 2, 7, 64] {
        assert_eq!(curve.points(steps).len(), steps + 1);
    }
    let arc = Curve::Arc { center: Point { x: 0, y: 0 }, radius: ONE, start_angle: 0, end_angle: 411775 };
    assert_eq!(arc.points(10).len(), 11);
}

#[test]
fn catmull_rom_under_four_points_returns_origin() {
    for count in 0..4usize {
        let pts: Vec<Point> = (0..count).map(|i| Point { x: i as i64 * ONE, y: ONE }).collect();
        let curve = Curve::CatmullRom { points: pts, tension: 32768 };
        for t in [0i64, 16384, 32768, 65536] {
            assert_eq!(curve.evaluate(t), Point { x: 0, y: 0 });
        }
    }
}

#[test]
fn catmull_rom_spans_its_inner_points() {
    // Four collinear control points: the spline runs from the second to
    // the third, and its midpoint lands exactly between them.
    let pts = vec![
        Point { x: 0, y: 0 },
        Point { x: ONE, y: 0 },
        Point { x: 2 * ONE, y: 0 },
        Point { x: 3 * ONE, y: 0 },
    ];
    let curve = Curve::CatmullRom { points: pts, tension: 32768 };
    assert_eq!(curve.evaluate(0), Point { x: 65536, y: 0 });
    assert_eq!(curve.evaluate(ONE), Point { x: 131072, y: 0 });
    assert_eq!(curve.evaluate(32768), Point { x: 98304, y: 0 });
}

#[test]
fn arc_endpoints_use_cos_and_sin() {
    // A quarter turn from angle 0: starts at center + (radius, ~0).
    let arc = Curve::Arc {
        center: Point { x: 10 * ONE, y: 20 * ONE },
        radius: 5 * ONE,
        start_angle: 0,
        end_angle: FX_HALF_PI,
    };
    let start = arc.evaluate(0);
    // cos(0) is 65535 in this fixed-point sine model (one unit shy of 1).
    assert_eq!(start.x, 10 * ONE + 5 * 65535);
    assert_eq!(start.y, 20 * ONE);
}

#[test]
fn trig_hits_the_axis_values() {
    assert_eq!(fx_sin(0), 0);
    assert_eq!(fx_cos(0), 65535);
    assert_eq!(fx_sin(FX_HALF_PI), 65535);
    assert_eq!(fx_sin(205887), 0);
    assert_eq!(fx_sin(-FX_HALF_PI), -65535);
    assert_eq!(fx_sqrt(4 * ONE), 2 * ONE);
    assert_eq!(fx_sqrt(0), 0);
}

#[test]
fn line_strip_offsets_points_by_half_width() {
    // A single horizontal segment stroked 2.0 wide: each endpoint splits
    // into a vertex 1.0 above and 1.0 below, joined by two triangles.
    let curve = Curve::Quadratic {
        p0: Point { x: 0, y: 0 },
        p1: Point { x: 5 * ONE, y: 0 },
        p2: Point { x: 10 * ONE, y: 0 },
    };
    let (vertices, indices) = curve.to_line_vertices(1, white(), 0, 2 * ONE);
    assert_eq!(vertices.len(), 4);
    assert_eq!(indices, vec![0, 1, 2, 1, 3, 2]);
    assert_eq!(vertices[0].position, Point { x: 0, y: ONE });
    assert_eq!(vertices[1].position, Point { x: 0, y: -ONE });
    assert_eq!(vertices[2].position, Point { x: 10 * ONE, y: ONE });
    assert_eq!(vertices[3].position, Point { x: 10 * ONE, y: -ONE });
    assert_eq!(vertices[0].uv, Point { x: 0, y: 0 });
    assert_eq!(vertices[1].uv, Point { x: 0, y: ONE });
    assert_eq!(vertices[2].uv, Point { x: ONE, y: 0 });
}

#[test]
fn strip_needs_two_points() {
    let curve = Curve::Quadratic {
        p0: Point { x: 0, y: 0 },
        p1: Point { x: ONE, y: 0 },
        p2: Point { x: 2 * ONE, y: 0 },
    };
    // One step still yields two samples; the builder never sees fewer.
    let (vertices, _) = curve.to_line_vertices(1, white(), 0, ONE);
    assert_eq!(vertices.len(), 4);
}

#[test]
fn path_concatenates_curve_strips_with_offset_indices() {
    let c1 = Curve::Quadratic {
        p0: Point { x: 0, y: 0 },
        p1: Point { x: ONE, y: 0 },
        p2: Point { x: 2 * ONE, y: 0 },
    };
    let c2 = Curve::Quadratic {
        p0: Point { x: 2 * ONE, y: 0 },
        p1: Point { x: 3 * ONE, y: 0 },
        p2: Point { x: 4 * ONE, y: 0 },
    };
    let path = Path { curves: vec![c1, c2] };
    let (vertices, indices) = path.to_line_vertices(1, white(), 0, ONE);
    assert_eq!(vertices.len(), 8);
    assert_eq!(indices.len(), 12);
    // The second curve's triangles start after the first curve's four
    // vertices.
    assert_eq!(&indices[0..6], &[0, 1, 2, 1, 3, 2]);
    assert_eq!(&indices[6..12], &[4, 5, 6, 5, 7, 6]);
    assert_eq!(path.points(1).len(), 4);
}

fn white() -> cgraph::object::primitives::Color {
    cgraph::object::primitives::Color { r: ONE, g: ONE, b: ONE, a: ONE }
}

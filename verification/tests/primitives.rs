//! Mesh builders: quads, rounded quads, circles, polygons, and the
//! path-based shapes.

use cgraph::object::curve::Point;
use cgraph::object::curve_primitives::{
    create_catmull_rom_spline, create_circle_arc, create_cubic_bezier, create_heart_shape,
    create_path_from_points, create_quadratic_bezier, create_smooth_path, create_star_shape,
    ControlPath, PathBuilder, StarShape,
};
use cgraph::object::primitives::{
    create_circle, create_circle_with_radius, create_polygon, create_quad,
    create_quad_with_shadow, create_rounded_quad, create_rounded_quad_with_shadow, Color,
    Position, ShadowData, Size,
};

const ONE: i64 = 65536;

fn red() -> Color {
    Color { r: ONE, g: 0, b: 0, a: ONE }
}

#[test]
fn quad_has_four_corners_and_two_triangles() {
    let o = create_quad(Size::new(200 * ONE, 100 * ONE), red(), ONE, Position::new(50 * ONE, 50 * ONE));
    assert_eq!(o.vertices.len(), 4);
    assert_eq!(o.indices, vec![0, 1, 2, 0, 2, 3]);
    // Bottom-left, bottom-right, top-right, top-left of [50,50]-[250,150].
    assert_eq!(o.vertices[0].position, Point { x: 50 * ONE, y: 150 * ONE });
    assert_eq!(o.vertices[1].position, Point { x: 250 * ONE, y: 150 * ONE });
    assert_eq!(o.vertices[2].position, Point { x: 250 * ONE, y: 50 * ONE });
    assert_eq!(o.vertices[3].position, Point { x: 50 * ONE, y: 50 * ONE });
    assert_eq!(o.position, Point { x: 50 * ONE, y: 50 * ONE });
    assert_eq!(o.original_pixel_size, Point { x: 200 * ONE, y: 100 * ONE });
    assert_eq!(o.corner_radius, 0);
    assert!(!o.shadow_on);
    // The buffer caches already hold the mesh.
    assert_eq!(o.buffer.data, o.vertices);
    assert_eq!(o.index_buffer.data, o.indices);
}

#[test]
fn rounded_quad_with_zero_radius_matches_quad() {
    let size = Size::new(200 * ONE, 100 * ONE);
    let pos = Position::new(50 * ONE, 50 * ONE);
    let a = create_quad(size, red(), ONE, pos);
    let b = create_rounded_quad(size, red(), ONE, pos, 0);
    assert_eq!(a.vertices, b.vertices);
    assert_eq!(a.indices, b.indices);
    assert_eq!(a.position, b.position);
    assert_eq!(a.scale, b.scale);
    assert_eq!(a.original_pixel_size, b.original_pixel_size);
    assert_eq!(a.rotation, b.rotation);
    assert_eq!(a.corner_radius, b.corner_radius);
    assert_eq!(a.use_texture, b.use_texture);
}

#[test]
fn circle_is_a_quad_with_half_min_side_radius() {
    let o = create_circle(Size::new(200 * ONE, 100 * ONE), red(), 0, Position::new(0, 0));
    assert_eq!(o.vertices.len(), 4);
    assert_eq!(o.corner_radius, 50 * ONE);
    let square = create_circle_with_radius(30 * ONE, red(), 0, Position::new(0, 0));
    assert_eq!(square.corner_radius, 30 * ONE);
    assert_eq!(square.original_pixel_size, Point { x: 60 * ONE, y: 60 * ONE });
}

#[test]
fn polygon_with_three_faces_has_four_vertices_and_nine_indices() {
    let o = create_polygon(Size::new(100 * ONE, 100 * ONE), red(), 0, Position::new(0, 0), 3);
    assert_eq!(o.vertices.len(), 4);
    assert_eq!(o.indices.len(), 9);
    // A fan: each triangle starts at the center, and the last wraps.
    assert_eq!(o.indices, vec![0, 1, 2, 0, 2, 3, 0, 3, 1]);
    // The center vertex sits mid-box with the UV midpoint.
    assert_eq!(o.vertices[0].position, Point { x: 50 * ONE, y: 50 * ONE });
    assert_eq!(o.vertices[0].uv, Point { x: 32768, y: 32768 });
}

#[test]
fn polygon_with_too_few_faces_is_empty() {
    for faces in [0usize, 1, 2] {
        let o = create_polygon(Size::new(100 * ONE, 100 * ONE), red(), 0, Position::new(0, 0), faces);
        assert_eq!(o.vertices.len(), 0);
        assert_eq!(o.indices.len(), 0);
        assert_eq!(o.buffer.data.len(), 0);
        assert_eq!(o.index_buffer.data.len(), 0);
    }
}

#[test]
fn shadow_builders_attach_the_shadow() {
    let o = create_quad_with_shadow(
        Size::new(10 * ONE, 10 * ONE),
        red(),
        0,
        Position::new(0, 0),
        10 * ONE,
        Color { r: 0, g: 0, b: 0, a: 32768 },
        Position::new(5 * ONE, 5 * ONE),
    );
    assert!(o.shadow_on);
    assert!(o.shadow_dirty);
    assert_eq!(o.shadow_radius, 10 * ONE);
    assert_eq!(o.shadow_offset, Point { x: 5 * ONE, y: 5 * ONE });

    let data = ShadowData {
        radius: 2 * ONE,
        color: Color { r: 0, g: 0, b: 0, a: ONE },
        offset: Position::new(ONE, 0),
    };
    let o = create_rounded_quad_with_shadow(
        Size::new(10 * ONE, 10 * ONE),
        red(),
        0,
        Position::new(0, 0),
        3 * ONE,
        data,
    );
    assert!(o.shadow_on);
    assert_eq!(o.corner_radius, 3 * ONE);
    assert_eq!(o.shadow_radius, 2 * ONE);
}

#[test]
fn bezier_builders_stroke_their_curves() {
    let o = create_quadratic_bezier(
        Position::new(0, 0),
        Position::new(ONE, ONE),
        Position::new(2 * ONE, 0),
        red(),
        0,
        ONE,
        8,
    );
    // 9 samples, two ribbon vertices each, two triangles per segment.
    assert_eq!(o.vertices.len(), 18);
    assert_eq!(o.indices.len(), 48);

    let o = create_cubic_bezier(
        ControlPath {
            start: Position::new(0, 0),
            control1: Position::new(ONE, ONE),
            control2: Position::new(2 * ONE, ONE),
            end: Position::new(3 * ONE, 0),
        },
        red(),
        0,
        ONE,
        4,
    );
    assert_eq!(o.vertices.len(), 10);
    assert_eq!(o.indices.len(), 24);

    let o = create_circle_arc(Position::new(0, 0), 10 * ONE, red(), 0, ONE, 16);
    assert_eq!(o.vertices.len(), 34);
}

#[test]
fn spline_and_point_chains_guard_degenerate_input() {
    let few = vec![Position::new(0, 0), Position::new(ONE, 0), Position::new(2 * ONE, 0)];
    let o = create_catmull_rom_spline(few, 32768, red(), 0, ONE, 4);
    assert_eq!(o.vertices.len(), 0);
    assert_eq!(o.indices.len(), 0);

    let o = create_smooth_path(vec![Position::new(0, 0)], red(), 0, ONE, 4);
    assert_eq!(o.vertices.len(), 0);

    let o = create_path_from_points(vec![Position::new(0, 0)], red(), 0, ONE, 4);
    assert_eq!(o.vertices.len(), 0);

    let pts = vec![
        Position::new(0, 0),
        Position::new(ONE, 0),
        Position::new(2 * ONE, 0),
        Position::new(3 * ONE, 0),
    ];
    let o = create_catmull_rom_spline(pts, 32768, red(), 0, ONE, 4);
    assert_eq!(o.vertices.len(), 10);

    // Three points make two straight segments, each its own ribbon.
    let pts = vec![Position::new(0, 0), Position::new(ONE, 0), Position::new(2 * ONE, 0)];
    let o = create_path_from_points(pts, red(), 0, ONE, 2);
    assert_eq!(o.vertices.len(), 12);
    assert_eq!(o.indices.len(), 24);
}

#[test]
fn path_builder_chains_curves_from_the_cursor() {
    let path = PathBuilder::new()
        .move_to(Position::new(0, 0))
        .line_to(Position::new(10 * ONE, 0))
        .quadratic_to(Position::new(12 * ONE, ONE), Position::new(14 * ONE, 0))
        .cubic_to(
            Position::new(15 * ONE, ONE),
            Position::new(16 * ONE, ONE),
            Position::new(17 * ONE, 0),
        )
        .build_path();
    assert_eq!(path.curves.len(), 3);

    // Without a current point, line_to draws nothing.
    let path = PathBuilder::new().line_to(Position::new(ONE, ONE)).build_path();
    assert_eq!(path.curves.len(), 0);
}

#[test]
fn heart_and_star_outline_counts() {
    let o = create_heart_shape(Position::new(100 * ONE, 100 * ONE), 50 * ONE, red(), 0, ONE, 4);
    // Four cubic curves, each stroked into 5 samples of 2 vertices.
    assert_eq!(o.vertices.len(), 40);
    assert_eq!(o.indices.len(), 96);

    let star = StarShape {
        center: Position::new(0, 0),
        outer_radius: 20 * ONE,
        inner_radius: 10 * ONE,
        points: 5,
    };
    let o = create_star_shape(star, red(), 0, ONE, 2);
    // Eleven straight segments (ten spokes plus the close).
    assert_eq!(o.vertices.len(), 11 * 6);
    assert_eq!(o.indices.len(), 11 * 12);

    let degenerate = StarShape {
        center: Position::new(0, 0),
        outer_radius: 20 * ONE,
        inner_radius: 10 * ONE,
        points: 2,
    };
    let o = create_star_shape(degenerate, red(), 0, ONE, 2);
    assert_eq!(o.vertices.len(), 0);
}

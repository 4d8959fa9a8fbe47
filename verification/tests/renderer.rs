//! The two-pass frame plan, resize behavior, and the fragment-stage
//! contract.

use cgraph::object::curve::Point;
use cgraph::object::primitives::{create_quad, create_rounded_quad, Color, Position, Size};
use cgraph::renderer::Renderer;
use cgraph::shaders::{fragment_color, rounded_rect_sdf, smoothstep, vertex_depth};

const ONE: i64 = 65536;

fn red() -> Color {
    Color { r: ONE, g: 0, b: 0, a: ONE }
}

fn black() -> Color {
    Color { r: 0, g: 0, b: 0, a: 0 }
}

#[test]
fn resize_sets_the_drawable_size_exactly() {
    let mut r = Renderer::new(800 * ONE, 600 * ONE, black());
    r.resize(1024 * ONE, 768 * ONE);
    assert_eq!(r.drawable_size(), (1024 * ONE, 768 * ONE));
    // Two frames at the same size both succeed and agree.
    let a = r.render();
    let b = r.render();
    assert_eq!(a, b);
    assert_eq!(r.drawable_size(), (1024 * ONE, 768 * ONE));
}

#[test]
fn quad_end_to_end_draws_one_main_call() {
    let mut r = Renderer::new(800 * ONE, 600 * ONE, black());
    let quad = create_quad(
        Size::new(200 * ONE, 100 * ONE),
        red(),
        ONE,
        Position::new(50 * ONE, 50 * ONE),
    );
    // The mesh covers [50,50]-[250,150].
    assert_eq!(quad.vertices[3].position, Point { x: 50 * ONE, y: 50 * ONE });
    assert_eq!(quad.vertices[1].position, Point { x: 250 * ONE, y: 150 * ONE });
    r.add_object(quad);
    let plan = r.render();
    assert_eq!(plan.shadow_draws.len(), 0);
    assert_eq!(plan.main_draws.len(), 1);
    let call = &plan.main_draws[0];
    assert_eq!(call.object_index, 0);
    assert_eq!(call.shadow_uniforms.enabled, 0);
    assert_eq!(call.uniforms.rect_position, Point { x: 50 * ONE, y: 50 * ONE });
    assert_eq!(call.uniforms.rect_size, Point { x: 200 * ONE, y: 100 * ONE });
    assert_eq!(call.uniforms.corner_radius, 0);
    assert_eq!(call.uniforms.use_texture, 0);
    // The model matrix translates by the position; unit scale, no
    // rotation (cos is 65535, one unit shy of 1, in this sine model).
    assert_eq!(call.uniforms.model_matrix.m03, 50 * ONE);
    assert_eq!(call.uniforms.model_matrix.m13, 50 * ONE);
    assert_eq!(call.uniforms.model_matrix.m00, 65535);
    assert_eq!(call.uniforms.model_matrix.m10, 0);
    // With corner radius zero, no fragment is discarded anywhere.
    for uv in [
        Point { x: 0, y: 0 },
        Point { x: ONE, y: 0 },
        Point { x: 0, y: ONE },
        Point { x: ONE, y: ONE },
        Point { x: 32768, y: 32768 },
    ] {
        let out = fragment_color(&call.uniforms, &call.shadow_uniforms, uv, red(), None);
        assert_eq!(out, Some(red()));
    }
}

#[test]
fn rounded_quad_discards_corner_wedges_and_keeps_the_interior() {
    let mut r = Renderer::new(800 * ONE, 600 * ONE, black());
    let quad = create_rounded_quad(
        Size::new(200 * ONE, 100 * ONE),
        red(),
        ONE,
        Position::new(50 * ONE, 50 * ONE),
        20 * ONE,
    );
    r.add_object(quad);
    let plan = r.render();
    let call = &plan.main_draws[0];
    assert_eq!(call.uniforms.corner_radius, 20 * ONE);
    // The exact corners lie inside the 20-pixel wedges: discarded.
    for uv in [
        Point { x: 0, y: 0 },
        Point { x: ONE, y: 0 },
        Point { x: 0, y: ONE },
        Point { x: ONE, y: ONE },
    ] {
        let out = fragment_color(&call.uniforms, &call.shadow_uniforms, uv, red(), None);
        assert_eq!(out, None);
    }
    // The center is deep inside: fully opaque, color untouched.
    let center = fragment_color(
        &call.uniforms,
        &call.shadow_uniforms,
        Point { x: 32768, y: 32768 },
        red(),
        None,
    );
    assert_eq!(center, Some(red()));
    // Edge midpoints are on the straight edges, still kept.
    let edge = fragment_color(
        &call.uniforms,
        &call.shadow_uniforms,
        Point { x: 32768, y: 0 },
        red(),
        None,
    );
    assert!(edge.is_some());
}

#[test]
fn shadowed_object_gets_a_shadow_pass_translated_by_the_offset() {
    let mut r = Renderer::new(800 * ONE, 600 * ONE, black());
    let mut quad = create_quad(
        Size::new(200 * ONE, 100 * ONE),
        red(),
        ONE,
        Position::new(50 * ONE, 50 * ONE),
    );
    quad.set_shadow(
        10 * ONE,
        Color { r: 0, g: 0, b: 0, a: 32768 },
        Point { x: 5 * ONE, y: 5 * ONE },
    );
    r.add_object(quad);
    let plan = r.render();
    assert_eq!(plan.shadow_draws.len(), 1);
    assert_eq!(plan.main_draws.len(), 1);
    let shadow = &plan.shadow_draws[0];
    let main = &plan.main_draws[0];
    assert_eq!(shadow.shadow_uniforms.enabled, 1);
    assert_eq!(main.shadow_uniforms.enabled, 0);
    assert_eq!(shadow.shadow_uniforms.radius, 10 * ONE);
    // The shadow pass's model matrix is the main pass's, translated by
    // exactly the offset.
    assert_eq!(shadow.uniforms.model_matrix.m03, main.uniforms.model_matrix.m03 + 5 * ONE);
    assert_eq!(shadow.uniforms.model_matrix.m13, main.uniforms.model_matrix.m13 + 5 * ONE);
    assert_eq!(shadow.uniforms.model_matrix.m00, main.uniforms.model_matrix.m00);
    assert_eq!(shadow.uniforms.projection_matrix, main.uniforms.projection_matrix);
    // Shadow draws bind no texture and nest no further shadow.
    assert_eq!(shadow.uniforms.use_texture, 0);
    assert_eq!(shadow.uniforms.shadow_radius, 0);
}

#[test]
fn clear_empties_the_draw_list() {
    let mut r = Renderer::new(100 * ONE, 100 * ONE, black());
    r.add_object(create_quad(Size::new(ONE, ONE), red(), 0, Position::new(0, 0)));
    r.add_object(create_quad(Size::new(ONE, ONE), red(), 0, Position::new(ONE, 0)));
    assert_eq!(r.render().main_draws.len(), 2);
    r.clear();
    let plan = r.render();
    assert_eq!(plan.main_draws.len(), 0);
    assert_eq!(plan.shadow_draws.len(), 0);
}

#[test]
fn projection_matches_the_drawable() {
    let mut r = Renderer::new(800 * ONE, 600 * ONE, black());
    r.add_object(create_quad(Size::new(ONE, ONE), red(), 0, Position::new(0, 0)));
    let plan = r.render();
    let p = &plan.main_draws[0].uniforms.projection_matrix;
    // 2/800 and -2/600 in fixed point, and the depth range packed into
    // [0, 1].
    assert_eq!(p.m00, 163);
    assert_eq!(p.m11, -218);
    assert_eq!(p.m03, -ONE);
    assert_eq!(p.m13, ONE);
    assert_eq!(p.m22, -327);
    assert_eq!(p.m23, 32768);
}

#[test]
fn sdf_signs_and_smoothstep_values() {
    // A 200x100 box with a 20-pixel corner radius, probed in local
    // coordinates: corner outside, center deep inside.
    let d_corner = rounded_rect_sdf(-100 * ONE, -50 * ONE, 100 * ONE, 50 * ONE, 20 * ONE);
    assert!(d_corner > 0);
    let d_center = rounded_rect_sdf(0, 0, 100 * ONE, 50 * ONE, 20 * ONE);
    assert_eq!(d_center, -50 * ONE);

    assert_eq!(smoothstep(-ONE, ONE, -2 * ONE), 0);
    assert_eq!(smoothstep(-ONE, ONE, -ONE), 0);
    assert_eq!(smoothstep(-ONE, ONE, ONE), ONE);
    assert_eq!(smoothstep(-ONE, ONE, 2 * ONE), ONE);
    // The ramp's midpoint: t = 1/2, t^2 (3 - 2t) = 1/2.
    assert_eq!(smoothstep(-ONE, ONE, 0), 32768);

    // The layering divisor: z = 1.0 maps to 1/50.
    assert_eq!(vertex_depth(ONE), 1310);
}

#[test]
fn shadow_alpha_falls_off_monotonically() {
    let mut r = Renderer::new(800 * ONE, 600 * ONE, black());
    let mut quad = create_quad(
        Size::new(100 * ONE, 100 * ONE),
        red(),
        ONE,
        Position::new(0, 0),
    );
    quad.set_shadow(10 * ONE, Color { r: 0, g: 0, b: 0, a: ONE }, Point { x: 0, y: 0 });
    r.add_object(quad);
    let plan = r.render();
    let shadow = &plan.shadow_draws[0];
    // Deep inside the quad the shadow is fully opaque.
    let inside = fragment_color(
        &shadow.uniforms,
        &shadow.shadow_uniforms,
        Point { x: 32768, y: 32768 },
        red(),
        None,
    );
    assert_eq!(inside.map(|c| c.a), Some(ONE));
    // Far outside the blur the fragment is discarded outright.
    let outside = fragment_color(
        &shadow.uniforms,
        &shadow.shadow_uniforms,
        Point { x: 2 * ONE, y: 32768 },
        red(),
        None,
    );
    assert_eq!(outside, None);
}

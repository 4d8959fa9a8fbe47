//! The retained object: buffer synchronization, mutators, and the lazy
//! shadow mesh cache.

use cgraph::object::curve::Point;
use cgraph::object::primitives::{create_quad, Color, Position, Size};
use cgraph::object::{Object, Vertex};

const ONE: i64 = 65536;

fn red() -> Color {
    Color { r: ONE, g: 0, b: 0, a: ONE }
}

#[test]
fn update_buffer_round_trips_the_mesh() {
    let mut o = create_quad(Size::new(10 * ONE, 10 * ONE), red(), 0, Position::new(0, 0));
    o.add_vertex(Vertex::new(ONE, 2 * ONE, 0, red(), Point { x: 0, y: 0 }));
    o.add_index(4);
    // The caches are stale until the explicit commit...
    assert_eq!(o.buffer.data.len(), 4);
    o.update_buffer();
    // ...and afterwards hold exactly the arrays last assigned.
    assert_eq!(o.buffer.data, o.vertices);
    assert_eq!(o.index_buffer.data, o.indices);
    assert_eq!(o.buffer.data.len(), 5);
    assert_eq!(o.index_buffer.data.len(), 7);
    assert_eq!(o.get_buffer().data, o.vertices);
    assert_eq!(o.get_index_buffer().data, o.indices);
}

#[test]
fn object_new_defaults() {
    let o = Object::new(Vec::new(), Vec::new());
    assert_eq!(o.position, Point { x: 0, y: 0 });
    assert_eq!(o.scale, Point { x: ONE, y: ONE });
    assert_eq!(o.original_pixel_size, Point { x: ONE, y: ONE });
    assert_eq!(o.rotation, 0);
    assert_eq!(o.corner_radius, 0);
    assert!(!o.shadow_on);
    assert!(o.shadow_dirty);
    assert!(o.shadow_buffer.is_none());
    assert!(!o.use_texture);
    assert!(o.texture.is_none());
}

#[test]
fn shadow_mutators_mark_the_cache_stale() {
    let mut o = create_quad(Size::new(10 * ONE, 10 * ONE), red(), 0, Position::new(0, 0));
    let shadow_color = Color { r: 0, g: 0, b: 0, a: 32768 };
    o.set_shadow(3 * ONE, shadow_color, Point { x: ONE, y: ONE });
    assert!(o.shadow_on);
    assert!(o.shadow_dirty);
    let _ = o.get_shadow_buffer();
    assert!(!o.shadow_dirty);

    o.set_shadow_radius(4 * ONE);
    assert!(o.shadow_dirty);
    let _ = o.get_shadow_buffer();
    o.set_shadow_offset(Point { x: 2 * ONE, y: 0 });
    assert!(o.shadow_dirty);
    let _ = o.get_shadow_buffer();
    o.set_scale(Point { x: 2 * ONE, y: 2 * ONE });
    assert!(o.shadow_dirty);

    o.disable_shadow();
    assert!(!o.shadow_on);
    o.enable_shadow();
    assert!(o.shadow_on);
    o.toggle_shadow();
    assert!(!o.shadow_on);
}

#[test]
fn set_shadow_twice_rebuilds_the_same_mesh() {
    let shadow_color = Color { r: 0, g: 0, b: 0, a: 32768 };
    let offset = Point { x: 5 * ONE, y: 5 * ONE };

    let mut once = create_quad(Size::new(20 * ONE, 10 * ONE), red(), 0, Position::new(ONE, ONE));
    once.set_shadow(10 * ONE, shadow_color, offset);
    let mesh_once = once.get_shadow_buffer();

    let mut twice = create_quad(Size::new(20 * ONE, 10 * ONE), red(), 0, Position::new(ONE, ONE));
    twice.set_shadow(10 * ONE, shadow_color, offset);
    twice.set_shadow(10 * ONE, shadow_color, offset);
    let mesh_twice = twice.get_shadow_buffer();

    assert_eq!(mesh_once.data, mesh_twice.data);
    assert!(!once.shadow_dirty);
    assert!(!twice.shadow_dirty);
    assert_eq!(mesh_once.data.len(), 4);

    // Reading again without dirtying returns the cached mesh unchanged.
    let again = twice.get_shadow_buffer();
    assert_eq!(again.data, mesh_twice.data);
}

#[test]
fn shadow_geometry_expands_the_scaled_box() {
    // A 200x100 quad with a 10-pixel blur: the quad spans the scaled
    // size plus the blur on each side, centered on the position.
    let mut o = create_quad(Size::new(200 * ONE, 100 * ONE), red(), ONE, Position::new(0, 0));
    o.set_shadow(10 * ONE, Color { r: 0, g: 0, b: 0, a: 32768 }, Point { x: 0, y: 0 });
    let (vertices, indices) = o.create_shadow_geometry();
    assert_eq!(indices, vec![0, 1, 2, 0, 2, 3]);
    // Half extents: (200 + 20) / 2 = 110 and (100 + 20) / 2 = 60.
    assert_eq!(vertices[0].position, Point { x: -110 * ONE, y: -60 * ONE });
    assert_eq!(vertices[2].position, Point { x: 110 * ONE, y: 60 * ONE });
    // The shadow quad sits a fraction behind the object's first vertex.
    assert_eq!(vertices[0].z_index, ONE - 6554);
}

#[test]
fn with_texture_flags_without_touching_geometry() {
    let o = create_quad(Size::new(10 * ONE, 10 * ONE), red(), 0, Position::new(0, 0));
    let before = o.vertices.clone();
    let o = o.with_texture(cgraph::image::Image::from_parts("side.png".to_string(), 4, 4));
    assert!(o.use_texture);
    assert_eq!(o.vertices, before);
    let mut o = o;
    o.set_use_texture(false);
    assert!(!o.use_texture);
    assert!(o.texture.is_some());
}

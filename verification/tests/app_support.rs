//! The shared object store and window options.

use cgraph::app::shared_objects::SharedObjects;
use cgraph::app::window::{Context, CoreEventReference, WindowOptions};
use cgraph::object::primitives::{create_quad, Color, Position, Size};

const ONE: i64 = 65536;

fn quad_at(x: i64) -> cgraph::object::Object {
    create_quad(
        Size::new(ONE, ONE),
        Color { r: ONE, g: 0, b: 0, a: ONE },
        0,
        Position::new(x, 0),
    )
}

#[test]
fn shared_objects_store_in_insertion_order() {
    let mut s = SharedObjects::new();
    assert_eq!(s.get_object().len(), 0);
    s.add_object(quad_at(0));
    s.add_object(quad_at(ONE));
    assert_eq!(s.get_object().len(), 2);
    assert_eq!(s.get_object_at(0).unwrap().position.x, 0);
    assert_eq!(s.get_object_at(1).unwrap().position.x, ONE);
    assert!(s.get_object_at(2).is_none());

    if let Some(o) = s.get_object_at_mut(1) {
        o.set_use_texture(true);
    }
    assert!(s.get_object_at(1).unwrap().use_texture);
    assert!(s.get_object_at_mut(5).is_none());
    s.get_object_mut().clear();
    assert_eq!(s.get_object().len(), 0);
}

#[test]
fn window_options_presets() {
    let d = WindowOptions::default();
    assert!(d.decorations && d.resizable && !d.transparent && !d.fullscreen && !d.no_titlebar);
    assert!(!WindowOptions::no_decorations().decorations);
    assert!(WindowOptions::resizable().resizable);
    assert!(WindowOptions::transparent().transparent);
    assert!(WindowOptions::fullscreen().fullscreen);
    assert!(WindowOptions::no_titlebar().no_titlebar);
}

#[test]
fn context_and_event_kinds() {
    let c = Context {
        name: "demo".to_string(),
        version: "0.1.0".to_string(),
        description: "a scene".to_string(),
    };
    assert_eq!(c.name, "demo");
    assert_ne!(CoreEventReference::WindowEvent, CoreEventReference::DeviceEvent);
    assert_eq!(CoreEventReference::UserEvent, CoreEventReference::UserEvent);
}

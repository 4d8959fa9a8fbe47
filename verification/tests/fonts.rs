//! Font loading, styles, and glyph-geometry transforms.

use cgraph::font::load::{get_system_font, get_system_font_with_style};
use cgraph::font::shape::{TextGeometry, TextTransform, TextVertex};
use cgraph::font::style::{FontWeight, TextStyle};
use cgraph::object::curve::Point;
use cgraph::object::primitives::{Color, Position, Size};
use cgraph::text::{text_geometry_object, TextStyleBuilder};

const ONE: i64 = 65536;

#[test]
fn test_load_font() {
    // Which names resolve is the machine's font database's decision: try
    // the classic name first, then families any desktop ships with (the
    // generic one is substituted by the database itself).  Whichever
    // resolves must come back consistent.
    let mut resolved = false;
    for name in ["Arial", "DejaVuSans", "LiberationSans-Regular"] {
        if let Ok(f) = get_system_font(name) {
            assert_eq!(f.stored_in_memory, f.path.is_none());
            assert!(!f.bytes.is_empty());
            resolved = true;
        }
    }
    for family in ["Arial", "DejaVu Sans", "Liberation Sans", "sans-serif"] {
        if let Ok(f) = get_system_font_with_style(family, &TextStyle::new()) {
            assert_eq!(f.stored_in_memory, f.path.is_none());
            assert!(!f.bytes.is_empty());
            resolved = true;
        }
    }
    assert!(resolved, "no system font resolved");
}

#[test]
fn nul_byte_names_are_rejected() {
    // The font database interface cannot take a name with an interior
    // NUL byte; the library refuses it with an error, not a panic.
    assert!(get_system_font("a\0b").is_err());
    assert!(get_system_font_with_style("a\0b", &TextStyle::new()).is_err());
}

#[test]
fn should_fail() {
    let result = get_system_font("ThisFontDoesNotExist");
    assert!(
        result.is_err(),
        "Expected an error when loading a non-existent font: {}",
        result.unwrap_err()
    );
}

#[test]
fn weights_and_styles() {
    let s = TextStyle::new();
    assert_eq!(s.weight, FontWeight::Normal);
    assert!(!s.italic);
    assert!(!s.underlined);
    assert!(TextStyle::bold().is_bold());
    assert!(TextStyle::new().with_weight(FontWeight::Black).is_bold());
    assert!(!TextStyle::italic().is_bold());
    assert!(TextStyle::underlined().underlined);
    assert_eq!(TextStyle::bold().weight_value(), 700);
    assert_eq!(TextStyle::new().weight_value(), 400);
    for w in [
        FontWeight::Thin,
        FontWeight::ExtraLight,
        FontWeight::Light,
        FontWeight::Normal,
        FontWeight::Medium,
        FontWeight::SemiBold,
        FontWeight::Bold,
        FontWeight::ExtraBold,
        FontWeight::Black,
    ] {
        let value = TextStyle::new().with_weight(w).weight_value();
        assert_eq!(FontWeight::from_value(value), w);
    }
    assert_eq!(FontWeight::from_value(0), FontWeight::Thin);
    assert_eq!(FontWeight::from_value(1000), FontWeight::Black);
}

#[test]
fn style_builder_accumulates_flags() {
    let b = TextStyleBuilder::new("Sans", 16 * ONE).bold().italic().underlined();
    assert_eq!(b.style.weight, FontWeight::Bold);
    assert!(b.style.italic);
    assert!(b.style.underlined);
    let b = b.size(24 * ONE).thin();
    assert_eq!(b.font_size, 24 * ONE);
    assert_eq!(b.style.weight, FontWeight::Thin);
}

fn sample_geometry() -> TextGeometry {
    TextGeometry {
        vertices: vec![
            TextVertex { x: 100 * ONE, y: 200 * ONE },
            TextVertex { x: 300 * ONE, y: 700 * ONE },
        ],
        indices: vec![0, 1, 0],
    }
}

#[test]
fn bounding_box_and_dimensions() {
    let g = sample_geometry();
    assert_eq!(g.bounding_box(), (100 * ONE, 200 * ONE, 300 * ONE, 700 * ONE));
    assert_eq!(g.pixel_dimensions(), (200 * ONE, 500 * ONE));
    let empty = TextGeometry { vertices: Vec::new(), indices: Vec::new() };
    assert_eq!(empty.bounding_box(), (0, 0, 0, 0));
}

#[test]
fn transform_to_canvas_scales_shifts_and_flips() {
    let mut g = sample_geometry();
    let transform = TextTransform {
        font_size: 48 * ONE,
        position: Position::new(0, 0),
        canvas_size: Size::new(800 * ONE, 600 * ONE),
        style: TextStyle::new(),
    };
    // 48 px over 1000 font units per em.
    g.transform_to_canvas(transform, 1000 * ONE);
    // The left edge lands on zero and y now grows downward from the top.
    assert_eq!(g.vertices[0], TextVertex { x: 0, y: 1572500 });
    assert_eq!(g.vertices[1], TextVertex { x: 629000, y: 0 });
    assert_eq!(g.indices, vec![0, 1, 0]);

    g.normalize_to_canvas(Size::new(800 * ONE, 600 * ONE));
    assert_eq!(g.vertices[1].x, 786);
    assert_eq!(g.vertices[0].y, 2620);
}

#[test]
fn underline_appends_a_thin_quad() {
    let mut g = sample_geometry();
    g.add_underline_geometry();
    assert_eq!(g.vertices.len(), 6);
    assert_eq!(g.indices.len(), 9);
    // The underline spans the text's width, 20 pixels below its bottom.
    let uy = 200 * ONE - 20 * ONE;
    assert_eq!(g.vertices[2], TextVertex { x: 100 * ONE, y: uy });
    assert_eq!(g.vertices[3], TextVertex { x: 300 * ONE, y: uy });
    assert_eq!(g.vertices[4], TextVertex { x: 300 * ONE, y: uy - 2 * ONE });
    assert_eq!(&g.indices[3..9], &[2, 3, 4, 2, 4, 5]);

    let mut empty = TextGeometry { vertices: Vec::new(), indices: Vec::new() };
    empty.add_underline_geometry();
    assert_eq!(empty.vertices.len(), 0);
    assert_eq!(empty.indices.len(), 0);
}

#[test]
fn text_object_recolors_and_positions_the_mesh() {
    let g = sample_geometry();
    let color = Color { r: ONE, g: ONE, b: ONE, a: ONE };
    let o = text_geometry_object(&g, color, 2 * ONE, Point { x: 10 * ONE, y: 20 * ONE });
    assert_eq!(o.vertices.len(), 2);
    assert_eq!(o.indices, vec![0u32, 1, 0]);
    assert_eq!(o.vertices[0].position, Point { x: 110 * ONE, y: 220 * ONE });
    assert_eq!(o.vertices[0].color, color);
    assert_eq!(o.vertices[0].z_index, 2 * ONE);
    assert_eq!(o.vertices[1].uv, Point { x: 0, y: 0 });
    assert_eq!(o.position, Point { x: 10 * ONE, y: 20 * ONE });
    assert_eq!(o.original_pixel_size, Point { x: 0, y: 0 });
    assert_eq!(o.buffer.data, o.vertices);
}


//! Text objects: styled font selection and the wrapping of shaped glyph
//! meshes into scene objects.
//!
//! Shaping itself is the platform layer's work; the functions here pick
//! the font and turn a finished glyph mesh into an object, recoloring
//! every vertex to one requested color and assigning one z-index.

use vstd::prelude::*;

verus! {

use crate::fixed::{fx_ok, FX_ONE};
use crate::font::load::{get_system_font, get_system_font_with_style};
use crate::font::shape::{TextGeometry, TextTransform, TextVertex};
use crate::font::style::{FontWeight, TextStyle};
use crate::object::curve::Point;
use crate::object::primitives::{Color, Position, Size};
use crate::object::{Object, Vertex};

/// A font ready for plain text: the loaded font and how to place it.
#[derive(Debug, Clone, PartialEq, Eq)]
pub struct Font {
    /// The loaded font used for rendering text.
    pub core_font: crate::font::load::Font,
    /// The transformation properties for rendering text.
    pub transform: TextTransform,
}

/// A styled font: the loaded font, its placement, and the family it was
/// selected from.
#[derive(Debug, Clone, PartialEq, Eq)]
pub struct StyledFont {
    /// The loaded font used for rendering text.
    pub core_font: crate::font::load::Font,
    /// The transformation properties for rendering text.
    pub transform: TextTransform,
    /// The font family name.
    pub font_family: String,
}

/// A chainable builder for styled text: family, size, and style flags.
#[derive(Debug, Clone)]
pub struct TextStyleBuilder {
    /// The accumulated style.
    pub style: TextStyle,
    /// The font family to select from.
    pub font_family: String,
    /// The font size in fixed-point pixels.
    pub font_size: i64,
}

impl TextStyleBuilder {
    /// Creates a builder for the given family and size, with the default
    /// style.
    pub fn new(font_family: &str, font_size: i64) -> (r: Self)
        ensures
            r.style == (TextStyle { weight: FontWeight::Normal, italic: false, underlined: false }),
            r.font_family@ == font_family@,
            r.font_size == font_size,
    {
        TextStyleBuilder {
            style: TextStyle::new(),
            font_family: font_family.to_owned(),
            font_size,
        }
    }

    /// Makes the text bold.
    pub fn bold(self) -> (r: Self)
        ensures
            r == (TextStyleBuilder { style: TextStyle { weight: FontWeight::Bold, ..self.style }, ..self }),
    {
        TextStyleBuilder { style: self.style.with_weight(FontWeight::Bold), ..self }
    }

    /// Makes the text italic.
    pub fn italic(self) -> (r: Self)
        ensures
            r == (TextStyleBuilder { style: TextStyle { italic: true, ..self.style }, ..self }),
    {
        TextStyleBuilder { style: self.style.with_italic(true), ..self }
    }

    /// Makes the text underlined.
    pub fn underlined(self) -> (r: Self)
        ensures
            r == (TextStyleBuilder { style: TextStyle { underlined: true, ..self.style }, ..self }),
    {
        TextStyleBuilder { style: self.style.with_underlined(true), ..self }
    }

    /// Sets a specific font weight.
    pub fn weight(self, weight: FontWeight) -> (r: Self)
        ensures
            r == (TextStyleBuilder { style: TextStyle { weight, ..self.style }, ..self }),
    {
        TextStyleBuilder { style: self.style.with_weight(weight), ..self }
    }

    /// Sets the font weight to thin.
    pub fn thin(self) -> (r: Self)
        ensures
            r == (TextStyleBuilder { style: TextStyle { weight: FontWeight::Thin, ..self.style }, ..self }),
    {
        TextStyleBuilder { style: self.style.with_weight(FontWeight::Thin), ..self }
    }

    /// Sets the font weight to light.
    pub fn light(self) -> (r: Self)
        ensures
            r == (TextStyleBuilder { style: TextStyle { weight: FontWeight::Light, ..self.style }, ..self }),
    {
        TextStyleBuilder { style: self.style.with_weight(FontWeight::Light), ..self }
    }

    /// Sets the font weight to medium.
    pub fn medium(self) -> (r: Self)
        ensures
            r == (TextStyleBuilder { style: TextStyle { weight: FontWeight::Medium, ..self.style }, ..self }),
    {
        TextStyleBuilder { style: self.style.with_weight(FontWeight::Medium), ..self }
    }

    /// Sets the font weight to semi-bold.
    pub fn semi_bold(self) -> (r: Self)
        ensures
            r == (TextStyleBuilder {
                style: TextStyle { weight: FontWeight::SemiBold, ..self.style },
                ..self
            }),
    {
        TextStyleBuilder { style: self.style.with_weight(FontWeight::SemiBold), ..self }
    }

    /// Sets the font weight to extra bold.
    pub fn extra_bold(self) -> (r: Self)
        ensures
            r == (TextStyleBuilder {
                style: TextStyle { weight: FontWeight::ExtraBold, ..self.style },
                ..self
            }),
    {
        TextStyleBuilder { style: self.style.with_weight(FontWeight::ExtraBold), ..self }
    }

    /// Sets the font weight to black (heaviest).
    pub fn black(self) -> (r: Self)
        ensures
            r == (TextStyleBuilder { style: TextStyle { weight: FontWeight::Black, ..self.style }, ..self }),
    {
        TextStyleBuilder { style: self.style.with_weight(FontWeight::Black), ..self }
    }

    /// Changes the font size.
    pub fn size(self, size: i64) -> (r: Self)
        ensures
            r == (TextStyleBuilder { font_size: size, ..self }),
    {
        TextStyleBuilder { font_size: size, ..self }
    }

    /// Changes the font family.
    pub fn family(self, family: &str) -> (r: Self)
        ensures
            r.style == self.style,
            r.font_size == self.font_size,
            r.font_family@ == family@,
    {
        TextStyleBuilder { font_family: family.to_owned(), ..self }
    }

    /// Selects the styled system font and pairs it with a placement on a
    /// canvas of the given size.  Whether a font matches depends on the
    /// machine's installed fonts.
    pub fn build_font(self, canvas_size: Size) -> (r: Result<StyledFont, String>)
        ensures
            r matches Ok(f) ==> f.transform == (TextTransform {
                font_size: self.font_size,
                position: Position { x: 0, y: 0 },
                canvas_size,
                style: self.style,
            }) && f.font_family == self.font_family,
    {
        let core_font = match get_system_font_with_style(self.font_family.as_str(), &self.style) {
            Ok(f) => f,
            Err(e) => {
                return Err(e);
            },
        };
        let transform = TextTransform {
            font_size: self.font_size,
            position: Position { x: 0, y: 0 },
            canvas_size,
            style: self.style,
        };
        Ok(StyledFont { core_font, transform, font_family: self.font_family })
    }
}

/// Retrieves a system font by PostScript name and pairs it with a
/// placement on a canvas of the given size.
pub fn get_font(canvas_size: Size, name: &str, size: i64) -> (r: Result<Font, String>)
    ensures
        r matches Ok(f) ==> f.transform == (TextTransform {
            font_size: size,
            position: Position { x: 0, y: 0 },
            canvas_size,
            style: TextStyle { weight: FontWeight::Normal, italic: false, underlined: false },
        }),
{
    let font = match get_system_font(name) {
        Ok(f) => f,
        Err(e) => {
            return Err(e);
        },
    };
    let transform = TextTransform {
        font_size: size,
        position: Position { x: 0, y: 0 },
        canvas_size,
        style: TextStyle::new(),
    };
    Ok(Font { core_font: font, transform })
}

/// One vertex of a finished text object: the glyph-mesh position shifted
/// to the text's scene position, the single requested color and z-index,
/// and the zero UV (text samples no texture).
pub open spec fn text_vertex_spec(v: TextVertex, color: Color, z_index: i64, position: Point) -> Vertex {
    Vertex {
        position: Point { x: (v.x + position.x) as i64, y: (v.y + position.y) as i64 },
        color,
        z_index,
        uv: Point { x: 0, y: 0 },
    }
}

/// Wraps a shaped glyph mesh in a scene object at `position`: every
/// vertex is recolored to the one requested color and assigned the one
/// z-index (per-glyph color or depth is not supported), the 16-bit
/// indices widen to 32 bits, and the bounding size is left zero.
pub fn text_geometry_object(
    geometry: &TextGeometry,
    color: Color,
    z_index: i64,
    position: Point,
) -> (r: Object)
    requires
        forall|i: int| 0 <= i < geometry.vertices@.len() ==> -0x4000_0000_0000
            <= #[trigger] geometry.vertices@[i].x <= 0x4000_0000_0000 && -0x4000_0000_0000
            <= geometry.vertices@[i].y <= 0x4000_0000_0000,
        fx_ok(position.x as int),
        fx_ok(position.y as int),
    ensures
        r.vertices@ == Seq::new(
            geometry.vertices@.len(),
            |i: int| text_vertex_spec(geometry.vertices@[i], color, z_index, position),
        ),
        r.indices@ == Seq::new(geometry.indices@.len(), |i: int| geometry.indices@[i] as u32),
        r.buffers_synced(),
        r.position == position,
        r.scale == (Point { x: FX_ONE, y: FX_ONE }),
        r.original_pixel_size == (Point { x: 0, y: 0 }),
        r.rotation == 0,
        r.corner_radius == 0,
        r.use_texture == false,
{
    let ghost vspec = Seq::new(
        geometry.vertices@.len(),
        |i: int| text_vertex_spec(geometry.vertices@[i], color, z_index, position),
    );
    let ghost ispec = Seq::new(geometry.indices@.len(), |i: int| geometry.indices@[i] as u32);

    let mut indices: Vec<u32> = Vec::new();
    let mut i: usize = 0;
    while i < geometry.indices.len()
        invariant
            0 <= i <= geometry.indices@.len(),
            ispec == Seq::new(geometry.indices@.len(), |k: int| geometry.indices@[k] as u32),
            indices@ == ispec.subrange(0, i as int),
        decreases geometry.indices@.len() - i,
    {
        indices.push(geometry.indices[i] as u32);
        i = i + 1;
        proof {
            assert(indices@ =~= ispec.subrange(0, i as int));
        }
    }
    proof {
        assert(indices@ =~= ispec);
    }

    let mut vertices: Vec<Vertex> = Vec::new();
    let mut i: usize = 0;
    while i < geometry.vertices.len()
        invariant
            0 <= i <= geometry.vertices@.len(),
            forall|k: int| 0 <= k < geometry.vertices@.len() ==> -0x4000_0000_0000
                <= #[trigger] geometry.vertices@[k].x <= 0x4000_0000_0000 && -0x4000_0000_0000
                <= geometry.vertices@[k].y <= 0x4000_0000_0000,
            fx_ok(position.x as int),
            fx_ok(position.y as int),
            vspec == Seq::new(
                geometry.vertices@.len(),
                |k: int| text_vertex_spec(geometry.vertices@[k], color, z_index, position),
            ),
            vertices@ == vspec.subrange(0, i as int),
        decreases geometry.vertices@.len() - i,
    {
        let v = geometry.vertices[i];
        vertices.push(
            Vertex {
                position: Point { x: v.x + position.x, y: v.y + position.y },
                color,
                z_index,
                uv: Point { x: 0, y: 0 },
            },
        );
        i = i + 1;
        proof {
            assert(vertices@ =~= vspec.subrange(0, i as int));
        }
    }
    proof {
        assert(vertices@ =~= vspec);
    }

    let mut object = Object::new(vertices, indices);
    object.position = position;
    object.scale = Point { x: 65536, y: 65536 };
    object.original_pixel_size = Point { x: 0, y: 0 };
    object.rotation = 0;
    object.corner_radius = 0;
    object
}

} // verus!

//! Common shapes: sizes, positions, colors, and the builders for quads,
//! rounded quads, circles and polygons.
//!
//! Every builder returns a fully initialized [`Object`](crate::object::Object)
//! whose buffer caches already hold the mesh, and states the exact vertex and
//! index lists it produced.

use vstd::prelude::*;

verus! {

use crate::fixed::{fx_ok, fx_mul, fx_mul_spec, fx_div_spec, fx_cos_spec, fx_sin_spec, lemma_mul_bound, lemma_fx_mul_spec_bound, FX_ONE, FX_MAX};
use crate::object::curve::Point;
use crate::object::{Object, Vertex};

/// A size: width and height, in fixed-point pixels.
#[derive(Debug, Clone, Copy, PartialEq, Eq, Structural)]
pub struct Size {
    /// The width of the size.
    pub width: i64,
    /// The height of the size.
    pub height: i64,
}

impl Size {
    /// Returns the width of the size.
    pub fn x(&self) -> (r: i64)
        ensures
            r == self.width,
    {
        self.width
    }

    /// Returns the height of the size.
    pub fn y(&self) -> (r: i64)
        ensures
            r == self.height,
    {
        self.height
    }

    /// Creates a new size with the given width and height.
    pub fn new(width: i64, height: i64) -> (r: Self)
        ensures
            r == (Size { width, height }),
    {
        Size { width, height }
    }

    /// Both extents are in the scalar range.
    pub open spec fn wf(self) -> bool {
        fx_ok(self.width as int) && fx_ok(self.height as int)
    }
}

/// A position: x and y coordinates, in fixed-point pixels.
#[derive(Debug, Clone, Copy, PartialEq, Eq, Structural)]
pub struct Position {
    /// The x coordinate of the position.
    pub x: i64,
    /// The y coordinate of the position.
    pub y: i64,
}

impl Position {
    /// Returns the x coordinate of the position.
    pub fn x(&self) -> (r: i64)
        ensures
            r == self.x,
    {
        self.x
    }

    /// Returns the y coordinate of the position.
    pub fn y(&self) -> (r: i64)
        ensures
            r == self.y,
    {
        self.y
    }

    /// Creates a new position with the given x and y coordinates.
    pub fn new(x: i64, y: i64) -> (r: Self)
        ensures
            r == (Position { x, y }),
    {
        Position { x, y }
    }

    /// Both coordinates are in the scalar range.
    pub open spec fn wf(self) -> bool {
        fx_ok(self.x as int) && fx_ok(self.y as int)
    }
}

/// A straight RGBA color, each channel a fixed-point value in `[0, 1]`.
#[derive(Debug, Clone, Copy, PartialEq, Eq, Structural)]
pub struct Color {
    /// The red channel.
    pub r: i64,
    /// The green channel.
    pub g: i64,
    /// The blue channel.
    pub b: i64,
    /// The alpha channel.
    pub a: i64,
}

impl Color {
    /// Creates a new color from its four channels.
    pub fn new(r: i64, g: i64, b: i64, a: i64) -> (c: Self)
        ensures
            c == (Color { r, g, b, a }),
    {
        Color { r, g, b, a }
    }

    /// All four channels are in the scalar range.
    pub open spec fn wf(self) -> bool {
        fx_ok(self.r as int) && fx_ok(self.g as int) && fx_ok(self.b as int) && fx_ok(
            self.a as int,
        )
    }
}

/// The three shadow parameters a builder can attach in one argument.
#[derive(Debug, Clone, Copy, PartialEq, Eq, Structural)]
pub struct ShadowData {
    /// The radius of the shadow.
    pub radius: i64,
    /// The color of the shadow.
    pub color: Color,
    /// The offset of the shadow.
    pub offset: Position,
}

/// The mesh, transform and style of a freshly built object: the given
/// vertex and index lists, already uploaded; positioned at `pos` with unit
/// scale, no rotation, the given corner radius, and no texture.
pub open spec fn built_core_spec(
    r: Object,
    vertices: Seq<Vertex>,
    indices: Seq<u32>,
    pos: Position,
    ops: Size,
    corner_radius: i64,
) -> bool {
    &&& r.vertices@ == vertices
    &&& r.indices@ == indices
    &&& r.buffers_synced()
    &&& r.position == (Point { x: pos.x, y: pos.y })
    &&& r.scale == (Point { x: FX_ONE, y: FX_ONE })
    &&& r.original_pixel_size == (Point { x: ops.width, y: ops.height })
    &&& r.rotation == 0
    &&& r.corner_radius == corner_radius
    &&& r.texture is None
    &&& r.use_texture == false
}

/// A fresh object's shadow state: off, nothing cached, everything stale.
pub open spec fn default_shadow_spec(r: Object) -> bool {
    &&& r.shadow_on == false
    &&& r.shadow_dirty == true
    &&& r.shadow_radius == 0
    &&& r.shadow_color == (Color { r: 0, g: 0, b: 0, a: 0 })
    &&& r.shadow_offset == (Point { x: 0, y: 0 })
    &&& r.shadow_buffer is None
    &&& r.shadow_index_buffer is None
}

/// A builder-attached shadow: on, stale, with the given parameters.
pub open spec fn attached_shadow_spec(r: Object, data: ShadowData) -> bool {
    &&& r.shadow_on == true
    &&& r.shadow_dirty == true
    &&& r.shadow_radius == data.radius
    &&& r.shadow_color == data.color
    &&& r.shadow_offset == (Point { x: data.offset.x, y: data.offset.y })
    &&& r.shadow_buffer is None
    &&& r.shadow_index_buffer is None
}

/// The four corners of an axis-aligned quad at `position` (its top-left),
/// in the order bottom-left, bottom-right, top-right, top-left, with the
/// unit square's UVs.
pub open spec fn quad_vertices_spec(size: Size, color: Color, z_index: i64, position: Position) -> Seq<
    Vertex,
> {
    let left = position.x as int;
    let right = position.x + size.width;
    let top = position.y as int;
    let bottom = position.y + size.height;
    seq![
        Vertex {
            position: Point { x: left as i64, y: bottom as i64 },
            color,
            z_index,
            uv: Point { x: 0, y: 0 },
        },
        Vertex {
            position: Point { x: right as i64, y: bottom as i64 },
            color,
            z_index,
            uv: Point { x: FX_ONE, y: 0 },
        },
        Vertex {
            position: Point { x: right as i64, y: top as i64 },
            color,
            z_index,
            uv: Point { x: FX_ONE, y: FX_ONE },
        },
        Vertex {
            position: Point { x: left as i64, y: top as i64 },
            color,
            z_index,
            uv: Point { x: 0, y: FX_ONE },
        },
    ]
}

/// A quad's two triangles.
pub open spec fn quad_indices_spec() -> Seq<u32> {
    seq![0u32, 1u32, 2u32, 0u32, 2u32, 3u32]
}

/// Builds the quad mesh shared by the quad, rounded-quad and circle
/// builders, with the given corner radius.
fn build_quad_object(size: Size, color: Color, z_index: i64, position: Position, corner_radius: i64) -> (r:
    Object)
    requires
        size.wf(),
        position.wf(),
        fx_ok(corner_radius as int),
    ensures
        built_core_spec(
            r,
            quad_vertices_spec(size, color, z_index, position),
            quad_indices_spec(),
            position,
            size,
            corner_radius,
        ),
        default_shadow_spec(r),
        r.fields_ok(),
        r.indices_ok(),
        r.vertices@.len() == 4,
{
    let left: i64 = position.x;
    let right: i64 = position.x + size.width;
    let top: i64 = position.y;
    let bottom: i64 = position.y + size.height;

    let mut vertices: Vec<Vertex> = Vec::new();
    vertices.push(
        Vertex {
            position: Point { x: left, y: bottom },
            color,
            z_index,
            uv: Point { x: 0, y: 0 },
        },
    );
    vertices.push(
        Vertex {
            position: Point { x: right, y: bottom },
            color,
            z_index,
            uv: Point { x: 65536, y: 0 },
        },
    );
    vertices.push(
        Vertex {
            position: Point { x: right, y: top },
            color,
            z_index,
            uv: Point { x: 65536, y: 65536 },
        },
    );
    vertices.push(
        Vertex {
            position: Point { x: left, y: top },
            color,
            z_index,
            uv: Point { x: 0, y: 65536 },
        },
    );
    let mut indices: Vec<u32> = Vec::new();
    indices.push(0);
    indices.push(1);
    indices.push(2);
    indices.push(0);
    indices.push(2);
    indices.push(3);
    proof {
        assert(vertices@ =~= quad_vertices_spec(size, color, z_index, position));
        assert(indices@ =~= quad_indices_spec());
    }
    let mut object = Object::new(vertices, indices);
    object.position = Point { x: position.x, y: position.y };
    object.scale = Point { x: 65536, y: 65536 };
    object.original_pixel_size = Point { x: size.width, y: size.height };
    object.rotation = 0;
    object.corner_radius = corner_radius;
    object.update_buffer();
    object
}

/// Creates a sharp-cornered quad of the given size at `position`.
pub fn create_quad(size: Size, color: Color, z_index: i64, position: Position) -> (r: Object)
    requires
        size.wf(),
        position.wf(),
    ensures
        built_core_spec(
            r,
            quad_vertices_spec(size, color, z_index, position),
            quad_indices_spec(),
            position,
            size,
            0,
        ),
        default_shadow_spec(r),
        r.fields_ok(),
        r.indices_ok(),
{
    build_quad_object(size, color, z_index, position, 0)
}

/// Creates a quad whose corners are rounded (in the fragment stage) by
/// `corner_radius`.
pub fn create_rounded_quad(
    size: Size,
    color: Color,
    z_index: i64,
    position: Position,
    corner_radius: i64,
) -> (r: Object)
    requires
        size.wf(),
        position.wf(),
        fx_ok(corner_radius as int),
    ensures
        built_core_spec(
            r,
            quad_vertices_spec(size, color, z_index, position),
            quad_indices_spec(),
            position,
            size,
            corner_radius,
        ),
        default_shadow_spec(r),
        r.fields_ok(),
        r.indices_ok(),
{
    build_quad_object(size, color, z_index, position, corner_radius)
}

/// A rounded quad with corner radius 0 is, field for field, the quad: the
/// two builders promise identical meshes, transforms and styles, so the
/// drawn output is identical (and the fragment stage never discards at
/// radius 0).
pub proof fn lemma_rounded_quad_zero_is_quad(
    a: Object,
    b: Object,
    size: Size,
    color: Color,
    z_index: i64,
    position: Position,
)
    requires
        built_core_spec(
            a,
            quad_vertices_spec(size, color, z_index, position),
            quad_indices_spec(),
            position,
            size,
            0,
        ),
        built_core_spec(
            b,
            quad_vertices_spec(size, color, z_index, position),
            quad_indices_spec(),
            position,
            size,
            0,
        ),
    ensures
        a.vertices@ == b.vertices@,
        a.indices@ == b.indices@,
        a.position == b.position,
        a.scale == b.scale,
        a.original_pixel_size == b.original_pixel_size,
        a.rotation == b.rotation,
        a.corner_radius == b.corner_radius,
        a.use_texture == b.use_texture,
{
}

/// The smaller of a size's two extents.
pub open spec fn size_min_spec(size: Size) -> int {
    if size.width < size.height {
        size.width as int
    } else {
        size.height as int
    }
}

/// Creates a circle: a quad whose corner radius is half the smaller
/// extent, so the roundness is entirely a fragment-stage SDF effect (an
/// extreme aspect ratio renders as a stadium shape by design).
pub fn create_circle(size: Size, color: Color, z_index: i64, position: Position) -> (r: Object)
    requires
        size.wf(),
        position.wf(),
    ensures
        built_core_spec(
            r,
            quad_vertices_spec(size, color, z_index, position),
            quad_indices_spec(),
            position,
            size,
            fx_mul_spec(size_min_spec(size), 32768) as i64,
        ),
        default_shadow_spec(r),
        r.fields_ok(),
        r.indices_ok(),
{
    let smaller: i64 = if size.width < size.height {
        size.width
    } else {
        size.height
    };
    proof {
        lemma_mul_bound(smaller as int, 32768, FX_MAX as int, 32768);
        lemma_fx_mul_spec_bound(smaller as int, 32768, (FX_MAX as int) * 32768);
        assert(((FX_MAX as int) * 32768) / 65536 == 536870912);
    }
    let corner_radius: i64 = fx_mul(smaller, 32768);
    build_quad_object(size, color, z_index, position, corner_radius)
}

/// Creates a circle from its radius: a square circle quad of side
/// `2 * radius`.
pub fn create_circle_with_radius(radius: i64, color: Color, z_index: i64, position: Position) -> (r:
    Object)
    requires
        fx_ok(2 * radius),
        position.wf(),
    ensures
        built_core_spec(
            r,
            quad_vertices_spec(
                Size { width: (2 * radius) as i64, height: (2 * radius) as i64 },
                color,
                z_index,
                position,
            ),
            quad_indices_spec(),
            position,
            Size { width: (2 * radius) as i64, height: (2 * radius) as i64 },
            fx_mul_spec(
                size_min_spec(Size { width: (2 * radius) as i64, height: (2 * radius) as i64 }),
                32768,
            ) as i64,
        ),
        default_shadow_spec(r),
        r.fields_ok(),
        r.indices_ok(),
{
    let size = Size::new(radius * 2, radius * 2);
    create_circle(size, color, z_index, position)
}

/// The angle of the polygon's rim vertex `i`: `2 pi i / faces`.
pub open spec fn polygon_angle_spec(i: int, faces: int) -> int {
    (crate::fixed::FX_TAU * i) / faces
}

/// One rim vertex of a polygon: the center pushed out by the radius at the
/// vertex's angle, with UVs relative to the bounding box.
pub open spec fn polygon_rim_vertex_spec(
    size: Size,
    color: Color,
    z_index: i64,
    position: Position,
    faces: int,
    i: int,
) -> Vertex {
    let radius = fx_mul_spec(size_min_spec(size), 32768);
    let cx = position.x + fx_mul_spec(size.width as int, 32768);
    let cy = position.y + fx_mul_spec(size.height as int, 32768);
    let ang = polygon_angle_spec(i, faces);
    let x = cx + fx_mul_spec(radius, fx_cos_spec(ang));
    let y = cy + fx_mul_spec(radius, fx_sin_spec(ang));
    Vertex {
        position: Point { x: x as i64, y: y as i64 },
        color,
        z_index,
        uv: Point {
            x: fx_div_spec(x - position.x, size.width as int) as i64,
            y: fx_div_spec(y - position.y, size.height as int) as i64,
        },
    }
}

/// The polygon's vertices: the center (with the UV midpoint), then one rim
/// vertex per face.
pub open spec fn polygon_vertices_spec(
    size: Size,
    color: Color,
    z_index: i64,
    position: Position,
    faces: int,
) -> Seq<Vertex> {
    Seq::new(
        (faces + 1) as nat,
        |j: int|
            if j == 0 {
                Vertex {
                    position: Point {
                        x: (position.x + fx_mul_spec(size.width as int, 32768)) as i64,
                        y: (position.y + fx_mul_spec(size.height as int, 32768)) as i64,
                    },
                    color,
                    z_index,
                    uv: Point { x: 32768, y: 32768 },
                }
            } else {
                polygon_rim_vertex_spec(size, color, z_index, position, faces, j - 1)
            },
    )
}

/// The polygon's triangle fan: each face joins the center to two
/// consecutive rim vertices, the last wrapping back to the first.
pub open spec fn polygon_indices_spec(faces: int) -> Seq<u32> {
    Seq::new(
        (3 * faces) as nat,
        |k: int|
            {
                let s = k / 3;
                let m = k % 3;
                (if m == 0 {
                    0
                } else if m == 1 {
                    s + 1
                } else if s == faces - 1 {
                    1
                } else {
                    s + 2
                }) as u32
            },
    )
}

/// Creates a regular polygon inscribed in the size's bounding box as a
/// triangle fan around the center.  Fewer than 3 faces produce an empty,
/// validly drawable mesh; 3 or more produce one center vertex plus one rim
/// vertex per face, and one triangle per face.
pub fn create_polygon(size: Size, color: Color, z_index: i64, position: Position, faces: usize) -> (r:
    Object)
    requires
        size.wf(),
        position.wf(),
        size.width > 0,
        size.height > 0,
        faces <= 0x10000,
    ensures
        faces < 3 ==> Object::fresh_spec(r, Seq::empty(), Seq::empty()),
        faces >= 3 ==> built_core_spec(
            r,
            polygon_vertices_spec(size, color, z_index, position, faces as int),
            polygon_indices_spec(faces as int),
            position,
            size,
            0,
        ) && default_shadow_spec(r),
        faces >= 3 ==> r.vertices@.len() == faces + 1 && r.indices@.len() == 3 * faces,
        r.fields_ok(),
        r.indices_ok(),
{
    if faces < 3 {
        let r = Object::new(Vec::new(), Vec::new());
        return r;
    }
    proof {
        lemma_mul_bound(size_min_spec(size), 32768, FX_MAX as int, 32768);
        lemma_fx_mul_spec_bound(size_min_spec(size), 32768, (FX_MAX as int) * 32768);
        lemma_mul_bound(size.width as int, 32768, FX_MAX as int, 32768);
        lemma_fx_mul_spec_bound(size.width as int, 32768, (FX_MAX as int) * 32768);
        lemma_mul_bound(size.height as int, 32768, FX_MAX as int, 32768);
        lemma_fx_mul_spec_bound(size.height as int, 32768, (FX_MAX as int) * 32768);
        assert(((FX_MAX as int) * 32768) / 65536 == 536870912);
    }
    let smaller: i64 = if size.width < size.height {
        size.width
    } else {
        size.height
    };
    let radius: i64 = fx_mul(smaller, 32768);
    let center_x: i64 = position.x + fx_mul(size.width, 32768);
    let center_y: i64 = position.y + fx_mul(size.height, 32768);

    let ghost pvs = polygon_vertices_spec(size, color, z_index, position, faces as int);
    let ghost pis = polygon_indices_spec(faces as int);

    let mut vertices: Vec<Vertex> = Vec::new();
    vertices.push(
        Vertex {
            position: Point { x: center_x, y: center_y },
            color,
            z_index,
            uv: Point { x: 32768, y: 32768 },
        },
    );
    let mut i: usize = 0;
    while i < faces
        invariant
            3 <= faces <= 0x10000,
            0 <= i <= faces,
            size.wf(),
            position.wf(),
            size.width > 0,
            size.height > 0,
            radius == fx_mul_spec(size_min_spec(size), 32768),
            -536870912 <= radius <= 536870912,
            center_x == position.x + fx_mul_spec(size.width as int, 32768),
            center_y == position.y + fx_mul_spec(size.height as int, 32768),
            -(FX_MAX as int) - 536870912 <= center_x <= FX_MAX + 536870912,
            -(FX_MAX as int) - 536870912 <= center_y <= FX_MAX + 536870912,
            pvs == polygon_vertices_spec(size, color, z_index, position, faces as int),
            vertices@ == pvs.subrange(0, i as int + 1),
        decreases faces - i,
    {
        proof {
            assert(0 <= (crate::fixed::FX_TAU as int) * (i as int) <= 411775int * 0x10000)
                by (nonlinear_arith)
                requires
                    0 <= i <= 0x10000,
            ;
            vstd::arithmetic::div_mod::lemma_div_pos_is_pos(
                (crate::fixed::FX_TAU as int) * (i as int),
                faces as int,
            );
            assert((crate::fixed::FX_TAU as int) * (i as int) < (faces as int) * 411775)
                by (nonlinear_arith)
                requires
                    0 <= i < faces,
            ;
            vstd::arithmetic::div_mod::lemma_multiply_divide_lt(
                (crate::fixed::FX_TAU as int) * (i as int),
                faces as int,
                411775,
            );
        }
        let angle: i64 = ((411775u64 * (i as u64)) / (faces as u64)) as i64;
        let c: i64 = crate::fixed::fx_cos(angle);
        let s: i64 = crate::fixed::fx_sin(angle);
        proof {
            crate::fixed::lemma_fx_mul_coef_coord(radius as int, c as int, 536870912, 65536);
            crate::fixed::lemma_fx_mul_coef_coord(radius as int, s as int, 536870912, 65536);
            assert((536870912int * 65536) / 65536 == 536870912);
        }
        let x: i64 = center_x + fx_mul(radius, c);
        let y: i64 = center_y + fx_mul(radius, s);
        let u: i64 = crate::fixed::fx_div(x - position.x, size.width);
        let v: i64 = crate::fixed::fx_div(y - position.y, size.height);
        vertices.push(
            Vertex { position: Point { x, y }, color, z_index, uv: Point { x: u, y: v } },
        );
        i = i + 1;
        proof {
            assert(vertices@ =~= pvs.subrange(0, i as int + 1));
        }
    }
    proof {
        assert(vertices@ =~= pvs);
    }

    let mut indices: Vec<u32> = Vec::new();
    let mut i: usize = 0;
    while i < faces
        invariant
            3 <= faces <= 0x10000,
            0 <= i <= faces,
            pis == polygon_indices_spec(faces as int),
            indices@ == pis.subrange(0, 3 * i as int),
        decreases faces - i,
    {
        let next: u32 = if i == faces - 1 {
            1
        } else {
            (i + 2) as u32
        };
        indices.push(0);
        indices.push((i + 1) as u32);
        indices.push(next);
        i = i + 1;
        proof {
            let k0 = 3 * (i as int - 1);
            vstd::arithmetic::div_mod::lemma_fundamental_div_mod_converse(k0, 3, i as int - 1, 0);
            vstd::arithmetic::div_mod::lemma_fundamental_div_mod_converse(
                k0 + 1,
                3,
                i as int - 1,
                1,
            );
            vstd::arithmetic::div_mod::lemma_fundamental_div_mod_converse(
                k0 + 2,
                3,
                i as int - 1,
                2,
            );
            assert(indices@ =~= pis.subrange(0, 3 * i as int));
        }
    }
    proof {
        assert(indices@ =~= pis);
        assert forall|k: int| 0 <= k < pis.len() implies pis[k] < pvs.len() by {
            let s = k / 3;
            vstd::arithmetic::div_mod::lemma_div_pos_is_pos(k, 3);
            vstd::arithmetic::div_mod::lemma_div_is_ordered(k, 3 * (faces as int) - 1, 3);
            vstd::arithmetic::div_mod::lemma_fundamental_div_mod_converse(
                3 * (faces as int) - 1,
                3,
                faces as int - 1,
                2,
            );
        }
    }
    let mut object = Object::new(vertices, indices);
    object.position = Point { x: position.x, y: position.y };
    object.scale = Point { x: 65536, y: 65536 };
    object.original_pixel_size = Point { x: size.width, y: size.height };
    object.rotation = 0;
    object.corner_radius = 0;
    object.update_buffer();
    object
}

/// Creates a quad with a shadow already attached (still to be rebuilt on
/// first read).
pub fn create_quad_with_shadow(
    size: Size,
    color: Color,
    z_index: i64,
    position: Position,
    shadow_radius: i64,
    shadow_color: Color,
    shadow_offset: Position,
) -> (r: Object)
    requires
        size.wf(),
        position.wf(),
    ensures
        built_core_spec(
            r,
            quad_vertices_spec(size, color, z_index, position),
            quad_indices_spec(),
            position,
            size,
            0,
        ),
        attached_shadow_spec(
            r,
            ShadowData { radius: shadow_radius, color: shadow_color, offset: shadow_offset },
        ),
{
    let mut object = create_quad(size, color, z_index, position);
    object.set_shadow(
        shadow_radius,
        shadow_color,
        Point { x: shadow_offset.x, y: shadow_offset.y },
    );
    object
}

/// Creates a rounded quad with a shadow already attached.
pub fn create_rounded_quad_with_shadow(
    size: Size,
    color: Color,
    z_index: i64,
    position: Position,
    corner_radius: i64,
    shadow_data: ShadowData,
) -> (r: Object)
    requires
        size.wf(),
        position.wf(),
        fx_ok(corner_radius as int),
    ensures
        built_core_spec(
            r,
            quad_vertices_spec(size, color, z_index, position),
            quad_indices_spec(),
            position,
            size,
            corner_radius,
        ),
        attached_shadow_spec(r, shadow_data),
{
    let mut object = create_rounded_quad(size, color, z_index, position, corner_radius);
    object.set_shadow(
        shadow_data.radius,
        shadow_data.color,
        Point { x: shadow_data.offset.x, y: shadow_data.offset.y },
    );
    object
}

/// Creates a circle with a shadow already attached.
pub fn create_circle_with_shadow(
    size: Size,
    color: Color,
    z_index: i64,
    position: Position,
    shadow_data: ShadowData,
) -> (r: Object)
    requires
        size.wf(),
        position.wf(),
    ensures
        built_core_spec(
            r,
            quad_vertices_spec(size, color, z_index, position),
            quad_indices_spec(),
            position,
            size,
            fx_mul_spec(size_min_spec(size), 32768) as i64,
        ),
        attached_shadow_spec(r, shadow_data),
{
    let mut object = create_circle(size, color, z_index, position);
    object.set_shadow(
        shadow_data.radius,
        shadow_data.color,
        Point { x: shadow_data.offset.x, y: shadow_data.offset.y },
    );
    object
}

} // verus!

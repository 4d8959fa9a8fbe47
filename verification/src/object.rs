//! The retained scene entity: a mesh with transform, style and shadow
//! attributes, plus the buffer caches that mirror what was uploaded to the
//! device.

use vstd::prelude::*;

/// Buffer module for managing vertex and index data.
pub mod buffer;
/// Curve evaluation and stroked line-strip meshes.
pub mod curve;
/// Builders for path-based shapes.
pub mod curve_primitives;
/// Builders for common shapes.
pub mod primitives;

verus! {

use crate::fixed::{fx_ok, FX_ONE};
use crate::object::buffer::{copied_vec, Buffer};
use crate::object::curve::Point;
use crate::object::primitives::Color;
use crate::image::Image;

/// A single mesh vertex: scene-space position, straight RGBA color, a
/// layering hint, and a texture/SDF-local coordinate.
#[derive(Debug, Clone, Copy, PartialEq, Eq, Structural)]
pub struct Vertex {
    /// The position of the vertex in 2D space.
    pub position: Point,
    /// The color of the vertex.
    pub color: Color,
    /// The z-index of the vertex for rendering order.
    pub z_index: i64,
    /// The UV coordinates for texture mapping.
    pub uv: Point,
}

impl Vertex {
    /// Creates a default vertex: position (0, 0), white, z-index 0, UV (0, 0).
    pub fn create_default() -> (r: Self)
        ensures
            r == (Vertex {
                position: Point { x: 0, y: 0 },
                color: Color { r: 65536, g: 65536, b: 65536, a: 65536 },
                z_index: 0,
                uv: Point { x: 0, y: 0 },
            }),
    {
        Vertex {
            position: Point { x: 0, y: 0 },
            color: Color { r: 65536, g: 65536, b: 65536, a: 65536 },
            z_index: 0,
            uv: Point { x: 0, y: 0 },
        }
    }

    /// Creates a new vertex from its parts.
    pub fn new(x: i64, y: i64, z_index: i64, color: Color, uv: Point) -> (r: Self)
        ensures
            r == (Vertex { position: Point { x, y }, color, z_index, uv }),
    {
        Vertex { position: Point { x, y }, color, z_index, uv }
    }
}

/// A drawable retained object.
///
/// The object owns its mesh (`vertices`, `indices`), the buffer caches that
/// mirror the device buffers, its transform and style, and the lazily
/// rebuilt shadow mesh cache.
#[derive(Debug, Clone)]
pub struct Object {
    /// The vertices of the object.
    pub vertices: Vec<Vertex>,
    /// The indices of the vertices for indexed rendering.
    pub indices: Vec<u32>,
    /// The buffer cache for the vertex data.
    pub buffer: Buffer<Vertex>,
    /// The buffer cache for the index data.
    pub index_buffer: Buffer<u32>,
    /// The position of the object in 2D space.
    pub position: Point,
    /// The scale of the object in 2D space.
    pub scale: Point,
    /// The untransformed bounding size used for SDF and shadow math.
    pub original_pixel_size: Point,
    /// The rotation of the object in radians (fixed point).
    pub rotation: i64,
    /// The corner radius for rounded corners.
    pub corner_radius: i64,
    /// The blur extent of the shadow.
    pub shadow_radius: i64,
    /// The color of the shadow.
    pub shadow_color: Color,
    /// The offset of the shadow in scene pixels.
    pub shadow_offset: Point,
    /// Whether the shadow is enabled.
    pub shadow_on: bool,
    /// The cached buffer for shadow-expanded vertices.
    pub shadow_buffer: Option<Buffer<Vertex>>,
    /// The cached buffer for shadow indices.
    pub shadow_index_buffer: Option<Buffer<u32>>,
    /// Whether the cached shadow mesh is stale and must be rebuilt.
    pub shadow_dirty: bool,
    /// The texture attached to the object, if any.
    pub texture: Option<Image>,
    /// Whether the object samples its texture instead of vertex color.
    pub use_texture: bool,
}

impl Object {
    /// The transform and style fields are all in the scalar range.
    pub open spec fn fields_ok(self) -> bool {
        &&& fx_ok(self.position.x as int)
        &&& fx_ok(self.position.y as int)
        &&& fx_ok(self.scale.x as int)
        &&& fx_ok(self.scale.y as int)
        &&& fx_ok(self.original_pixel_size.x as int)
        &&& fx_ok(self.original_pixel_size.y as int)
        &&& fx_ok(self.rotation as int)
        &&& fx_ok(self.corner_radius as int)
        &&& fx_ok(self.shadow_radius as int)
        &&& fx_ok(self.shadow_offset.x as int)
        &&& fx_ok(self.shadow_offset.y as int)
    }

    /// Every index triple refers to existing vertices.
    pub open spec fn indices_ok(self) -> bool {
        forall|i: int| 0 <= i < self.indices@.len() ==> self.indices@[i] < self.vertices@.len()
    }

    /// Both buffer caches hold exactly the current CPU-side mesh.
    pub open spec fn buffers_synced(self) -> bool {
        self.buffer.data@ == self.vertices@ && self.index_buffer.data@ == self.indices@
    }

    /// The two objects agree on everything except the two buffer caches.
    pub open spec fn same_but_buffers(pre: Object, post: Object) -> bool {
        &&& post.vertices == pre.vertices
        &&& post.indices == pre.indices
        &&& post.position == pre.position
        &&& post.scale == pre.scale
        &&& post.original_pixel_size == pre.original_pixel_size
        &&& post.rotation == pre.rotation
        &&& post.corner_radius == pre.corner_radius
        &&& post.shadow_radius == pre.shadow_radius
        &&& post.shadow_color == pre.shadow_color
        &&& post.shadow_offset == pre.shadow_offset
        &&& post.shadow_on == pre.shadow_on
        &&& post.shadow_buffer == pre.shadow_buffer
        &&& post.shadow_index_buffer == pre.shadow_index_buffer
        &&& post.shadow_dirty == pre.shadow_dirty
        &&& post.texture == pre.texture
        &&& post.use_texture == pre.use_texture
    }

    /// Re-uploads the CPU vertex and index lists into the buffer caches:
    /// after the call the caches hold exactly the lists last assigned.
    pub fn update_buffer(&mut self)
        ensures
            Object::same_but_buffers(*old(self), *final(self)),
            final(self).buffer.data@ == old(self).vertices@,
            final(self).index_buffer.data@ == old(self).indices@,
            final(self).buffers_synced(),
    {
        let vertices = copied_vec(&self.vertices);
        self.buffer.update(vertices);
        let indices = copied_vec(&self.indices);
        self.index_buffer.update(indices);
    }

    /// Returns the vertex buffer cache.
    pub fn get_buffer(&self) -> (r: &Buffer<Vertex>)
        ensures
            r == &self.buffer,
    {
        &self.buffer
    }

    /// Returns the index buffer cache.
    pub fn get_index_buffer(&self) -> (r: &Buffer<u32>)
        ensures
            r == &self.index_buffer,
    {
        &self.index_buffer
    }

    /// A freshly built object: the given mesh, already uploaded, with every
    /// transform, style and shadow field at its default.
    pub open spec fn fresh_spec(r: Object, vertices: Seq<Vertex>, indices: Seq<u32>) -> bool {
        &&& r.vertices@ == vertices
        &&& r.indices@ == indices
        &&& r.buffer.data@ == vertices
        &&& r.index_buffer.data@ == indices
        &&& r.position == (Point { x: 0, y: 0 })
        &&& r.scale == (Point { x: FX_ONE, y: FX_ONE })
        &&& r.original_pixel_size == (Point { x: FX_ONE, y: FX_ONE })
        &&& r.rotation == 0
        &&& r.corner_radius == 0
        &&& r.shadow_radius == 0
        &&& r.shadow_color == (Color { r: 0, g: 0, b: 0, a: 0 })
        &&& r.shadow_offset == (Point { x: 0, y: 0 })
        &&& r.shadow_on == false
        &&& r.shadow_buffer is None
        &&& r.shadow_index_buffer is None
        &&& r.shadow_dirty == true
        &&& r.texture is None
        &&& r.use_texture == false
    }

    /// Creates a new object with the given mesh, uploads it, and leaves
    /// every other attribute at its default.
    pub fn new(vertices: Vec<Vertex>, indices: Vec<u32>) -> (r: Self)
        ensures
            Object::fresh_spec(r, vertices@, indices@),
    {
        let buffer = Buffer::new(copied_vec(&vertices));
        let index_buffer = Buffer::new(copied_vec(&indices));
        Object {
            vertices,
            indices,
            buffer,
            index_buffer,
            position: Point { x: 0, y: 0 },
            scale: Point { x: FX_ONE, y: FX_ONE },
            original_pixel_size: Point { x: FX_ONE, y: FX_ONE },
            rotation: 0,
            corner_radius: 0,
            shadow_radius: 0,
            shadow_color: Color { r: 0, g: 0, b: 0, a: 0 },
            shadow_offset: Point { x: 0, y: 0 },
            shadow_on: false,
            shadow_buffer: None,
            shadow_index_buffer: None,
            shadow_dirty: true,
            texture: None,
            use_texture: false,
        }
    }

    /// Appends a vertex to the CPU-side mesh (the buffer cache is stale
    /// until the next `update_buffer`).
    pub fn add_vertex(&mut self, vertex: Vertex)
        ensures
            *final(self) == (Object { vertices: final(self).vertices, ..*old(self) }),
            final(self).vertices@ == old(self).vertices@.push(vertex),
    {
        self.vertices.push(vertex);
    }

    /// Appends an index to the CPU-side mesh.
    pub fn add_index(&mut self, index: u32)
        ensures
            *final(self) == (Object { indices: final(self).indices, ..*old(self) }),
            final(self).indices@ == old(self).indices@.push(index),
    {
        self.indices.push(index);
    }

    /// Attaches a texture and turns texture sampling on.  The geometry is
    /// untouched, so no re-upload is needed.
    pub fn with_texture(self, texture: Image) -> (r: Self)
        ensures
            r == (Object { texture: Some(texture), use_texture: true, ..self }),
    {
        Object { texture: Some(texture), use_texture: true, ..self }
    }

    /// Sets whether the object samples its texture.
    pub fn set_use_texture(&mut self, use_texture: bool)
        ensures
            *final(self) == (Object { use_texture, ..*old(self) }),
    {
        self.use_texture = use_texture;
    }

    /// The state after `set_shadow`/`with_shadow`: the three shadow
    /// parameters replaced, the shadow enabled, and the cached shadow mesh
    /// marked stale.
    pub open spec fn set_shadow_spec(o: Object, radius: i64, color: Color, offset: Point) -> Object {
        Object {
            shadow_radius: radius,
            shadow_color: color,
            shadow_offset: offset,
            shadow_on: true,
            shadow_dirty: true,
            ..o
        }
    }

    /// Enables the shadow with the given parameters, consuming the object.
    pub fn with_shadow(self, radius: i64, color: Color, offset: Point) -> (r: Self)
        ensures
            r == Object::set_shadow_spec(self, radius, color, offset),
    {
        Object {
            shadow_radius: radius,
            shadow_color: color,
            shadow_offset: offset,
            shadow_on: true,
            shadow_dirty: true,
            ..self
        }
    }

    /// Enables the shadow with the given parameters, in place.
    pub fn set_shadow(&mut self, radius: i64, color: Color, offset: Point)
        ensures
            *final(self) == Object::set_shadow_spec(*old(self), radius, color, offset),
    {
        self.shadow_radius = radius;
        self.shadow_color = color;
        self.shadow_offset = offset;
        self.shadow_on = true;
        self.shadow_dirty = true;
    }

    /// Sets the shadow blur radius and marks the shadow mesh stale.
    pub fn set_shadow_radius(&mut self, radius: i64)
        ensures
            *final(self) == (Object { shadow_radius: radius, shadow_dirty: true, ..*old(self) }),
    {
        self.shadow_radius = radius;
        self.shadow_dirty = true;
    }

    /// Sets the shadow offset and marks the shadow mesh stale.
    pub fn set_shadow_offset(&mut self, offset: Point)
        ensures
            *final(self) == (Object { shadow_offset: offset, shadow_dirty: true, ..*old(self) }),
    {
        self.shadow_offset = offset;
        self.shadow_dirty = true;
    }

    /// Sets the scale and marks the shadow mesh stale (its expansion
    /// depends on the scaled size).
    pub fn set_scale(&mut self, scale: Point)
        ensures
            *final(self) == (Object { scale, shadow_dirty: true, ..*old(self) }),
    {
        self.scale = scale;
        self.shadow_dirty = true;
    }

    /// Turns the shadow on.
    pub fn enable_shadow(&mut self)
        ensures
            *final(self) == (Object { shadow_on: true, shadow_dirty: true, ..*old(self) }),
    {
        self.shadow_on = true;
        self.shadow_dirty = true;
    }

    /// Turns the shadow off.
    pub fn disable_shadow(&mut self)
        ensures
            *final(self) == (Object { shadow_on: false, shadow_dirty: true, ..*old(self) }),
    {
        self.shadow_on = false;
        self.shadow_dirty = true;
    }

    /// Flips the shadow flag.
    pub fn toggle_shadow(&mut self)
        ensures
            *final(self) == (Object {
                shadow_on: !old(self).shadow_on,
                shadow_dirty: true,
                ..*old(self)
            }),
    {
        self.shadow_on = !self.shadow_on;
        self.shadow_dirty = true;
    }
}

/// Applying `set_shadow` twice with the same parameters gives exactly the
/// state that applying it once gives, so the shadow mesh later rebuilt from
/// that state is also the same: repeated setting accumulates nothing.
pub proof fn lemma_set_shadow_idempotent(o: Object, radius: i64, color: Color, offset: Point)
    ensures
        Object::set_shadow_spec(Object::set_shadow_spec(o, radius, color, offset), radius, color, offset)
            == Object::set_shadow_spec(o, radius, color, offset),
{
}

} // verus!

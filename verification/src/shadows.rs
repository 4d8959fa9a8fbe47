//! The derived shadow mesh and its lazy rebuild-on-read cache.
//!
//! A shadow is drawn from a quad that expands the object's scaled bounding
//! box by the blur radius on all sides, centered on the object's position.
//! The quad is rebuilt on the next read after any shadow attribute changes
//! (`shadow_dirty`), never eagerly, so several settings in a row cost one
//! rebuild.

use vstd::prelude::*;

verus! {

use crate::fixed::{fx_ok, fx_mul, fx_mul_spec, lemma_mul_bound, lemma_fx_mul_spec_bound, FX_MAX};
use crate::object::buffer::{copied_vec, Buffer};
use crate::object::curve::Point;
use crate::object::primitives::Color;
use crate::object::{Object, Vertex};

/// The shadow quad's half-extents: half of the scaled bounding size
/// expanded by the blur radius on each side.
pub open spec fn shadow_half_extent_spec(size: int, scale: int, radius: int) -> int {
    fx_mul_spec(fx_mul_spec(size, scale) + 2 * radius, 32768)
}

/// One corner of the shadow quad: the object's position plus the signed
/// half-extents, white, just behind the object's first vertex, with the
/// quad's corner UV.
pub open spec fn shadow_corner_spec(o: Object, sx: int, sy: int, u: int, v: int) -> Vertex {
    Vertex {
        position: Point {
            x: (o.position.x + sx * shadow_half_extent_spec(
                o.original_pixel_size.x as int,
                o.scale.x as int,
                o.shadow_radius as int,
            )) as i64,
            y: (o.position.y + sy * shadow_half_extent_spec(
                o.original_pixel_size.y as int,
                o.scale.y as int,
                o.shadow_radius as int,
            )) as i64,
        },
        color: Color { r: 65536, g: 65536, b: 65536, a: 65536 },
        z_index: (o.vertices@[0].z_index - 6554) as i64,
        uv: Point { x: (u * 65536) as i64, y: (v * 65536) as i64 },
    }
}

/// The four corners of the shadow quad: bottom-left, bottom-right,
/// top-right, top-left.
pub open spec fn shadow_vertices_spec(o: Object) -> Seq<Vertex> {
    seq![
        shadow_corner_spec(o, -1, -1, 0, 0),
        shadow_corner_spec(o, 1, -1, 1, 0),
        shadow_corner_spec(o, 1, 1, 1, 1),
        shadow_corner_spec(o, -1, 1, 0, 1),
    ]
}

/// The shadow quad's two triangles.
pub open spec fn shadow_indices_spec() -> Seq<u32> {
    seq![0u32, 1u32, 2u32, 0u32, 2u32, 3u32]
}

impl Object {
    /// Computes the shadow quad for the object's current size, scale,
    /// position and blur radius.
    pub fn create_shadow_geometry(&self) -> (r: (Vec<Vertex>, Vec<u32>))
        requires
            self.fields_ok(),
            self.vertices@.len() > 0,
            fx_ok(self.vertices@[0].z_index as int),
        ensures
            r.0@ == shadow_vertices_spec(*self),
            r.1@ == shadow_indices_spec(),
    {
        let expansion: i64 = self.shadow_radius;
        proof {
            lemma_mul_bound(
                self.original_pixel_size.x as int,
                self.scale.x as int,
                FX_MAX as int,
                FX_MAX as int,
            );
            lemma_mul_bound(
                self.original_pixel_size.y as int,
                self.scale.y as int,
                FX_MAX as int,
                FX_MAX as int,
            );
        }
        let original_width: i64 = fx_mul(self.original_pixel_size.x, self.scale.x);
        let original_height: i64 = fx_mul(self.original_pixel_size.y, self.scale.y);
        proof {
            lemma_fx_mul_spec_bound(
                self.original_pixel_size.x as int,
                self.scale.x as int,
                (FX_MAX as int) * (FX_MAX as int),
            );
            lemma_fx_mul_spec_bound(
                self.original_pixel_size.y as int,
                self.scale.y as int,
                (FX_MAX as int) * (FX_MAX as int),
            );
        }
        let expanded_width: i64 = original_width + 2 * expansion;
        let expanded_height: i64 = original_height + 2 * expansion;
        proof {
            lemma_mul_bound(expanded_width as int, 32768, 0x1_0000_0000_0000, 32768);
            lemma_mul_bound(expanded_height as int, 32768, 0x1_0000_0000_0000, 32768);
            lemma_fx_mul_spec_bound(expanded_width as int, 32768, 0x1_0000_0000_0000int * 32768);
            lemma_fx_mul_spec_bound(expanded_height as int, 32768, 0x1_0000_0000_0000int * 32768);
        }
        let half_expanded_width: i64 = fx_mul(expanded_width, 32768);
        let half_expanded_height: i64 = fx_mul(expanded_height, 32768);

        let z_index: i64 = self.vertices[0].z_index - 6554;
        let white: Color = Color { r: 65536, g: 65536, b: 65536, a: 65536 };

        let mut vertices: Vec<Vertex> = Vec::new();
        vertices.push(
            Vertex {
                position: Point {
                    x: self.position.x - half_expanded_width,
                    y: self.position.y - half_expanded_height,
                },
                color: white,
                z_index,
                uv: Point { x: 0, y: 0 },
            },
        );
        vertices.push(
            Vertex {
                position: Point {
                    x: self.position.x + half_expanded_width,
                    y: self.position.y - half_expanded_height,
                },
                color: white,
                z_index,
                uv: Point { x: 65536, y: 0 },
            },
        );
        vertices.push(
            Vertex {
                position: Point {
                    x: self.position.x + half_expanded_width,
                    y: self.position.y + half_expanded_height,
                },
                color: white,
                z_index,
                uv: Point { x: 65536, y: 65536 },
            },
        );
        vertices.push(
            Vertex {
                position: Point {
                    x: self.position.x - half_expanded_width,
                    y: self.position.y + half_expanded_height,
                },
                color: white,
                z_index,
                uv: Point { x: 0, y: 65536 },
            },
        );

        let mut indices: Vec<u32> = Vec::new();
        indices.push(0);
        indices.push(1);
        indices.push(2);
        indices.push(0);
        indices.push(2);
        indices.push(3);

        proof {
            assert(vertices@ =~= shadow_vertices_spec(*self));
            assert(indices@ =~= shadow_indices_spec());
        }
        (vertices, indices)
    }

    /// Returns the shadow vertex buffer, rebuilding it first if it is
    /// absent or stale.  After the call the cache is clean and holds the
    /// quad for the current attributes.
    pub fn get_shadow_buffer(&mut self) -> (r: Buffer<Vertex>)
        requires
            old(self).fields_ok(),
            old(self).vertices@.len() > 0,
            fx_ok(old(self).vertices@[0].z_index as int),
        ensures
            final(self).shadow_dirty == false,
            final(self).shadow_buffer matches Some(b) && b.data@ == r.data@,
            *final(self) == (Object {
                shadow_buffer: final(self).shadow_buffer,
                shadow_dirty: false,
                ..*old(self)
            }),
            old(self).shadow_buffer is None || old(self).shadow_dirty ==> r.data@
                == shadow_vertices_spec(*old(self)),
            old(self).shadow_buffer is Some && !old(self).shadow_dirty ==> r.data@ == old(
                self,
            ).shadow_buffer->Some_0.data@,
    {
        if self.shadow_buffer.is_none() || self.shadow_dirty {
            let (vertices, _) = self.create_shadow_geometry();
            self.shadow_buffer = Some(Buffer::new(vertices));
            self.shadow_dirty = false;
        } else {
            self.shadow_dirty = false;
        }
        match &self.shadow_buffer {
            Some(b) => Buffer { data: copied_vec(&b.data) },
            None => {
                proof {
                    assert(false);
                }
                Buffer { data: Vec::new() }
            },
        }
    }

    /// Returns the shadow index buffer, building it on first read.  The
    /// indices never change, so staleness does not apply.
    pub fn get_shadow_index_buffer(&mut self) -> (r: Buffer<u32>)
        ensures
            final(self).shadow_index_buffer matches Some(b) && b.data@ == r.data@,
            *final(self) == (Object {
                shadow_index_buffer: final(self).shadow_index_buffer,
                ..*old(self)
            }),
            old(self).shadow_index_buffer is None ==> r.data@ == shadow_indices_spec(),
            old(self).shadow_index_buffer is Some ==> r.data@ == old(
                self,
            ).shadow_index_buffer->Some_0.data@,
    {
        if self.shadow_index_buffer.is_none() {
            let mut indices: Vec<u32> = Vec::new();
            indices.push(0);
            indices.push(1);
            indices.push(2);
            indices.push(0);
            indices.push(2);
            indices.push(3);
            proof {
                assert(indices@ =~= shadow_indices_spec());
            }
            self.shadow_index_buffer = Some(Buffer::new(indices));
        }
        match &self.shadow_index_buffer {
            Some(b) => Buffer { data: copied_vec(&b.data) },
            None => {
                proof {
                    assert(false);
                }
                Buffer { data: Vec::new() }
            },
        }
    }
}

/// Setting the same shadow twice leaves exactly the state that setting it
/// once leaves, so the shadow mesh rebuilt on the next read is also the
/// same: repeated setting accumulates no duplicate shadow geometry.
pub proof fn lemma_repeated_set_shadow_rebuilds_same_mesh(
    o: Object,
    radius: i64,
    color: Color,
    offset: Point,
)
    ensures
        Object::set_shadow_spec(
            Object::set_shadow_spec(o, radius, color, offset),
            radius,
            color,
            offset,
        ) == Object::set_shadow_spec(o, radius, color, offset),
        shadow_vertices_spec(
            Object::set_shadow_spec(
                Object::set_shadow_spec(o, radius, color, offset),
                radius,
                color,
                offset,
            ),
        ) == shadow_vertices_spec(Object::set_shadow_spec(o, radius, color, offset)),
{
    crate::object::lemma_set_shadow_idempotent(o, radius, color, offset);
}

} // verus!

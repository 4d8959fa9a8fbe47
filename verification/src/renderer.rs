//! The renderer: the retained object list, the drawable and target sizes,
//! and the two-pass draw algorithm.
//!
//! The renderer owns no device; each frame it derives a [`FramePlan`]: the
//! shadow pass (one draw per shadowed object, in list order, with the
//! shadow-enabled uniform variant and the position shifted by the shadow
//! offset), then the main pass (one draw per object, in list order).  The
//! platform layer executes the plan verbatim against the device.

use vstd::prelude::*;

verus! {

use crate::fixed::{
    fx_ok, fx_mul, fx_mul_spec, fx_div, fx_div_spec, fx_cos, fx_sin, fx_cos_spec, fx_sin_spec,
    lemma_fx_mul_coef_coord, lemma_mul_bound, FX_ONE, FX_MAX,
};
use crate::object::curve::Point;
use crate::object::primitives::Color;
use crate::object::Object;

/// A 4x4 fixed-point matrix, row-major, for column vectors.
#[derive(Debug, Clone, Copy, PartialEq, Eq, Structural)]
pub struct Mat4 {
    /// Row 0, column 0.
    pub m00: i64,
    /// Row 0, column 1.
    pub m01: i64,
    /// Row 0, column 2.
    pub m02: i64,
    /// Row 0, column 3.
    pub m03: i64,
    /// Row 1, column 0.
    pub m10: i64,
    /// Row 1, column 1.
    pub m11: i64,
    /// Row 1, column 2.
    pub m12: i64,
    /// Row 1, column 3.
    pub m13: i64,
    /// Row 2, column 0.
    pub m20: i64,
    /// Row 2, column 1.
    pub m21: i64,
    /// Row 2, column 2.
    pub m22: i64,
    /// Row 2, column 3.
    pub m23: i64,
    /// Row 3, column 0.
    pub m30: i64,
    /// Row 3, column 1.
    pub m31: i64,
    /// Row 3, column 2.
    pub m32: i64,
    /// Row 3, column 3.
    pub m33: i64,
}

/// The model matrix `translation(px, py) * rotation_z * scale(sx, sy)`,
/// written out: the rotation block scaled per column, the translation in
/// the last column.  `c` and `s` are the rotation's cosine and sine.
pub open spec fn model_matrix_spec(px: i64, py: i64, c: int, s: int, sx: i64, sy: i64) -> Mat4 {
    Mat4 {
        m00: fx_mul_spec(c, sx as int) as i64,
        m01: (-fx_mul_spec(s, sy as int)) as i64,
        m02: 0,
        m03: px,
        m10: fx_mul_spec(s, sx as int) as i64,
        m11: fx_mul_spec(c, sy as int) as i64,
        m12: 0,
        m13: py,
        m20: 0,
        m21: 0,
        m22: FX_ONE,
        m23: 0,
        m30: 0,
        m31: 0,
        m32: 0,
        m33: FX_ONE,
    }
}

/// The orthographic projection of the scene rectangle `(0, 0)` to
/// `(w, h)` (top-left origin, right-handed) with the depth range
/// `[-100, 100]` mapped to `[0, 1]`.
pub open spec fn ortho_matrix_spec(w: i64, h: i64) -> Mat4 {
    Mat4 {
        m00: fx_div_spec(131072, w as int) as i64,
        m01: 0,
        m02: 0,
        m03: (-65536) as i64,
        m10: 0,
        m11: (-fx_div_spec(131072, h as int)) as i64,
        m12: 0,
        m13: FX_ONE,
        m20: 0,
        m21: 0,
        m22: (-fx_div_spec(FX_ONE as int, 13107200)) as i64,
        m23: 32768,
        m30: 0,
        m31: 0,
        m32: 0,
        m33: FX_ONE,
    }
}

/// Computes the model matrix for a transform.
fn model_matrix(px: i64, py: i64, rotation: i64, sx: i64, sy: i64) -> (r: Mat4)
    requires
        -0x8000_0000 <= px <= 0x8000_0000,
        -0x8000_0000 <= py <= 0x8000_0000,
        fx_ok(rotation as int),
        fx_ok(sx as int),
        fx_ok(sy as int),
    ensures
        r == model_matrix_spec(
            px,
            py,
            fx_cos_spec(rotation as int),
            fx_sin_spec(rotation as int),
            sx,
            sy,
        ),
{
    let c: i64 = fx_cos(rotation);
    let s: i64 = fx_sin(rotation);
    proof {
        lemma_fx_mul_coef_coord(c as int, sx as int, 65536, FX_MAX as int);
        lemma_fx_mul_coef_coord(c as int, sy as int, 65536, FX_MAX as int);
        lemma_fx_mul_coef_coord(s as int, sx as int, 65536, FX_MAX as int);
        lemma_fx_mul_coef_coord(s as int, sy as int, 65536, FX_MAX as int);
        assert((65536int * 1073741824) / 65536 == 1073741824);
    }
    Mat4 {
        m00: fx_mul(c, sx),
        m01: -fx_mul(s, sy),
        m02: 0,
        m03: px,
        m10: fx_mul(s, sx),
        m11: fx_mul(c, sy),
        m12: 0,
        m13: py,
        m20: 0,
        m21: 0,
        m22: 65536,
        m23: 0,
        m30: 0,
        m31: 0,
        m32: 0,
        m33: 65536,
    }
}

/// Computes the orthographic projection for the current drawable size.
fn ortho_matrix(w: i64, h: i64) -> (r: Mat4)
    requires
        0 < w <= FX_MAX,
        0 < h <= FX_MAX,
    ensures
        r == ortho_matrix_spec(w, h),
{
    Mat4 {
        m00: fx_div(131072, w),
        m01: 0,
        m02: 0,
        m03: -65536,
        m10: 0,
        m11: -fx_div(131072, h),
        m12: 0,
        m13: 65536,
        m20: 0,
        m21: 0,
        m22: -fx_div(65536, 13107200),
        m23: 32768,
        m30: 0,
        m31: 0,
        m32: 0,
        m33: 65536,
    }
}

/// The per-draw constants handed to both shader stages.
#[derive(Debug, Clone, Copy, PartialEq, Eq, Structural)]
pub struct Uniforms {
    /// The rectangle's scene position (its top-left).
    pub rect_position: Point,
    /// The rectangle's scaled pixel size, for the SDF.
    pub rect_size: Point,
    /// The corner radius for SDF rounding.
    pub corner_radius: i64,
    /// The model matrix.
    pub model_matrix: Mat4,
    /// The projection matrix.
    pub projection_matrix: Mat4,
    /// Whether the fragment stage samples the texture (1) or the vertex
    /// color (0).
    pub use_texture: u32,
    /// The shadow blur radius (informational on the main pass).
    pub shadow_radius: i64,
    /// The shadow color (informational on the main pass).
    pub shadow_color: Color,
}

/// The shadow-pass constants: the offset, blur and color of the shadow,
/// and whether the shadow variant of the fragment stage is active.
#[derive(Debug, Clone, Copy, PartialEq, Eq, Structural)]
pub struct ShadowUniforms {
    /// The x offset for the shadow position.
    pub offset_x: i64,
    /// The y offset for the shadow position.
    pub offset_y: i64,
    /// The radius of the shadow.
    pub radius: i64,
    /// The color of the shadow.
    pub color: Color,
    /// Whether the shadow variant is enabled (1) or not (0).
    pub enabled: u32,
}

/// The scaled pixel size of an object: its untransformed bounding size
/// times its scale.
pub open spec fn rect_size_spec(o: Object) -> Point {
    Point {
        x: fx_mul_spec(o.original_pixel_size.x as int, o.scale.x as int) as i64,
        y: fx_mul_spec(o.original_pixel_size.y as int, o.scale.y as int) as i64,
    }
}

/// The main-pass uniforms of an object, recomputed every frame from the
/// current drawable size.
pub open spec fn uniforms_spec(o: Object, w: i64, h: i64) -> Uniforms {
    Uniforms {
        rect_position: o.position,
        rect_size: rect_size_spec(o),
        corner_radius: o.corner_radius,
        model_matrix: model_matrix_spec(
            o.position.x,
            o.position.y,
            fx_cos_spec(o.rotation as int),
            fx_sin_spec(o.rotation as int),
            o.scale.x,
            o.scale.y,
        ),
        projection_matrix: ortho_matrix_spec(w, h),
        use_texture: if o.use_texture {
            1
        } else {
            0
        },
        shadow_radius: o.shadow_radius,
        shadow_color: o.shadow_color,
    }
}

/// The shadow-pass uniforms of an object: as the main pass, but with the
/// position (and so the model matrix's translation column) shifted by the
/// shadow offset, no texture, and no nested shadow parameters.
pub open spec fn shadow_position_uniforms_spec(o: Object, w: i64, h: i64) -> Uniforms {
    Uniforms {
        rect_position: Point {
            x: (o.position.x + o.shadow_offset.x) as i64,
            y: (o.position.y + o.shadow_offset.y) as i64,
        },
        rect_size: rect_size_spec(o),
        corner_radius: o.corner_radius,
        model_matrix: model_matrix_spec(
            (o.position.x + o.shadow_offset.x) as i64,
            (o.position.y + o.shadow_offset.y) as i64,
            fx_cos_spec(o.rotation as int),
            fx_sin_spec(o.rotation as int),
            o.scale.x,
            o.scale.y,
        ),
        projection_matrix: ortho_matrix_spec(w, h),
        use_texture: 0,
        shadow_radius: 0,
        shadow_color: Color { r: 0, g: 0, b: 0, a: 0 },
    }
}

/// The enabled shadow-stage constants of an object.
pub open spec fn shadow_uniforms_enabled_spec(o: Object) -> ShadowUniforms {
    ShadowUniforms {
        offset_x: o.shadow_offset.x,
        offset_y: o.shadow_offset.y,
        radius: o.shadow_radius,
        color: o.shadow_color,
        enabled: 1,
    }
}

/// The disabled shadow-stage constants.
pub open spec fn shadow_uniforms_disabled_spec() -> ShadowUniforms {
    ShadowUniforms { offset_x: 0, offset_y: 0, radius: 0, color: Color { r: 0, g: 0, b: 0, a: 0 }, enabled: 0 }
}

impl Object {
    /// Derives this frame's main-pass uniforms.
    pub fn make_uniforms(&self, drawable_width: i64, drawable_height: i64) -> (r: Uniforms)
        requires
            self.fields_ok(),
            0 < drawable_width <= FX_MAX,
            0 < drawable_height <= FX_MAX,
        ensures
            r == uniforms_spec(*self, drawable_width, drawable_height),
    {
        proof {
            lemma_mul_bound(
                self.original_pixel_size.x as int,
                self.scale.x as int,
                FX_MAX as int,
                FX_MAX as int,
            );
            lemma_mul_bound(
                self.original_pixel_size.y as int,
                self.scale.y as int,
                FX_MAX as int,
                FX_MAX as int,
            );
        }
        let rect_size = Point {
            x: fx_mul(self.original_pixel_size.x, self.scale.x),
            y: fx_mul(self.original_pixel_size.y, self.scale.y),
        };
        Uniforms {
            rect_position: self.position,
            rect_size,
            corner_radius: self.corner_radius,
            model_matrix: model_matrix(
                self.position.x,
                self.position.y,
                self.rotation,
                self.scale.x,
                self.scale.y,
            ),
            projection_matrix: ortho_matrix(drawable_width, drawable_height),
            use_texture: if self.use_texture {
                1
            } else {
                0
            },
            shadow_radius: self.shadow_radius,
            shadow_color: self.shadow_color,
        }
    }

    /// Derives this frame's shadow-pass uniforms: the main transform with
    /// the translation shifted by the shadow offset.
    pub fn make_shadow_position_uniforms(&self, drawable_width: i64, drawable_height: i64) -> (r:
        Uniforms)
        requires
            self.fields_ok(),
            0 < drawable_width <= FX_MAX,
            0 < drawable_height <= FX_MAX,
        ensures
            r == shadow_position_uniforms_spec(*self, drawable_width, drawable_height),
    {
        proof {
            lemma_mul_bound(
                self.original_pixel_size.x as int,
                self.scale.x as int,
                FX_MAX as int,
                FX_MAX as int,
            );
            lemma_mul_bound(
                self.original_pixel_size.y as int,
                self.scale.y as int,
                FX_MAX as int,
                FX_MAX as int,
            );
        }
        let shadow_x: i64 = self.position.x + self.shadow_offset.x;
        let shadow_y: i64 = self.position.y + self.shadow_offset.y;
        let rect_size = Point {
            x: fx_mul(self.original_pixel_size.x, self.scale.x),
            y: fx_mul(self.original_pixel_size.y, self.scale.y),
        };
        Uniforms {
            rect_position: Point { x: shadow_x, y: shadow_y },
            rect_size,
            corner_radius: self.corner_radius,
            model_matrix: model_matrix(
                shadow_x,
                shadow_y,
                self.rotation,
                self.scale.x,
                self.scale.y,
            ),
            projection_matrix: ortho_matrix(drawable_width, drawable_height),
            use_texture: 0,
            shadow_radius: 0,
            shadow_color: Color { r: 0, g: 0, b: 0, a: 0 },
        }
    }

    /// Derives the shadow-pass uniforms for the shadow-expanded quad: the
    /// same shifted transform, keeping the original rectangle size for
    /// the SDF.
    pub fn make_shadow_position_uniforms_expanded(
        &self,
        drawable_width: i64,
        drawable_height: i64,
    ) -> (r: Uniforms)
        requires
            self.fields_ok(),
            0 < drawable_width <= FX_MAX,
            0 < drawable_height <= FX_MAX,
        ensures
            r == shadow_position_uniforms_spec(*self, drawable_width, drawable_height),
    {
        self.make_shadow_position_uniforms(drawable_width, drawable_height)
    }

    /// The shadow-stage constants with the shadow variant enabled.
    pub fn make_shadow_uniforms_enabled(&self) -> (r: ShadowUniforms)
        ensures
            r == shadow_uniforms_enabled_spec(*self),
            r.enabled == 1,
    {
        ShadowUniforms {
            offset_x: self.shadow_offset.x,
            offset_y: self.shadow_offset.y,
            radius: self.shadow_radius,
            color: self.shadow_color,
            enabled: 1,
        }
    }

    /// The shadow-stage constants with the shadow variant disabled.
    pub fn make_shadow_uniforms_disabled(&self) -> (r: ShadowUniforms)
        ensures
            r == shadow_uniforms_disabled_spec(),
            r.enabled == 0,
    {
        ShadowUniforms {
            offset_x: 0,
            offset_y: 0,
            radius: 0,
            color: Color { r: 0, g: 0, b: 0, a: 0 },
            enabled: 0,
        }
    }
}

/// The shadow pass draws with the model matrix of the main pass shifted
/// by exactly the shadow offset in the translation column, everything
/// else equal, and with the shadow variant enabled.
pub proof fn lemma_shadow_pass_translated_by_offset(o: Object, w: i64, h: i64)
    ensures
        shadow_position_uniforms_spec(o, w, h).model_matrix == (Mat4 {
            m03: (o.position.x + o.shadow_offset.x) as i64,
            m13: (o.position.y + o.shadow_offset.y) as i64,
            ..uniforms_spec(o, w, h).model_matrix
        }),
        shadow_uniforms_enabled_spec(o).enabled == 1,
        shadow_uniforms_disabled_spec().enabled == 0,
{
}

/// One draw call of a frame plan: which object to bind, and the constants
/// for both shader stages.  The object's main vertex and index buffers
/// are bound for both passes (the shadow pass reuses the main mesh with
/// the shifted transform).
#[derive(Debug, Clone, Copy, PartialEq, Eq, Structural)]
pub struct DrawCall {
    /// The index of the object (in the renderer's list) whose buffers to
    /// bind.
    pub object_index: usize,
    /// The per-draw constants.
    pub uniforms: Uniforms,
    /// The shadow-stage constants.
    pub shadow_uniforms: ShadowUniforms,
}

/// A frame: the clear color, then every shadow-pass draw, then every
/// main-pass draw, in submission order.
#[derive(Debug, Clone, PartialEq, Eq)]
pub struct FramePlan {
    /// The color the target is cleared to.
    pub background_color: Color,
    /// The shadow pass: one draw per object with its shadow on, in list
    /// order.
    pub shadow_draws: Vec<DrawCall>,
    /// The main pass: one draw per object, in list order.
    pub main_draws: Vec<DrawCall>,
}

/// The shadow pass of a frame: the objects with shadows on, in order,
/// each drawn with the shifted transform and the shadow variant enabled.
pub open spec fn shadow_draws_spec(objs: Seq<Object>, w: i64, h: i64) -> Seq<DrawCall>
    decreases objs.len(),
{
    if objs.len() == 0 {
        Seq::empty()
    } else {
        let pre = shadow_draws_spec(objs.drop_last(), w, h);
        if objs.last().shadow_on {
            pre.push(
                DrawCall {
                    object_index: (objs.len() - 1) as usize,
                    uniforms: shadow_position_uniforms_spec(objs.last(), w, h),
                    shadow_uniforms: shadow_uniforms_enabled_spec(objs.last()),
                },
            )
        } else {
            pre
        }
    }
}

/// The main pass of a frame: every object, in order, with the shadow
/// variant disabled.
pub open spec fn main_draws_spec(objs: Seq<Object>, w: i64, h: i64) -> Seq<DrawCall> {
    Seq::new(
        objs.len(),
        |i: int|
            DrawCall {
                object_index: i as usize,
                uniforms: uniforms_spec(objs[i], w, h),
                shadow_uniforms: shadow_uniforms_disabled_spec(),
            },
    )
}

/// The renderer: the object list, the drawable size, and the offscreen
/// target sizes it keeps in step with the drawable.
#[derive(Debug)]
pub struct Renderer {
    /// The retained objects, in insertion order.
    pub objects: Vec<Object>,
    /// The drawable width in fixed-point pixels.
    pub drawable_width: i64,
    /// The drawable height in fixed-point pixels.
    pub drawable_height: i64,
    /// The clear color.
    pub background_color: Color,
    /// The multisample color target's size (recreated on resize).
    pub msaa_width: i64,
    /// The multisample color target's height.
    pub msaa_height: i64,
    /// The depth target's size (recreated every frame to match the
    /// drawable).
    pub depth_width: i64,
    /// The depth target's height.
    pub depth_height: i64,
}

impl Renderer {
    /// Every object's transform fields in range, and a positive in-range
    /// drawable.
    pub open spec fn wf(self) -> bool {
        &&& forall|i: int| 0 <= i < self.objects@.len() ==> self.objects@[i].fields_ok()
        &&& 0 < self.drawable_width <= FX_MAX
        &&& 0 < self.drawable_height <= FX_MAX
    }

    /// Creates a renderer for a drawable of the given size, with empty
    /// object list and all targets matching the drawable.
    pub fn new(width: i64, height: i64, background_color: Color) -> (r: Renderer)
        requires
            0 < width <= FX_MAX,
            0 < height <= FX_MAX,
        ensures
            r.objects@ == Seq::<Object>::empty(),
            r.drawable_width == width,
            r.drawable_height == height,
            r.background_color == background_color,
            r.msaa_width == width,
            r.msaa_height == height,
            r.depth_width == width,
            r.depth_height == height,
            r.wf(),
    {
        Renderer {
            objects: Vec::new(),
            drawable_width: width,
            drawable_height: height,
            background_color,
            msaa_width: width,
            msaa_height: height,
            depth_width: width,
            depth_height: height,
        }
    }

    /// Appends an object to the draw list.
    pub fn add_object(&mut self, object: Object)
        requires
            object.fields_ok(),
        ensures
            final(self).objects@ == old(self).objects@.push(object),
            *final(self) == (Renderer { objects: final(self).objects, ..*old(self) }),
            old(self).wf() ==> final(self).wf(),
    {
        self.objects.push(object);
    }

    /// Clears the draw list.
    pub fn clear(&mut self)
        ensures
            final(self).objects@ == Seq::<Object>::empty(),
            *final(self) == (Renderer { objects: final(self).objects, ..*old(self) }),
            old(self).wf() ==> final(self).wf(),
    {
        self.objects.clear();
    }

    /// Sets the clear color.
    pub fn set_background_color(&mut self, background_color: Color)
        ensures
            *final(self) == (Renderer { background_color, ..*old(self) }),
    {
        self.background_color = background_color;
    }

    /// Resizes the drawable and recreates the multisample and depth
    /// targets to match: afterwards the drawable size is exactly the
    /// requested size.
    pub fn resize(&mut self, width: i64, height: i64)
        requires
            0 < width <= FX_MAX,
            0 < height <= FX_MAX,
        ensures
            *final(self) == (Renderer {
                drawable_width: width,
                drawable_height: height,
                msaa_width: width,
                msaa_height: height,
                depth_width: width,
                depth_height: height,
                ..*old(self)
            }),
            final(self).drawable_width == width,
            final(self).drawable_height == height,
            old(self).wf() ==> final(self).wf(),
    {
        self.drawable_width = width;
        self.drawable_height = height;
        self.msaa_width = width;
        self.msaa_height = height;
        self.depth_width = width;
        self.depth_height = height;
    }

    /// Returns the current drawable size.
    pub fn drawable_size(&self) -> (r: (i64, i64))
        ensures
            r.0 == self.drawable_width,
            r.1 == self.drawable_height,
    {
        (self.drawable_width, self.drawable_height)
    }

    /// Plans one frame: reallocates the depth target to the drawable's
    /// current size, then derives the shadow pass (each shadowed object,
    /// in list order, with `enabled == 1` and the offset translation) and
    /// the main pass (every object, in list order, with `enabled == 0`).
    /// The object list itself is untouched; draws reference it by index.
    pub fn render(&mut self) -> (r: FramePlan)
        requires
            old(self).wf(),
        ensures
            *final(self) == (Renderer {
                depth_width: old(self).drawable_width,
                depth_height: old(self).drawable_height,
                ..*old(self)
            }),
            final(self).wf(),
            r.background_color == old(self).background_color,
            r.shadow_draws@ == shadow_draws_spec(
                old(self).objects@,
                old(self).drawable_width,
                old(self).drawable_height,
            ),
            r.main_draws@ == main_draws_spec(
                old(self).objects@,
                old(self).drawable_width,
                old(self).drawable_height,
            ),
    {
        let w: i64 = self.drawable_width;
        let h: i64 = self.drawable_height;
        self.depth_width = w;
        self.depth_height = h;

        let ghost objs = self.objects@;
        let mut shadow_draws: Vec<DrawCall> = Vec::new();
        let mut i: usize = 0;
        while i < self.objects.len()
            invariant
                self.wf(),
                objs == self.objects@,
                0 < w <= FX_MAX,
                0 < h <= FX_MAX,
                0 <= i <= objs.len(),
                shadow_draws@ == shadow_draws_spec(objs.subrange(0, i as int), w, h),
            decreases self.objects@.len() - i,
        {
            let o = &self.objects[i];
            if o.shadow_on {
                let call = DrawCall {
                    object_index: i,
                    uniforms: o.make_shadow_position_uniforms(w, h),
                    shadow_uniforms: o.make_shadow_uniforms_enabled(),
                };
                shadow_draws.push(call);
            }
            i = i + 1;
            proof {
                let pre = objs.subrange(0, i as int - 1);
                let cur = objs.subrange(0, i as int);
                assert(cur.drop_last() =~= pre);
                assert(cur.last() == objs[i as int - 1]);
            }
        }
        proof {
            assert(objs.subrange(0, objs.len() as int) =~= objs);
        }

        let mut main_draws: Vec<DrawCall> = Vec::new();
        let mut i: usize = 0;
        while i < self.objects.len()
            invariant
                self.wf(),
                objs == self.objects@,
                0 < w <= FX_MAX,
                0 < h <= FX_MAX,
                0 <= i <= objs.len(),
                main_draws@ == main_draws_spec(objs, w, h).subrange(0, i as int),
            decreases self.objects@.len() - i,
        {
            let o = &self.objects[i];
            let call = DrawCall {
                object_index: i,
                uniforms: o.make_uniforms(w, h),
                shadow_uniforms: o.make_shadow_uniforms_disabled(),
            };
            main_draws.push(call);
            i = i + 1;
            proof {
                assert(main_draws@ =~= main_draws_spec(objs, w, h).subrange(0, i as int));
            }
        }
        proof {
            assert(main_draws@ =~= main_draws_spec(objs, w, h));
        }

        FramePlan { background_color: self.background_color, shadow_draws, main_draws }
    }
}

} // verus!

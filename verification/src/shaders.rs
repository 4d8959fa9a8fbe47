//! The shader-equivalent math: what the vertex and fragment stages
//! compute for each fragment, as exact fixed-point functions.
//!
//! The fragment stage clips rounded corners with a signed distance field
//! and shades shadows by a smoothstep falloff of the same field (the
//! crate's shadow kernel: full opacity inside the shape, a smooth ramp
//! from `-blur` to `+blur` around the edge, zero beyond).

use vstd::prelude::*;

verus! {

use crate::fixed::{
    fx_ok, fx_mul, fx_mul_spec, fx_div, fx_div_spec, sqrt_floor, isqrt_u128,
    lemma_sqrt_floor_bounds, lemma_fx_div_unit, lemma_fx_mul_unit_interval,
    lemma_fx_mul_coef_coord, lemma_mul_bound, lemma_fx_mul_spec_bound, lemma_fx_mul_spec_units,
    FX_ONE, FX_MAX,
};
use crate::object::curve::Point;
use crate::object::primitives::Color;
use crate::renderer::{ShadowUniforms, Uniforms};

/// The depth handed to the rasterizer: the z-index over 50, placing the
/// usable layering range inside the depth range.
pub open spec fn vertex_depth_spec(z_index: int) -> int {
    fx_div_spec(z_index, 3276800)
}

/// Computes the rasterizer depth of a vertex.
pub fn vertex_depth(z_index: i64) -> (r: i64)
    requires
        -0x4000_0000_0000 <= z_index <= 0x4000_0000_0000,
    ensures
        r == vertex_depth_spec(z_index as int),
{
    fx_div(z_index, 3276800)
}

/// The rounded-rectangle signed distance:
/// `length(max(|p| - half + r, 0)) + min(max(dx, dy), 0) - r`,
/// negative inside the rounded rectangle, positive outside.
pub open spec fn rounded_rect_sdf_spec(lx: int, ly: int, hw: int, hh: int, r: int) -> int {
    let dx = vstd::math::abs(lx) - hw + r;
    let dy = vstd::math::abs(ly) - hh + r;
    let mx = if dx > 0 {
        dx
    } else {
        0
    };
    let my = if dy > 0 {
        dy
    } else {
        0
    };
    let inner = if dx > dy {
        dx
    } else {
        dy
    };
    let len = sqrt_floor((mx * mx + my * my) as nat) as int;
    len + (if inner < 0 {
        inner
    } else {
        0
    }) - r
}

/// Computes the rounded-rectangle signed distance.
pub fn rounded_rect_sdf(lx: i64, ly: i64, hw: i64, hh: i64, r: i64) -> (d: i64)
    requires
        -0x4000_0000_0000 <= lx <= 0x4000_0000_0000,
        -0x4000_0000_0000 <= ly <= 0x4000_0000_0000,
        -0x4000_0000_0000 <= hw <= 0x4000_0000_0000,
        -0x4000_0000_0000 <= hh <= 0x4000_0000_0000,
        fx_ok(r as int),
    ensures
        d == rounded_rect_sdf_spec(lx as int, ly as int, hw as int, hh as int, r as int),
{
    let ax: i64 = if lx < 0 {
        -lx
    } else {
        lx
    };
    let ay: i64 = if ly < 0 {
        -ly
    } else {
        ly
    };
    let dx: i64 = ax - hw + r;
    let dy: i64 = ay - hh + r;
    let mx: i64 = if dx > 0 {
        dx
    } else {
        0
    };
    let my: i64 = if dy > 0 {
        dy
    } else {
        0
    };
    let inner: i64 = if dx > dy {
        dx
    } else {
        dy
    };
    proof {
        assert((mx as u128) * (mx as u128) <= 0x3_0000_4000_0000u128 * 0x3_0000_4000_0000)
            by (nonlinear_arith)
            requires
                0 <= (mx as u128) <= 0x3_0000_4000_0000u128,
        ;
        assert((my as u128) * (my as u128) <= 0x3_0000_4000_0000u128 * 0x3_0000_4000_0000)
            by (nonlinear_arith)
            requires
                0 <= (my as u128) <= 0x3_0000_4000_0000u128,
        ;
    }
    let lsq: u128 = (mx as u128) * (mx as u128) + (my as u128) * (my as u128);
    let len_u: u128 = isqrt_u128(lsq);
    proof {
        lemma_sqrt_floor_bounds(lsq as nat);
        assert(len_u <= 0x6_0000_8000_0000) by {
            if len_u > 0x6_0000_8000_0000 {
                assert((len_u as int) * (len_u as int) > 0x6_0000_8000_0000int
                    * 0x6_0000_8000_0000) by (nonlinear_arith)
                    requires
                        len_u > 0x6_0000_8000_0000,
                ;
            }
        }
    }
    let len: i64 = len_u as i64;
    len + (if inner < 0 {
        inner
    } else {
        0
    }) - r
}

/// The smoothstep ramp from `e0` to `e1`, clamped to the unit interval:
/// 0 at or below `e0`, 1 at or above `e1`, and `t^2 (3 - 2t)` of the
/// normalized position in between.
pub open spec fn smoothstep_spec(e0: int, e1: int, x: int) -> int {
    if x <= e0 {
        0
    } else if x >= e1 {
        FX_ONE as int
    } else {
        let t = fx_div_spec(x - e0, e1 - e0);
        let s = fx_mul_spec(fx_mul_spec(t, t), 3 * FX_ONE - 2 * t);
        if s < 0 {
            0
        } else if s > FX_ONE {
            FX_ONE as int
        } else {
            s
        }
    }
}

/// Computes the clamped smoothstep ramp.
pub fn smoothstep(e0: i64, e1: i64, x: i64) -> (r: i64)
    requires
        e0 <= e1,
        -0x2000_0000_0000 <= e0 <= 0x2000_0000_0000,
        -0x2000_0000_0000 <= e1 <= 0x2000_0000_0000,
    ensures
        r == smoothstep_spec(e0 as int, e1 as int, x as int),
        0 <= r <= FX_ONE,
{
    if x <= e0 {
        0
    } else if x >= e1 {
        65536
    } else {
        proof {
            lemma_fx_div_unit(x as int - e0 as int, e1 as int - e0 as int);
        }
        let t: i64 = fx_div(x - e0, e1 - e0);
        proof {
            vstd::arithmetic::div_mod::lemma_div_pos_is_pos(
                (x as int - e0 as int) * FX_ONE,
                e1 as int - e0 as int,
            );
            lemma_fx_mul_unit_interval(t as int, t as int);
            lemma_fx_mul_coef_coord(fx_mul_spec(t as int, t as int), 3 * 65536 - 2 * (t as int), 65536, 196608);
            assert((65536int * 196608) / 65536 == 196608);
        }
        let tt: i64 = fx_mul(t, t);
        let s: i64 = fx_mul(tt, 3 * 65536 - 2 * t);
        if s < 0 {
            0
        } else if s > 65536 {
            65536
        } else {
            s
        }
    }
}

/// The shadow alpha at a fragment: the UV mapped to coordinates local to
/// the rectangle's center, the rounded-rectangle distance taken there,
/// and the crate's shadow kernel applied: `1 - smoothstep(-blur, blur, d)`.
pub open spec fn shadow_alpha_spec(
    uv: Point,
    rect_w: int,
    rect_h: int,
    corner_radius: int,
    blur: int,
) -> int {
    let lx = fx_mul_spec(uv.x - 32768, rect_w);
    let ly = fx_mul_spec(uv.y - 32768, rect_h);
    let hw = fx_mul_spec(rect_w, 32768);
    let hh = fx_mul_spec(rect_h, 32768);
    let d = rounded_rect_sdf_spec(lx, ly, hw, hh, corner_radius);
    FX_ONE - smoothstep_spec(-blur, blur, d)
}

/// Computes the shadow alpha at a fragment.
pub fn calculate_shadow(uv: Point, rect_w: i64, rect_h: i64, corner_radius: i64, blur: i64) -> (r:
    i64)
    requires
        -131072 <= uv.x <= 131072,
        -131072 <= uv.y <= 131072,
        -0x1000_0000_0000 <= rect_w <= 0x1000_0000_0000,
        -0x1000_0000_0000 <= rect_h <= 0x1000_0000_0000,
        fx_ok(corner_radius as int),
        0 <= blur <= FX_MAX,
    ensures
        r == shadow_alpha_spec(uv, rect_w as int, rect_h as int, corner_radius as int, blur as int),
        0 <= r <= FX_ONE,
{
    proof {
        lemma_mul_bound(uv.x - 32768, rect_w as int, 163840, 0x1000_0000_0000);
        lemma_mul_bound(uv.y - 32768, rect_h as int, 163840, 0x1000_0000_0000);
        lemma_fx_mul_spec_bound(uv.x - 32768, rect_w as int, 163840int * 0x1000_0000_0000);
        lemma_fx_mul_spec_bound(uv.y - 32768, rect_h as int, 163840int * 0x1000_0000_0000);
        lemma_mul_bound(rect_w as int, 32768, 0x1000_0000_0000, 32768);
        lemma_mul_bound(rect_h as int, 32768, 0x1000_0000_0000, 32768);
        lemma_fx_mul_spec_bound(rect_w as int, 32768, 0x1000_0000_0000int * 32768);
        lemma_fx_mul_spec_bound(rect_h as int, 32768, 0x1000_0000_0000int * 32768);
    }
    let lx: i64 = fx_mul(uv.x - 32768, rect_w);
    let ly: i64 = fx_mul(uv.y - 32768, rect_h);
    let hw: i64 = fx_mul(rect_w, 32768);
    let hh: i64 = fx_mul(rect_h, 32768);
    let d: i64 = rounded_rect_sdf(lx, ly, hw, hh, corner_radius);
    let s: i64 = smoothstep(-blur, blur, d);
    65536 - s
}

/// What the fragment stage returns for a fragment: its color, or nothing
/// when the fragment is discarded.
///
/// In the shadow pass (`enabled == 1`) the shadow alpha scales the shadow
/// color's alpha, and an alpha of one percent or less discards the
/// fragment.  In the main pass the base color is the texture sample when
/// texture sampling is on and a sample exists, else the vertex color;
/// with a positive corner radius, fragments outside the rounded
/// rectangle are discarded and the edge is antialiased by the same ramp.
pub open spec fn fragment_color_spec(
    u: Uniforms,
    s: ShadowUniforms,
    uv: Point,
    vertex_color: Color,
    texture_color: Option<Color>,
) -> Option<Color> {
    if s.enabled == 1 {
        let alpha = shadow_alpha_spec(
            uv,
            u.rect_size.x as int,
            u.rect_size.y as int,
            u.corner_radius as int,
            s.radius as int,
        );
        if alpha <= 655 {
            None
        } else {
            Some(
                Color {
                    r: s.color.r,
                    g: s.color.g,
                    b: s.color.b,
                    a: fx_mul_spec(s.color.a as int, alpha) as i64,
                },
            )
        }
    } else {
        let base = if u.use_texture == 1 && texture_color is Some {
            texture_color->Some_0
        } else {
            vertex_color
        };
        if u.corner_radius > 0 {
            let lx = fx_mul_spec(uv.x - 32768, u.rect_size.x as int);
            let ly = fx_mul_spec(uv.y - 32768, u.rect_size.y as int);
            let hw = fx_mul_spec(u.rect_size.x as int, 32768);
            let hh = fx_mul_spec(u.rect_size.y as int, 32768);
            let d = rounded_rect_sdf_spec(lx, ly, hw, hh, u.corner_radius as int);
            if d > 0 {
                None
            } else {
                let aa = FX_ONE - smoothstep_spec(-(FX_ONE as int), FX_ONE as int, d);
                Some(
                    Color {
                        r: base.r,
                        g: base.g,
                        b: base.b,
                        a: fx_mul_spec(base.a as int, aa) as i64,
                    },
                )
            }
        } else {
            Some(base)
        }
    }
}

/// Computes the fragment stage's output for one fragment.
pub fn fragment_color(
    u: &Uniforms,
    s: &ShadowUniforms,
    uv: Point,
    vertex_color: Color,
    texture_color: Option<Color>,
) -> (r: Option<Color>)
    requires
        -131072 <= uv.x <= 131072,
        -131072 <= uv.y <= 131072,
        -0x1000_0000_0000 <= u.rect_size.x <= 0x1000_0000_0000,
        -0x1000_0000_0000 <= u.rect_size.y <= 0x1000_0000_0000,
        fx_ok(u.corner_radius as int),
        0 <= s.radius <= FX_MAX,
        s.color.wf(),
        vertex_color.wf(),
        texture_color matches Some(t) ==> t.wf(),
    ensures
        r == fragment_color_spec(*u, *s, uv, vertex_color, texture_color),
{
    if s.enabled == 1 {
        let alpha: i64 = calculate_shadow(
            uv,
            u.rect_size.x,
            u.rect_size.y,
            u.corner_radius,
            s.radius,
        );
        if alpha <= 655 {
            None
        } else {
            proof {
                lemma_fx_mul_coef_coord(s.color.a as int, alpha as int, FX_MAX as int, 65536);
                assert(((FX_MAX as int) * 65536) / 65536 == FX_MAX);
            }
            Some(
                Color {
                    r: s.color.r,
                    g: s.color.g,
                    b: s.color.b,
                    a: fx_mul(s.color.a, alpha),
                },
            )
        }
    } else {
        let base: Color = if u.use_texture == 1 {
            match texture_color {
                Some(t) => t,
                None => vertex_color,
            }
        } else {
            vertex_color
        };
        if u.corner_radius > 0 {
            proof {
                lemma_mul_bound(uv.x - 32768, u.rect_size.x as int, 163840, 0x1000_0000_0000);
                lemma_mul_bound(uv.y - 32768, u.rect_size.y as int, 163840, 0x1000_0000_0000);
                lemma_fx_mul_spec_bound(
                    uv.x - 32768,
                    u.rect_size.x as int,
                    163840int * 0x1000_0000_0000,
                );
                lemma_fx_mul_spec_bound(
                    uv.y - 32768,
                    u.rect_size.y as int,
                    163840int * 0x1000_0000_0000,
                );
                lemma_mul_bound(u.rect_size.x as int, 32768, 0x1000_0000_0000, 32768);
                lemma_mul_bound(u.rect_size.y as int, 32768, 0x1000_0000_0000, 32768);
                lemma_fx_mul_spec_bound(u.rect_size.x as int, 32768, 0x1000_0000_0000int * 32768);
                lemma_fx_mul_spec_bound(u.rect_size.y as int, 32768, 0x1000_0000_0000int * 32768);
            }
            let lx: i64 = fx_mul(uv.x - 32768, u.rect_size.x);
            let ly: i64 = fx_mul(uv.y - 32768, u.rect_size.y);
            let hw: i64 = fx_mul(u.rect_size.x, 32768);
            let hh: i64 = fx_mul(u.rect_size.y, 32768);
            let d: i64 = rounded_rect_sdf(lx, ly, hw, hh, u.corner_radius);
            if d > 0 {
                None
            } else {
                let aa: i64 = 65536 - smoothstep(-65536, 65536, d);
                proof {
                    lemma_fx_mul_coef_coord(base.a as int, aa as int, FX_MAX as int, 65536);
                    assert(((FX_MAX as int) * 65536) / 65536 == FX_MAX);
                }
                Some(Color { r: base.r, g: base.g, b: base.b, a: fx_mul(base.a, aa) })
            }
        } else {
            Some(base)
        }
    }
}

/// With corner radius zero the main pass never discards and never touches
/// the color: the fragment stage returns the base color unchanged for
/// every fragment, so a quad and a rounded quad of radius zero draw
/// identically.
pub proof fn lemma_zero_radius_never_discards(
    u: Uniforms,
    s: ShadowUniforms,
    uv: Point,
    vertex_color: Color,
    texture_color: Option<Color>,
)
    requires
        s.enabled != 1,
        u.corner_radius == 0,
    ensures
        fragment_color_spec(u, s, uv, vertex_color, texture_color) == Some(
            if u.use_texture == 1 && texture_color is Some {
                texture_color->Some_0
            } else {
                vertex_color
            },
        ),
{
}

/// With a positive corner radius the main pass discards exactly the
/// fragments strictly outside the rounded rectangle, and any fragment at
/// least one pixel inside it keeps its full alpha.
pub proof fn lemma_corner_clipping(
    u: Uniforms,
    s: ShadowUniforms,
    uv: Point,
    vertex_color: Color,
    texture_color: Option<Color>,
)
    requires
        s.enabled != 1,
        u.corner_radius > 0,
        fx_ok(vertex_color.a as int),
        texture_color matches Some(t) ==> fx_ok(t.a as int),
    ensures
        ({
            let lx = fx_mul_spec(uv.x - 32768, u.rect_size.x as int);
            let ly = fx_mul_spec(uv.y - 32768, u.rect_size.y as int);
            let hw = fx_mul_spec(u.rect_size.x as int, 32768);
            let hh = fx_mul_spec(u.rect_size.y as int, 32768);
            let d = rounded_rect_sdf_spec(lx, ly, hw, hh, u.corner_radius as int);
            let base = if u.use_texture == 1 && texture_color is Some {
                texture_color->Some_0
            } else {
                vertex_color
            };
            &&& (d > 0 ==> fragment_color_spec(u, s, uv, vertex_color, texture_color) is None)
            &&& (d <= -FX_ONE ==> fragment_color_spec(u, s, uv, vertex_color, texture_color)
                == Some(base))
        }),
{
    let lx = fx_mul_spec(uv.x - 32768, u.rect_size.x as int);
    let ly = fx_mul_spec(uv.y - 32768, u.rect_size.y as int);
    let hw = fx_mul_spec(u.rect_size.x as int, 32768);
    let hh = fx_mul_spec(u.rect_size.y as int, 32768);
    let d = rounded_rect_sdf_spec(lx, ly, hw, hh, u.corner_radius as int);
    if d <= -FX_ONE {
        assert(smoothstep_spec(-(FX_ONE as int), FX_ONE as int, d) == 0);
        let base = if u.use_texture == 1 && texture_color is Some {
            texture_color->Some_0
        } else {
            vertex_color
        };
        lemma_fx_mul_spec_units(base.a as int);
    }
}

} // verus!

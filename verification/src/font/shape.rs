//! Shaped glyph geometry and its transforms.
//!
//! The platform layer shapes text and tessellates glyph outlines into a
//! flat vertex and index buffer in font units; this module is what the
//! core then does with it: measure it, scale it to pixels, flip it onto
//! the canvas's top-left origin, normalize it, and underline it.

use vstd::prelude::*;

verus! {

use crate::fixed::{
    fx_ok, fx_mul, fx_mul_spec, fx_div, fx_div_spec, lemma_mul_bound, lemma_fx_mul_spec_bound,
    FX_ONE, FX_MAX,
};
use crate::font::style::TextStyle;
use crate::object::primitives::{Position, Size};

/// One glyph-mesh vertex: a bare 2D position.
#[derive(Debug, Clone, Copy, PartialEq, Eq, Structural)]
pub struct TextVertex {
    /// The x coordinate.
    pub x: i64,
    /// The y coordinate.
    pub y: i64,
}

/// A shaped text mesh: vertices and triangle indices.
#[derive(Debug, Clone, PartialEq, Eq)]
pub struct TextGeometry {
    /// The vertices of the text geometry.
    pub vertices: Vec<TextVertex>,
    /// The indices of the vertices for indexed rendering.
    pub indices: Vec<u16>,
}

/// How to place text on a canvas: the pixel size, the position, the
/// canvas extent and the style.
#[derive(Debug, Clone, Copy, PartialEq, Eq, Structural)]
pub struct TextTransform {
    /// The desired font size in pixels.
    pub font_size: i64,
    /// The position in pixels.
    pub position: Position,
    /// The canvas size in pixels.
    pub canvas_size: Size,
    /// The text styling properties.
    pub style: TextStyle,
}

/// The bounding box of a vertex list as `(min x, min y, max x, max y)`;
/// all zero for an empty list.
pub open spec fn bbox_spec(vs: Seq<TextVertex>) -> (int, int, int, int)
    decreases vs.len(),
{
    if vs.len() == 0 {
        (0int, 0int, 0int, 0int)
    } else if vs.len() == 1 {
        (vs[0].x as int, vs[0].y as int, vs[0].x as int, vs[0].y as int)
    } else {
        let p = bbox_spec(vs.drop_last());
        let v = vs.last();
        (
            if p.0 <= v.x {
                p.0
            } else {
                v.x as int
            },
            if p.1 <= v.y {
                p.1
            } else {
                v.y as int
            },
            if p.2 >= v.x {
                p.2
            } else {
                v.x as int
            },
            if p.3 >= v.y {
                p.3
            } else {
                v.y as int
            },
        )
    }
}

/// Every vertex coordinate in the given range bounds the bounding box.
pub proof fn lemma_bbox_within(vs: Seq<TextVertex>, bound: int)
    requires
        0 <= bound,
        forall|i: int| 0 <= i < vs.len() ==> -bound <= #[trigger] vs[i].x <= bound && -bound
            <= vs[i].y <= bound,
    ensures
        -bound <= bbox_spec(vs).0 <= bound,
        -bound <= bbox_spec(vs).1 <= bound,
        -bound <= bbox_spec(vs).2 <= bound,
        -bound <= bbox_spec(vs).3 <= bound,
    decreases vs.len(),
{
    if vs.len() <= 1 {
    } else {
        lemma_bbox_within(vs.drop_last(), bound);
    }
}

impl TextGeometry {
    /// All vertex coordinates are in the scalar range (font units fit
    /// comfortably).
    pub open spec fn coords_ok(self) -> bool {
        forall|i: int| 0 <= i < self.vertices@.len() ==> fx_ok(#[trigger] self.vertices@[i].x as int)
            && fx_ok(self.vertices@[i].y as int)
    }

    /// Measures the mesh: its axis-aligned bounding box as
    /// `(min x, min y, max x, max y)`, all zero when empty.
    pub fn bounding_box(&self) -> (r: (i64, i64, i64, i64))
        ensures
            r.0 == bbox_spec(self.vertices@).0,
            r.1 == bbox_spec(self.vertices@).1,
            r.2 == bbox_spec(self.vertices@).2,
            r.3 == bbox_spec(self.vertices@).3,
    {
        let n = self.vertices.len();
        if n == 0 {
            return (0, 0, 0, 0);
        }
        let first = self.vertices[0];
        let mut min_x: i64 = first.x;
        let mut min_y: i64 = first.y;
        let mut max_x: i64 = first.x;
        let mut max_y: i64 = first.y;
        let mut i: usize = 1;
        proof {
            assert(self.vertices@.subrange(0, 1).len() == 1);
        }
        while i < n
            invariant
                1 <= i <= n,
                n == self.vertices@.len(),
                min_x == bbox_spec(self.vertices@.subrange(0, i as int)).0,
                min_y == bbox_spec(self.vertices@.subrange(0, i as int)).1,
                max_x == bbox_spec(self.vertices@.subrange(0, i as int)).2,
                max_y == bbox_spec(self.vertices@.subrange(0, i as int)).3,
            decreases n - i,
        {
            let v = self.vertices[i];
            if v.x < min_x {
                min_x = v.x;
            }
            if v.y < min_y {
                min_y = v.y;
            }
            if v.x > max_x {
                max_x = v.x;
            }
            if v.y > max_y {
                max_y = v.y;
            }
            i = i + 1;
            proof {
                let cur = self.vertices@.subrange(0, i as int);
                assert(cur.drop_last() =~= self.vertices@.subrange(0, i as int - 1));
                assert(cur.last() == self.vertices@[i as int - 1]);
            }
        }
        proof {
            assert(self.vertices@.subrange(0, n as int) =~= self.vertices@);
        }
        (min_x, min_y, max_x, max_y)
    }

    /// Scales the mesh from font units to pixels (by
    /// `font_size / font_units_per_em`), shifts it so its left edge sits
    /// at zero, and flips it so y grows downward from the text's top.
    pub fn transform_to_canvas(&mut self, transform: TextTransform, font_units_per_em: i64)
        requires
            old(self).coords_ok(),
            0 <= transform.font_size <= FX_MAX,
            FX_ONE <= font_units_per_em,
        ensures
            final(self).indices == old(self).indices,
            final(self).vertices@.len() == old(self).vertices@.len(),
            ({
                let b = bbox_spec(old(self).vertices@);
                let scale = fx_div_spec(transform.font_size as int, font_units_per_em as int);
                forall|i: int| 0 <= i < old(self).vertices@.len()
                    ==> #[trigger] final(self).vertices@[i] == (TextVertex {
                    x: (fx_mul_spec(old(self).vertices@[i].x as int, scale) - fx_mul_spec(
                        b.0,
                        scale,
                    )) as i64,
                    y: (fx_mul_spec(b.3, scale) - fx_mul_spec(
                        old(self).vertices@[i].y as int,
                        scale,
                    )) as i64,
                })
            }),
    {
        let (min_x, _min_y, _max_x, max_y) = self.bounding_box();
        proof {
            lemma_bbox_within(self.vertices@, FX_MAX as int);
            vstd::arithmetic::div_mod::lemma_div_pos_is_pos(
                (transform.font_size as int) * FX_ONE,
                font_units_per_em as int,
            );
            vstd::arithmetic::div_mod::lemma_div_is_ordered_by_denominator(
                (transform.font_size as int) * FX_ONE,
                FX_ONE as int,
                font_units_per_em as int,
            );
            vstd::arithmetic::div_mod::lemma_div_by_multiple(
                transform.font_size as int,
                FX_ONE as int,
            );
        }
        let font_scale: i64 = fx_div(transform.font_size, font_units_per_em);
        proof {
            lemma_mul_bound(min_x as int, font_scale as int, FX_MAX as int, FX_MAX as int);
            lemma_mul_bound(max_y as int, font_scale as int, FX_MAX as int, FX_MAX as int);
            lemma_fx_mul_spec_bound(
                min_x as int,
                font_scale as int,
                (FX_MAX as int) * (FX_MAX as int),
            );
            lemma_fx_mul_spec_bound(
                max_y as int,
                font_scale as int,
                (FX_MAX as int) * (FX_MAX as int),
            );
        }
        let left: i64 = fx_mul(min_x, font_scale);
        let top: i64 = fx_mul(max_y, font_scale);

        let ghost pre = self.vertices@;
        let ghost b = bbox_spec(pre);
        let ghost scale = fx_div_spec(transform.font_size as int, font_units_per_em as int);
        let n = self.vertices.len();
        let mut out: Vec<TextVertex> = Vec::new();
        let mut i: usize = 0;
        while i < n
            invariant
                0 <= i <= n,
                n == self.vertices@.len(),
                self.vertices@ == pre,
                self.coords_ok(),
                b == bbox_spec(pre),
                scale == fx_div_spec(transform.font_size as int, font_units_per_em as int),
                0 <= font_scale <= FX_MAX,
                font_scale == scale,
                left == fx_mul_spec(b.0, scale),
                top == fx_mul_spec(b.3, scale),
                out@.len() == i,
                forall|k: int| 0 <= k < i ==> #[trigger] out@[k] == (TextVertex {
                    x: (fx_mul_spec(pre[k].x as int, scale) - fx_mul_spec(b.0, scale)) as i64,
                    y: (fx_mul_spec(b.3, scale) - fx_mul_spec(pre[k].y as int, scale)) as i64,
                }),
            decreases n - i,
        {
            let v = self.vertices[i];
            proof {
                lemma_bbox_within(pre, FX_MAX as int);
                lemma_mul_bound(v.x as int, font_scale as int, FX_MAX as int, FX_MAX as int);
                lemma_mul_bound(v.y as int, font_scale as int, FX_MAX as int, FX_MAX as int);
                lemma_mul_bound(b.0, font_scale as int, FX_MAX as int, FX_MAX as int);
                lemma_mul_bound(b.3, font_scale as int, FX_MAX as int, FX_MAX as int);
                lemma_fx_mul_spec_bound(
                    v.x as int,
                    font_scale as int,
                    (FX_MAX as int) * (FX_MAX as int),
                );
                lemma_fx_mul_spec_bound(
                    v.y as int,
                    font_scale as int,
                    (FX_MAX as int) * (FX_MAX as int),
                );
                lemma_fx_mul_spec_bound(
                    b.0,
                    font_scale as int,
                    (FX_MAX as int) * (FX_MAX as int),
                );
                lemma_fx_mul_spec_bound(
                    b.3,
                    font_scale as int,
                    (FX_MAX as int) * (FX_MAX as int),
                );
            }
            let pixel_x: i64 = fx_mul(v.x, font_scale);
            let pixel_y: i64 = fx_mul(v.y, font_scale);
            out.push(TextVertex { x: pixel_x - left, y: top - pixel_y });
            i = i + 1;
        }
        self.vertices = out;
    }

    /// Divides every coordinate by the canvas extent, mapping the canvas
    /// onto the unit square.
    pub fn normalize_to_canvas(&mut self, canvas_size: Size)
        requires
            canvas_size.width != 0,
            canvas_size.height != 0,
            forall|i: int| 0 <= i < old(self).vertices@.len() ==> -0x4000_0000_0000
                <= #[trigger] old(self).vertices@[i].x <= 0x4000_0000_0000 && -0x4000_0000_0000
                <= old(self).vertices@[i].y <= 0x4000_0000_0000,
        ensures
            final(self).indices == old(self).indices,
            final(self).vertices@.len() == old(self).vertices@.len(),
            forall|i: int| 0 <= i < old(self).vertices@.len()
                ==> #[trigger] final(self).vertices@[i] == (TextVertex {
                x: fx_div_spec(old(self).vertices@[i].x as int, canvas_size.width as int) as i64,
                y: fx_div_spec(old(self).vertices@[i].y as int, canvas_size.height as int) as i64,
            }),
    {
        let ghost pre = self.vertices@;
        let n = self.vertices.len();
        let mut out: Vec<TextVertex> = Vec::new();
        let mut i: usize = 0;
        while i < n
            invariant
                0 <= i <= n,
                n == self.vertices@.len(),
                self.vertices@ == pre,
                canvas_size.width != 0,
                canvas_size.height != 0,
                forall|k: int| 0 <= k < pre.len() ==> -0x4000_0000_0000 <= #[trigger] pre[k].x
                    <= 0x4000_0000_0000 && -0x4000_0000_0000 <= pre[k].y <= 0x4000_0000_0000,
                out@.len() == i,
                forall|k: int| 0 <= k < i ==> #[trigger] out@[k] == (TextVertex {
                    x: fx_div_spec(pre[k].x as int, canvas_size.width as int) as i64,
                    y: fx_div_spec(pre[k].y as int, canvas_size.height as int) as i64,
                }),
            decreases n - i,
        {
            let v = self.vertices[i];
            proof {
                crate::fixed::lemma_fx_div_nonexpansive(v.x as int, canvas_size.width as int);
                crate::fixed::lemma_fx_div_nonexpansive(v.y as int, canvas_size.height as int);
            }
            out.push(
                TextVertex {
                    x: fx_div(v.x, canvas_size.width),
                    y: fx_div(v.y, canvas_size.height),
                },
            );
            i = i + 1;
        }
        self.vertices = out;
    }

    /// The mesh's pixel extent: width and height of its bounding box.
    pub fn pixel_dimensions(&self) -> (r: (i64, i64))
        requires
            forall|i: int| 0 <= i < self.vertices@.len() ==> -0x4000_0000_0000
                <= #[trigger] self.vertices@[i].x <= 0x4000_0000_0000 && -0x4000_0000_0000
                <= self.vertices@[i].y <= 0x4000_0000_0000,
        ensures
            r.0 == bbox_spec(self.vertices@).2 - bbox_spec(self.vertices@).0,
            r.1 == bbox_spec(self.vertices@).3 - bbox_spec(self.vertices@).1,
    {
        proof {
            lemma_bbox_within(self.vertices@, 0x4000_0000_0000);
        }
        let (min_x, min_y, max_x, max_y) = self.bounding_box();
        (max_x - min_x, max_y - min_y)
    }

    /// Appends an underline: a thin rectangle spanning the text's width,
    /// a fixed gap below its bottom edge.  An empty mesh is unchanged.
    pub fn add_underline_geometry(&mut self)
        requires
            old(self).vertices@.len() <= 60000,
            old(self).indices@.len() + 6 <= usize::MAX,
            forall|i: int| 0 <= i < old(self).vertices@.len() ==> -0x4000_0000_0000
                <= #[trigger] old(self).vertices@[i].x <= 0x4000_0000_0000 && -0x4000_0000_0000
                <= old(self).vertices@[i].y <= 0x4000_0000_0000,
        ensures
            old(self).vertices@.len() == 0 ==> *final(self) == *old(self),
            old(self).vertices@.len() > 0 ==> ({
                let b = bbox_spec(old(self).vertices@);
                let uy = b.1 - 1310720;
                let base = old(self).vertices@.len() as u16;
                &&& final(self).vertices@ == old(self).vertices@ + seq![
                    TextVertex { x: b.0 as i64, y: uy as i64 },
                    TextVertex { x: b.2 as i64, y: uy as i64 },
                    TextVertex { x: b.2 as i64, y: (uy - 131072) as i64 },
                    TextVertex { x: b.0 as i64, y: (uy - 131072) as i64 },
                ]
                &&& final(self).indices@ == old(self).indices@ + seq![
                    base,
                    (base + 1) as u16,
                    (base + 2) as u16,
                    base,
                    (base + 2) as u16,
                    (base + 3) as u16,
                ]
            }),
    {
        let (min_x, min_y, max_x, _) = self.bounding_box();
        if self.vertices.len() == 0 {
            return ;
        }
        proof {
            lemma_bbox_within(self.vertices@, 0x4000_0000_0000);
        }
        let underline_y: i64 = min_y - 1310720;
        let base: u16 = self.vertices.len() as u16;

        self.vertices.push(TextVertex { x: min_x, y: underline_y });
        self.vertices.push(TextVertex { x: max_x, y: underline_y });
        self.vertices.push(TextVertex { x: max_x, y: underline_y - 131072 });
        self.vertices.push(TextVertex { x: min_x, y: underline_y - 131072 });

        self.indices.push(base);
        self.indices.push(base + 1);
        self.indices.push(base + 2);
        self.indices.push(base);
        self.indices.push(base + 2);
        self.indices.push(base + 3);

        proof {
            let b = bbox_spec(old(self).vertices@);
            let uy = b.1 - 1310720;
            assert(self.vertices@ =~= old(self).vertices@ + seq![
                TextVertex { x: b.0 as i64, y: uy as i64 },
                TextVertex { x: b.2 as i64, y: uy as i64 },
                TextVertex { x: b.2 as i64, y: (uy - 131072) as i64 },
                TextVertex { x: b.0 as i64, y: (uy - 131072) as i64 },
            ]);
            let gbase = old(self).vertices@.len() as u16;
            assert(self.indices@ =~= old(self).indices@ + seq![
                gbase,
                (gbase + 1) as u16,
                (gbase + 2) as u16,
                gbase,
                (gbase + 2) as u16,
                (gbase + 3) as u16,
            ]);
        }
    }
}

} // verus!

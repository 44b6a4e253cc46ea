use vstd::prelude::*;

use crate::atlas::GlyphRect;

verus! {

/// Size in bytes of a quad vertex on the GPU: position `(x, y, z)` and colour
/// `(r, g, b)`, six 32-bit floats.
pub const QUAD_VERTEX_STRIDE: u64 = 24;

/// Size in bytes of a glyph vertex on the GPU: a quad vertex and the texture
/// coordinates `(u, v)`, eight 32-bit floats.
pub const FONT_VERTEX_STRIDE: u64 = 32;

/// A colour, one byte per channel; `255` is full intensity.
#[derive(Clone, Copy, Debug, PartialEq, Eq, Structural)]
pub struct Rgb {
    pub r: u8,
    pub g: u8,
    pub b: u8,
}

/// Corner of a flat-coloured quad, in screen pixels with the origin at the
/// top left and `y` pointing down. The depth `z` is always zero.
#[derive(Clone, Copy, Debug, PartialEq, Eq, Structural)]
pub struct Vertex {
    pub x: i64,
    pub y: i64,
    pub color: Rgb,
}

/// Corner of a textured glyph quad; `(u, v)` is a texel of the glyph atlas.
#[derive(Clone, Copy, Debug, PartialEq, Eq, Structural)]
pub struct FontVertex {
    pub x: i64,
    pub y: i64,
    pub color: Rgb,
    pub u: u32,
    pub v: u32,
}

/// The corners `(x, y)`, `(x + w, y)`, `(x + w, y + h)`, `(x, y + h)`, in this
/// order.
pub open spec fn quad_corners(x: int, y: int, w: int, h: int, color: Rgb) -> Seq<Vertex> {
    seq![
        Vertex { x: x as i64, y: y as i64, color },
        Vertex { x: (x + w) as i64, y: y as i64, color },
        Vertex { x: (x + w) as i64, y: (y + h) as i64, color },
        Vertex { x: x as i64, y: (y + h) as i64, color },
    ]
}

/// The corners of a glyph quad of `w` by `h` pixels at `(x, y)`, in the order
/// of `quad_corners`, each with the matching corner of the atlas cell.
pub open spec fn glyph_corners(x: int, y: int, w: int, h: int, color: Rgb, cell: GlyphRect) -> Seq<FontVertex> {
    seq![
        FontVertex { x: x as i64, y: y as i64, color, u: cell.x0, v: cell.y0 },
        FontVertex { x: (x + w) as i64, y: y as i64, color, u: cell.x1, v: cell.y0 },
        FontVertex { x: (x + w) as i64, y: (y + h) as i64, color, u: cell.x1, v: cell.y1 },
        FontVertex { x: x as i64, y: (y + h) as i64, color, u: cell.x0, v: cell.y1 },
    ]
}

} // verus!

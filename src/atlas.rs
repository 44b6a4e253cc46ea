use vstd::prelude::*;

verus! {

/// Code of the first character that the atlas lays out (space).
pub const FIRST_GLYPH: u32 = 0x20;

/// Number of printable ASCII characters, `0x20` to `0x7E` inclusive.
pub const GLYPH_COUNT: u32 = 95;

/// Cells per row of the atlas grid.
pub const ATLAS_COLUMNS: u32 = 16;

/// Rows of the atlas grid: enough for every printable character.
pub const ATLAS_ROWS: u32 = (GLYPH_COUNT + ATLAS_COLUMNS - 1) / ATLAS_COLUMNS;

/// A cell of the atlas in texels, `x0 <= x < x1` and `y0 <= y < y1`. Divided by
/// the atlas's width and height these are the cell's UV coordinates.
#[derive(Clone, Copy, Debug, PartialEq, Eq, Structural)]
pub struct GlyphRect {
    pub x0: u32,
    pub y0: u32,
    pub x1: u32,
    pub y1: u32,
}

/// Position of a character in the grid, if it is printable ASCII.
pub open spec fn glyph_slot(c: char) -> Option<int> {
    if FIRST_GLYPH <= c as u32 && (c as u32) < FIRST_GLYPH + GLYPH_COUNT {
        Some(c as u32 - FIRST_GLYPH)
    } else {
        None
    }
}

/// The cell in grid slot `i` of an atlas with cells of `cell_w` by `cell_h`.
pub open spec fn cell_rect(i: int, cell_w: int, cell_h: int) -> GlyphRect {
    GlyphRect {
        x0: ((i % ATLAS_COLUMNS as int) * cell_w) as u32,
        y0: ((i / ATLAS_COLUMNS as int) * cell_h) as u32,
        x1: ((i % ATLAS_COLUMNS as int) * cell_w + cell_w) as u32,
        y1: ((i / ATLAS_COLUMNS as int) * cell_h + cell_h) as u32,
    }
}

/// Whether two texel rectangles share no texel.
pub open spec fn rects_disjoint(a: GlyphRect, b: GlyphRect) -> bool {
    a.x1 <= b.x0 || b.x1 <= a.x0 || a.y1 <= b.y0 || b.y1 <= a.y0
}

/// Layout of the monospace glyph atlas: a grid of equal cells, one slot per
/// printable ASCII character, and the cells of the characters that the font
/// could draw.
pub struct MonoGlyphAtlas {
    glyph_map: Vec<Option<GlyphRect>>,
    cell_size: (u32, u32),
}

impl MonoGlyphAtlas {
    pub closed spec fn cell_w(&self) -> int {
        self.cell_size.0 as int
    }

    pub closed spec fn cell_h(&self) -> int {
        self.cell_size.1 as int
    }

    pub open spec fn width_spec(&self) -> int {
        ATLAS_COLUMNS * self.cell_w()
    }

    pub open spec fn height_spec(&self) -> int {
        ATLAS_ROWS * self.cell_h()
    }

    /// The cell of `c`, or `None` where the atlas has none.
    pub closed spec fn glyph_spec(&self, c: char) -> Option<GlyphRect> {
        match glyph_slot(c) {
            Some(i) => self.glyph_map@[i],
            None => None,
        }
    }

    /// Well-formedness: the atlas fits `u32` texel coordinates, and every cell
    /// that it records is the grid cell of its character.
    pub closed spec fn wf(&self) -> bool {
        &&& self.glyph_map.len() == GLYPH_COUNT
        &&& ATLAS_COLUMNS * self.cell_size.0 <= u32::MAX
        &&& ATLAS_ROWS * self.cell_size.1 <= u32::MAX
        &&& forall|i: int|
            0 <= i < GLYPH_COUNT ==> (#[trigger] self.glyph_map@[i] matches Some(r) ==> r
                == cell_rect(i, self.cell_w(), self.cell_h()))
    }

    pub(crate) proof fn lemma_cell_bounds(i: int, cell_w: int, cell_h: int)
        requires
            0 <= i < GLYPH_COUNT,
            0 <= cell_w,
            0 <= cell_h,
        ensures
            0 <= (i % ATLAS_COLUMNS as int) * cell_w,
            (i % ATLAS_COLUMNS as int) * cell_w + cell_w <= ATLAS_COLUMNS * cell_w,
            0 <= (i / ATLAS_COLUMNS as int) * cell_h,
            (i / ATLAS_COLUMNS as int) * cell_h + cell_h <= ATLAS_ROWS * cell_h,
    {
        let col = i % 16;
        let row = i / 16;
        assert(0 <= col < 16 && 0 <= row < 6);
        assert(0 <= col * cell_w && col * cell_w + cell_w <= 16 * cell_w) by (nonlinear_arith)
            requires
                0 <= col < 16,
                0 <= cell_w,
        ;
        assert(0 <= row * cell_h && row * cell_h + cell_h <= 6 * cell_h) by (nonlinear_arith)
            requires
                0 <= row < 6,
                0 <= cell_h,
        ;
    }

    /// The cell of `c`, or `None` where the atlas has none.
    pub fn glyph(&self, c: char) -> (r: Option<GlyphRect>)
        requires
            self.wf(),
        ensures
            r == self.glyph_spec(c),
    {
        let code = c as u32;
        if FIRST_GLYPH <= code && code < FIRST_GLYPH + GLYPH_COUNT {
            self.glyph_map[(code - FIRST_GLYPH) as usize]
        } else {
            None
        }
    }

    /// Width and height of every cell, in texels.
    pub fn cell_size(&self) -> (r: (u32, u32))
        ensures
            r.0 == self.cell_w(),
            r.1 == self.cell_h(),
    {
        self.cell_size
    }

    /// Width of the atlas texture: sixteen cells.
    pub fn width(&self) -> (r: u32)
        requires
            self.wf(),
        ensures
            r == self.width_spec(),
    {
        ATLAS_COLUMNS * self.cell_size.0
    }

    /// Height of the atlas texture: enough rows for every printable character.
    pub fn height(&self) -> (r: u32)
        requires
            self.wf(),
        ensures
            r == self.height_spec(),
    {
        ATLAS_ROWS * self.cell_size.1
    }

    /// Top-left texel of the grid slot `index`, whether or not the font drew
    /// a glyph there.
    pub fn cell_origin(&self, index: u32) -> (r: (u32, u32))
        requires
            self.wf(),
            index < GLYPH_COUNT,
        ensures
            r.0 == cell_rect(index as int, self.cell_w(), self.cell_h()).x0,
            r.1 == cell_rect(index as int, self.cell_w(), self.cell_h()).y0,
    {
        proof {
            Self::lemma_cell_bounds(index as int, self.cell_w(), self.cell_h());
        }
        ((index % ATLAS_COLUMNS) * self.cell_size.0, (index / ATLAS_COLUMNS) * self.cell_size.1)
    }
}

/// Lays out the atlas for cells of `cell_w` by `cell_h` texels.
/// `outlined[i]` tells whether the font can draw the character of code
/// `0x20 + i`; those it cannot draw get no cell.
pub fn create_monospace_atlas(cell_w: u32, cell_h: u32, outlined: &Vec<bool>) -> (r: MonoGlyphAtlas)
    requires
        outlined.len() == GLYPH_COUNT,
        ATLAS_COLUMNS * cell_w <= u32::MAX,
        ATLAS_ROWS * cell_h <= u32::MAX,
    ensures
        r.wf(),
        r.cell_w() == cell_w,
        r.cell_h() == cell_h,
        forall|c: char|
            #[trigger] r.glyph_spec(c) == match glyph_slot(c) {
                Some(i) => if outlined@[i] {
                    Some(cell_rect(i, cell_w as int, cell_h as int))
                } else {
                    None
                },
                None => None,
            },
{
    let mut glyph_map: Vec<Option<GlyphRect>> = Vec::new();
    let mut i: u32 = 0;
    while i < GLYPH_COUNT
        invariant
            i <= GLYPH_COUNT,
            outlined.len() == GLYPH_COUNT,
            ATLAS_COLUMNS * cell_w <= u32::MAX,
            ATLAS_ROWS * cell_h <= u32::MAX,
            glyph_map.len() == i,
            forall|j: int|
                0 <= j < i ==> #[trigger] glyph_map@[j] == if outlined@[j] {
                    Some(cell_rect(j, cell_w as int, cell_h as int))
                } else {
                    None
                },
        decreases GLYPH_COUNT - i,
    {
        if outlined[i as usize] {
            proof {
                MonoGlyphAtlas::lemma_cell_bounds(i as int, cell_w as int, cell_h as int);
            }
            let x0 = (i % ATLAS_COLUMNS) * cell_w;
            let y0 = (i / ATLAS_COLUMNS) * cell_h;
            let rect = GlyphRect { x0, y0, x1: x0 + cell_w, y1: y0 + cell_h };
            assert(rect == cell_rect(i as int, cell_w as int, cell_h as int));
            glyph_map.push(Some(rect));
        } else {
            glyph_map.push(None);
        }
        i = i + 1;
    }
    let r = MonoGlyphAtlas { glyph_map, cell_size: (cell_w, cell_h) };
    assert forall|c: char| #[trigger]
        r.glyph_spec(c) == match glyph_slot(c) {
            Some(i) => if outlined@[i] {
                Some(cell_rect(i, cell_w as int, cell_h as int))
            } else {
                None
            },
            None => None,
        } by {}
    r
}

/// Where a coverage sample of a glyph lands in its cell: the sample at
/// `(x, y)` of the glyph's own raster is moved by the centring offset, clamped
/// at zero, and dropped when it falls outside the cell.
pub open spec fn glyph_pixel_spec(x: int, y: int, x_off: int, y_off: int, cell_w: int, cell_h: int) -> Option<(u32, u32)> {
    let px = if x + x_off < 0 { 0 } else { x + x_off };
    let py = if y + y_off < 0 { 0 } else { y + y_off };
    if px < cell_w && py < cell_h {
        Some((px as u32, py as u32))
    } else {
        None
    }
}

pub fn place_glyph_pixel(x: u32, y: u32, x_off: i32, y_off: i32, cell_w: u32, cell_h: u32) -> (r: Option<(u32, u32)>)
    ensures
        r == glyph_pixel_spec(x as int, y as int, x_off as int, y_off as int, cell_w as int, cell_h as int),
{
    let sx = x as i64 + x_off as i64;
    let sy = y as i64 + y_off as i64;
    let px: i64 = if sx < 0 { 0 } else { sx };
    let py: i64 = if sy < 0 { 0 } else { sy };
    if px < cell_w as i64 && py < cell_h as i64 {
        Some((px as u32, py as u32))
    } else {
        None
    }
}

/// Cells of distinct characters share no texel, every cell lies within the
/// atlas (so its UV rectangle lies within `[0,1]x[0,1]`), and all cells have
/// the atlas's one cell size.
pub proof fn lemma_atlas_cells_disjoint(atlas: MonoGlyphAtlas, a: char, b: char)
    requires
        atlas.wf(),
        a != b,
        atlas.glyph_spec(a) is Some,
        atlas.glyph_spec(b) is Some,
    ensures
        rects_disjoint(atlas.glyph_spec(a).unwrap(), atlas.glyph_spec(b).unwrap()),
        atlas.glyph_spec(a).unwrap().x1 <= atlas.width_spec(),
        atlas.glyph_spec(a).unwrap().y1 <= atlas.height_spec(),
        atlas.glyph_spec(a).unwrap().x1 - atlas.glyph_spec(a).unwrap().x0 == atlas.cell_w(),
        atlas.glyph_spec(a).unwrap().y1 - atlas.glyph_spec(a).unwrap().y0 == atlas.cell_h(),
        atlas.glyph_spec(b).unwrap().x1 - atlas.glyph_spec(b).unwrap().x0 == atlas.cell_w(),
        atlas.glyph_spec(b).unwrap().y1 - atlas.glyph_spec(b).unwrap().y0 == atlas.cell_h(),
{
    let i = glyph_slot(a).unwrap();
    let j = glyph_slot(b).unwrap();
    let w = atlas.cell_w();
    let h = atlas.cell_h();
    assert(atlas.glyph_map@[i] matches Some(r) ==> r == cell_rect(i, w, h));
    assert(atlas.glyph_map@[j] matches Some(r) ==> r == cell_rect(j, w, h));
    MonoGlyphAtlas::lemma_cell_bounds(i, w, h);
    MonoGlyphAtlas::lemma_cell_bounds(j, w, h);
    assert(i != j);
    let (ci, ri, cj, rj) = (i % 16, i / 16, j % 16, j / 16);
    assert(ci != cj || ri != rj);
    if ci < cj {
        assert(ci * w + w <= cj * w) by (nonlinear_arith)
            requires
                ci < cj,
                0 <= w,
        ;
    } else if cj < ci {
        assert(cj * w + w <= ci * w) by (nonlinear_arith)
            requires
                cj < ci,
                0 <= w,
        ;
    } else if ri < rj {
        assert(ri * h + h <= rj * h) by (nonlinear_arith)
            requires
                ri < rj,
                0 <= h,
        ;
    } else {
        assert(rj * h + h <= ri * h) by (nonlinear_arith)
            requires
                rj < ri,
                0 <= h,
        ;
    }
}

} // verus!

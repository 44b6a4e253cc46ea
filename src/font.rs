use vstd::prelude::*;

use crate::batch::{
    quad_indices, Batch, DrawCall, RenderError, UploadPlan, MAX_BATCH_VERTICES,
};
use crate::atlas::MonoGlyphAtlas;
use crate::vertex::{glyph_corners, FontVertex, Rgb, FONT_VERTEX_STRIDE};

verus! {

/// The batch of textured glyph quads, drawn with the glyph atlas.
pub struct FontRenderer {
    batch: Batch<FontVertex>,
}

impl View for FontRenderer {
    type V = Batch<FontVertex>;

    closed spec fn view(&self) -> Batch<FontVertex> {
        self.batch
    }
}

impl FontRenderer {
    pub open spec fn wf(&self) -> bool {
        self@.wf() && self@.stride() == FONT_VERTEX_STRIDE
    }

    pub open spec fn empty_spec(&self) -> bool {
        self@.verts().len() == 0
    }

    pub fn new() -> (r: Self)
        ensures
            r.wf(),
            r@.verts().len() == 0,
            r@.idxs().len() == 0,
            !r@.pending(),
            r@.vcap() == 0,
            r@.icap() == 0,
    {
        FontRenderer { batch: Batch::new(FONT_VERTEX_STRIDE) }
    }

    /// Appends a quad of one atlas cell whose top-left corner is `(x, y)`,
    /// textured with the cell of `c`. Fails with `UnsupportedGlyph` when the
    /// atlas has no cell for `c`, and with `IndexOverflow` when the batch is
    /// full; either way nothing changes.
    pub fn push(&mut self, x: i32, y: i32, color: Rgb, c: char, atlas: &MonoGlyphAtlas) -> (r: Result<(), RenderError>)
        requires
            old(self).wf(),
            atlas.wf(),
        ensures
            final(self).wf(),
            final(self)@.vcap() == old(self)@.vcap(),
            final(self)@.icap() == old(self)@.icap(),
            atlas.glyph_spec(c) is None ==> {
                &&& r == Err::<(), RenderError>(RenderError::UnsupportedGlyph { c })
                &&& final(self)@.verts() == old(self)@.verts()
                &&& final(self)@.idxs() == old(self)@.idxs()
                &&& final(self)@.pending() == old(self)@.pending()
            },
            atlas.glyph_spec(c) is Some && old(self)@.verts().len() + 4 <= MAX_BATCH_VERTICES ==> {
                &&& r is Ok
                &&& final(self)@.verts() == old(self)@.verts() + glyph_corners(
                    x as int,
                    y as int,
                    atlas.cell_w(),
                    atlas.cell_h(),
                    color,
                    atlas.glyph_spec(c).unwrap(),
                )
                &&& final(self)@.idxs() == old(self)@.idxs() + quad_indices(old(self)@.verts().len() as int)
                &&& final(self)@.pending()
                &&& !final(self).empty_spec()
            },
            atlas.glyph_spec(c) is Some && old(self)@.verts().len() + 4 > MAX_BATCH_VERTICES ==> {
                &&& r == Err::<(), RenderError>(RenderError::IndexOverflow)
                &&& final(self)@.verts() == old(self)@.verts()
                &&& final(self)@.idxs() == old(self)@.idxs()
                &&& final(self)@.pending() == old(self)@.pending()
            },
    {
        let cell = match atlas.glyph(c) {
            Some(cell) => cell,
            None => return Err(RenderError::UnsupportedGlyph { c }),
        };
        let (w, h) = atlas.cell_size();
        let (x0, y0) = (x as i64, y as i64);
        let (x1, y1) = (x0 + w as i64, y0 + h as i64);
        let r = self.batch.push_quad(
            FontVertex { x: x0, y: y0, color, u: cell.x0, v: cell.y0 },
            FontVertex { x: x1, y: y0, color, u: cell.x1, v: cell.y0 },
            FontVertex { x: x1, y: y1, color, u: cell.x1, v: cell.y1 },
            FontVertex { x: x0, y: y1, color, u: cell.x0, v: cell.y1 },
        );
        assert(seq![
            FontVertex { x: x0, y: y0, color, u: cell.x0, v: cell.y0 },
            FontVertex { x: x1, y: y0, color, u: cell.x1, v: cell.y0 },
            FontVertex { x: x1, y: y1, color, u: cell.x1, v: cell.y1 },
            FontVertex { x: x0, y: y1, color, u: cell.x0, v: cell.y1 },
        ] == glyph_corners(x as int, y as int, w as int, h as int, color, cell));
        r
    }

    /// Empties the batch for the next frame.
    pub fn clear(&mut self)
        requires
            old(self).wf(),
        ensures
            final(self).wf(),
            final(self).empty_spec(),
            final(self)@.idxs().len() == 0,
            !final(self)@.pending(),
            final(self)@.vcap() == old(self)@.vcap(),
            final(self)@.icap() == old(self)@.icap(),
    {
        self.batch.clear();
    }

    /// Whether no glyph was pushed since the last clear.
    pub fn empty(&self) -> (r: bool)
        ensures
            r == (self@.verts().len() == 0),
    {
        self.batch.empty()
    }

    /// How to bring the GPU buffers up to date; see `Batch::upload_data`.
    pub fn upload_data(&mut self) -> (r: Option<UploadPlan>)
        requires
            old(self).wf(),
        ensures
            final(self).wf(),
            r == old(self)@.upload_spec(),
            old(self)@.uploaded_to(final(self)@),
    {
        self.batch.upload_data()
    }

    /// The batch's draw for this frame; see `Batch::flush`.
    pub fn flush(&mut self) -> (r: Option<DrawCall>)
        requires
            old(self).wf(),
        ensures
            final(self).wf(),
            r == old(self)@.flush_spec(),
            old(self)@.pending() ==> old(self)@.uploaded_to(final(self)@),
            !old(self)@.pending() ==> final(self)@ == old(self)@,
    {
        self.batch.flush()
    }

    pub fn batch(&self) -> (r: &Batch<FontVertex>)
        ensures
            *r == self@,
    {
        &self.batch
    }
}

} // verus!

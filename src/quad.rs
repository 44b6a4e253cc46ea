use vstd::prelude::*;

use crate::batch::{
    quad_indices, Batch, DrawCall, RenderError, UploadPlan, MAX_BATCH_VERTICES,
};
use crate::vertex::{quad_corners, Rgb, Vertex, QUAD_VERTEX_STRIDE};

verus! {

/// The batch of flat-coloured quads.
pub struct QuadRenderer {
    batch: Batch<Vertex>,
}

impl View for QuadRenderer {
    type V = Batch<Vertex>;

    closed spec fn view(&self) -> Batch<Vertex> {
        self.batch
    }
}

impl QuadRenderer {
    pub open spec fn wf(&self) -> bool {
        self@.wf() && self@.stride() == QUAD_VERTEX_STRIDE
    }

    pub open spec fn empty_spec(&self) -> bool {
        self@.verts().len() == 0
    }

    pub fn new() -> (r: Self)
        ensures
            r.wf(),
            r@.verts().len() == 0,
            r@.idxs().len() == 0,
            !r@.pending(),
            r@.vcap() == 0,
            r@.icap() == 0,
    {
        QuadRenderer { batch: Batch::new(QUAD_VERTEX_STRIDE) }
    }

    /// Appends the quad of `w` by `h` pixels whose top-left corner is `(x, y)`.
    /// Fails with `IndexOverflow`, changing nothing, when the batch is full.
    pub fn push(&mut self, x: i32, y: i32, w: i32, h: i32, color: Rgb) -> (r: Result<(), RenderError>)
        requires
            old(self).wf(),
        ensures
            final(self).wf(),
            final(self)@.vcap() == old(self)@.vcap(),
            final(self)@.icap() == old(self)@.icap(),
            old(self)@.verts().len() + 4 <= MAX_BATCH_VERTICES ==> {
                &&& r is Ok
                &&& final(self)@.verts() == old(self)@.verts() + quad_corners(
                    x as int,
                    y as int,
                    w as int,
                    h as int,
                    color,
                )
                &&& final(self)@.idxs() == old(self)@.idxs() + quad_indices(old(self)@.verts().len() as int)
                &&& final(self)@.pending()
                &&& !final(self).empty_spec()
            },
            old(self)@.verts().len() + 4 > MAX_BATCH_VERTICES ==> {
                &&& r == Err::<(), RenderError>(RenderError::IndexOverflow)
                &&& final(self)@.verts() == old(self)@.verts()
                &&& final(self)@.idxs() == old(self)@.idxs()
                &&& final(self)@.pending() == old(self)@.pending()
            },
    {
        let (x0, y0) = (x as i64, y as i64);
        let (x1, y1) = (x0 + w as i64, y0 + h as i64);
        let r = self.batch.push_quad(
            Vertex { x: x0, y: y0, color },
            Vertex { x: x1, y: y0, color },
            Vertex { x: x1, y: y1, color },
            Vertex { x: x0, y: y1, color },
        );
        assert(seq![
            Vertex { x: x0, y: y0, color },
            Vertex { x: x1, y: y0, color },
            Vertex { x: x1, y: y1, color },
            Vertex { x: x0, y: y1, color },
        ] == quad_corners(x as int, y as int, w as int, h as int, color));
        r
    }

    /// Empties the batch for the next frame.
    pub fn clear(&mut self)
        requires
            old(self).wf(),
        ensures
            final(self).wf(),
            final(self).empty_spec(),
            final(self)@.idxs().len() == 0,
            !final(self)@.pending(),
            final(self)@.vcap() == old(self)@.vcap(),
            final(self)@.icap() == old(self)@.icap(),
    {
        self.batch.clear();
    }

    /// Whether no quad was pushed since the last clear.
    pub fn empty(&self) -> (r: bool)
        ensures
            r == (self@.verts().len() == 0),
    {
        self.batch.empty()
    }

    /// How to bring the GPU buffers up to date; see `Batch::upload_data`.
    pub fn upload_data(&mut self) -> (r: Option<UploadPlan>)
        requires
            old(self).wf(),
        ensures
            final(self).wf(),
            r == old(self)@.upload_spec(),
            old(self)@.uploaded_to(final(self)@),
    {
        self.batch.upload_data()
    }

    /// The batch's draw for this frame; see `Batch::flush`.
    pub fn flush(&mut self) -> (r: Option<DrawCall>)
        requires
            old(self).wf(),
        ensures
            final(self).wf(),
            r == old(self)@.flush_spec(),
            old(self)@.pending() ==> old(self)@.uploaded_to(final(self)@),
            !old(self)@.pending() ==> final(self)@ == old(self)@,
    {
        self.batch.flush()
    }

    pub fn batch(&self) -> (r: &Batch<Vertex>)
        ensures
            *r == self@,
    {
        &self.batch
    }
}

} // verus!

use vstd::prelude::*;

use crate::atlas::MonoGlyphAtlas;
use crate::batch::{DrawCall, UploadPlan};
use crate::camera::Camera;
use crate::font::FontRenderer;
use crate::quad::QuadRenderer;

verus! {

/// Buffer updates at the end of a frame, one per batch; `None` for a batch
/// with nothing to upload.
#[derive(Clone, Copy, Debug, PartialEq, Eq, Structural)]
pub struct FrameUploads {
    pub quads: Option<UploadPlan>,
    pub glyphs: Option<UploadPlan>,
}

/// The draws of one render pass, quads first and glyphs over them; `None`
/// for a batch that draws nothing.
#[derive(Clone, Copy, Debug, PartialEq, Eq, Structural)]
pub struct FrameDraws {
    pub quads: Option<DrawCall>,
    pub glyphs: Option<DrawCall>,
}

/// The frame controller: owns the camera, both batches and the glyph atlas,
/// and takes them through begin frame, pushes, end frame and render.
pub struct Renderer {
    pub camera: Camera,
    pub quad_renderer: QuadRenderer,
    pub font_renderer: FontRenderer,
    pub font_atlas: MonoGlyphAtlas,
}

impl Renderer {
    pub open spec fn wf(&self) -> bool {
        &&& self.quad_renderer.wf()
        &&& self.font_renderer.wf()
        &&& self.font_atlas.wf()
    }

    /// A controller with empty batches for a viewport of `width` by `height`.
    pub fn new(width: u32, height: u32, font_atlas: MonoGlyphAtlas) -> (r: Self)
        requires
            font_atlas.wf(),
        ensures
            r.wf(),
            r.camera.width_spec() == width,
            r.camera.height_spec() == height,
            r.font_atlas == font_atlas,
            r.quad_renderer@.verts().len() == 0,
            r.font_renderer@.verts().len() == 0,
            r.quad_renderer@.idxs().len() == 0,
            r.font_renderer@.idxs().len() == 0,
            !r.quad_renderer@.pending() && !r.font_renderer@.pending(),
            r.quad_renderer@.vcap() == 0 && r.quad_renderer@.icap() == 0,
            r.font_renderer@.vcap() == 0 && r.font_renderer@.icap() == 0,
    {
        Renderer {
            camera: Camera::new_from_size(width, height),
            quad_renderer: QuadRenderer::new(),
            font_renderer: FontRenderer::new(),
            font_atlas,
        }
    }

    /// Clears both batches; to be called before the frame's first push.
    pub fn begin_frame(&mut self)
        requires
            old(self).wf(),
        ensures
            final(self).wf(),
            final(self).quad_renderer.empty_spec(),
            final(self).font_renderer.empty_spec(),
            final(self).quad_renderer@.idxs().len() == 0,
            final(self).font_renderer@.idxs().len() == 0,
            !final(self).quad_renderer@.pending(),
            !final(self).font_renderer@.pending(),
            final(self).quad_renderer@.vcap() == old(self).quad_renderer@.vcap(),
            final(self).quad_renderer@.icap() == old(self).quad_renderer@.icap(),
            final(self).font_renderer@.vcap() == old(self).font_renderer@.vcap(),
            final(self).font_renderer@.icap() == old(self).font_renderer@.icap(),
            final(self).camera == old(self).camera,
            final(self).font_atlas == old(self).font_atlas,
    {
        self.quad_renderer.clear();
        self.font_renderer.clear();
    }

    /// Uploads every non-empty batch, each independently of the other.
    pub fn end_frame(&mut self) -> (r: FrameUploads)
        requires
            old(self).wf(),
        ensures
            final(self).wf(),
            r.quads == old(self).quad_renderer@.upload_spec(),
            r.glyphs == old(self).font_renderer@.upload_spec(),
            old(self).quad_renderer@.uploaded_to(final(self).quad_renderer@),
            old(self).font_renderer@.uploaded_to(final(self).font_renderer@),
            final(self).camera == old(self).camera,
            final(self).font_atlas == old(self).font_atlas,
    {
        let quads = self.quad_renderer.upload_data();
        let glyphs = self.font_renderer.upload_data();
        FrameUploads { quads, glyphs }
    }

    /// The frame's render pass: the quad batch's draw, then the glyph
    /// batch's, each after bringing its buffers up to date.
    pub fn render(&mut self) -> (r: FrameDraws)
        requires
            old(self).wf(),
        ensures
            final(self).wf(),
            r.quads == old(self).quad_renderer@.flush_spec(),
            r.glyphs == old(self).font_renderer@.flush_spec(),
            old(self).quad_renderer@.pending() ==> old(self).quad_renderer@.uploaded_to(
                final(self).quad_renderer@,
            ),
            old(self).font_renderer@.pending() ==> old(self).font_renderer@.uploaded_to(
                final(self).font_renderer@,
            ),
            !old(self).quad_renderer@.pending() ==> final(self).quad_renderer@ == old(self).quad_renderer@,
            !old(self).font_renderer@.pending() ==> final(self).font_renderer@ == old(self).font_renderer@,
            final(self).camera == old(self).camera,
            final(self).font_atlas == old(self).font_atlas,
    {
        let quads = self.quad_renderer.flush();
        let glyphs = self.font_renderer.flush();
        FrameDraws { quads, glyphs }
    }

    /// Takes the new viewport size; the projection follows it.
    pub fn resize(&mut self, width: u32, height: u32)
        ensures
            final(self).camera.width_spec() == width,
            final(self).camera.height_spec() == height,
            final(self).quad_renderer == old(self).quad_renderer,
            final(self).font_renderer == old(self).font_renderer,
            final(self).font_atlas == old(self).font_atlas,
    {
        self.camera.resize(width, height);
    }
}

} // verus!

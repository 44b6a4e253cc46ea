use batch2d::atlas::{create_monospace_atlas, GLYPH_COUNT};
use batch2d::batch::{BufferUpdate, RenderError, UploadPlan};
use batch2d::camera::{Camera, Ratio};
use batch2d::frame::Renderer;
use batch2d::vertex::Rgb;

fn renderer(width: u32, height: u32) -> Renderer {
    let outlined: Vec<bool> = (0..GLYPH_COUNT).map(|i| i != 0).collect();
    Renderer::new(width, height, create_monospace_atlas(64, 90, &outlined))
}

fn value(r: &Ratio) -> f64 {
    r.num as f64 / r.den as f64
}

/// Clip-space `(x, y, z, w)` of the point `(x, y, 0, 1)`.
fn project(m: &[Ratio], x: f64, y: f64) -> [f64; 4] {
    let mut out = [0.0; 4];
    for (row, o) in out.iter_mut().enumerate() {
        *o = value(&m[row]) * x + value(&m[4 + row]) * y + value(&m[12 + row]);
    }
    out
}

#[test]
fn projection_matrix_entries() {
    let cam = Camera::new_from_size(800, 600);
    let m = cam.view_proj();
    assert_eq!(m.len(), 16);
    assert_eq!(m[0], Ratio { num: 2, den: 800 });
    assert_eq!(m[5], Ratio { num: -2, den: 600 });
    assert_eq!(m[10], Ratio { num: -1, den: 2 });
    assert_eq!(m[12], Ratio { num: -1, den: 1 });
    assert_eq!(m[13], Ratio { num: 1, den: 1 });
    assert_eq!(m[15], Ratio { num: 1, den: 1 });
    assert_eq!(m[14].num, 0);
}

#[test]
fn resize_makes_full_viewport_quad_cover_clip_space() {
    let mut r = renderer(800, 600);
    r.resize(1024, 768);
    assert_eq!(r.camera.size(), (1024, 768));
    let m = r.camera.view_proj();
    r.begin_frame();
    r.quad_renderer.push(0, 0, 1024, 768, Rgb { r: 1, g: 2, b: 3 }).unwrap();
    let expected = [(-1.0, 1.0), (1.0, 1.0), (1.0, -1.0), (-1.0, -1.0)];
    for (vtx, (cx, cy)) in r.quad_renderer.batch().vertices().iter().zip(expected) {
        let p = project(&m, vtx.x as f64, vtx.y as f64);
        assert_eq!(p, [cx, cy, 0.0, 1.0]);
    }
}

#[test]
fn frame_with_one_quad_and_one_glyph() {
    let mut r = renderer(800, 600);
    r.begin_frame();
    r.quad_renderer.push(0, 0, 100, 100, Rgb { r: 0, g: 255, b: 0 }).unwrap();
    r.font_renderer
        .push(50, 50, Rgb { r: 255, g: 255, b: 255 }, 'A', &r.font_atlas)
        .unwrap();
    let uploads = r.end_frame();
    assert!(uploads.quads.is_some() && uploads.glyphs.is_some());
    let draws = r.render();
    assert_eq!(draws.quads.unwrap().index_count, 6);
    assert_eq!(draws.glyphs.unwrap().index_count, 6);
    let written = UploadPlan { vertex: BufferUpdate::Write, index: BufferUpdate::Write };
    assert_eq!(draws.quads.unwrap().upload, written);
    assert_eq!(draws.glyphs.unwrap().upload, written);
}

#[test]
fn pushing_a_space_glyph_fails_and_the_frame_goes_on() {
    let mut r = renderer(800, 600);
    r.begin_frame();
    let err = r.font_renderer.push(10, 10, Rgb { r: 255, g: 255, b: 255 }, ' ', &r.font_atlas);
    assert_eq!(err, Err(RenderError::UnsupportedGlyph { c: ' ' }));
    assert!(r.font_renderer.empty());
    let draws = r.render();
    assert_eq!(draws.glyphs, None);
    assert_eq!(draws.quads, None);
}

#[test]
fn end_frame_uploads_each_batch_on_its_own() {
    let mut r = renderer(800, 600);
    r.begin_frame();
    r.quad_renderer.push(0, 0, 5, 5, Rgb { r: 9, g: 9, b: 9 }).unwrap();
    let uploads = r.end_frame();
    assert_eq!(
        uploads.quads,
        Some(UploadPlan {
            vertex: BufferUpdate::Reallocate { size: 96 },
            index: BufferUpdate::Reallocate { size: 12 },
        })
    );
    assert_eq!(uploads.glyphs, None);
}

#[test]
fn begin_frame_clears_both_batches_but_keeps_buffers() {
    let mut r = renderer(800, 600);
    r.quad_renderer.push(0, 0, 5, 5, Rgb { r: 9, g: 9, b: 9 }).unwrap();
    r.font_renderer.push(0, 0, Rgb { r: 9, g: 9, b: 9 }, 'q', &r.font_atlas).unwrap();
    r.end_frame();
    r.begin_frame();
    assert!(r.quad_renderer.empty() && r.font_renderer.empty());
    assert_eq!(r.quad_renderer.batch().vertex_capacity(), 96);
    assert_eq!(r.font_renderer.batch().vertex_capacity(), 128);
    assert_eq!(r.render().quads, None);
}

use batch2d::batch::{BufferUpdate, DrawCall, RenderError, UploadPlan, MAX_BATCH_VERTICES};
use batch2d::quad::QuadRenderer;
use batch2d::vertex::{Rgb, Vertex};

const GREEN: Rgb = Rgb { r: 0, g: 255, b: 0 };
const WHITE: Rgb = Rgb { r: 255, g: 255, b: 255 };

fn v(x: i64, y: i64, color: Rgb) -> Vertex {
    Vertex { x, y, color }
}

#[test]
fn quad_push_lays_out_corners_and_triangles() {
    let mut q = QuadRenderer::new();
    assert_eq!(q.push(0, 0, 100, 100, GREEN), Ok(()));
    assert_eq!(
        q.batch().vertices(),
        &vec![v(0, 0, GREEN), v(100, 0, GREEN), v(100, 100, GREEN), v(0, 100, GREEN)]
    );
    assert_eq!(q.batch().indices(), &vec![0u16, 1, 2, 0, 2, 3]);
}

#[test]
fn second_quad_indices_are_offset_by_vertex_count() {
    let mut q = QuadRenderer::new();
    q.push(0, 0, 10, 10, GREEN).unwrap();
    q.push(-5, 7, 3, -2, WHITE).unwrap();
    let verts = q.batch().vertices();
    assert_eq!(verts.len(), 8);
    assert_eq!(&verts[4..], &[v(-5, 7, WHITE), v(-2, 7, WHITE), v(-2, 5, WHITE), v(-5, 5, WHITE)]);
    assert_eq!(q.batch().indices(), &vec![0u16, 1, 2, 0, 2, 3, 4, 5, 6, 4, 6, 7]);
}

#[test]
fn quad_corners_do_not_overflow_at_the_extremes() {
    let mut q = QuadRenderer::new();
    q.push(i32::MAX, i32::MIN, i32::MAX, i32::MIN, GREEN).unwrap();
    let verts = q.batch().vertices();
    assert_eq!(verts[2].x, 2 * i32::MAX as i64);
    assert_eq!(verts[2].y, 2 * i32::MIN as i64);
}

#[test]
fn clear_then_empty_is_true_and_push_then_empty_is_false() {
    let mut q = QuadRenderer::new();
    assert!(q.empty());
    q.push(1, 2, 3, 4, GREEN).unwrap();
    assert!(!q.empty());
    q.clear();
    assert!(q.empty());
    assert!(q.batch().indices().is_empty());
    assert_eq!(q.flush(), None);
}

#[test]
fn full_batch_reports_index_overflow() {
    let mut q = QuadRenderer::new();
    for i in 0..(MAX_BATCH_VERTICES / 4) {
        q.push(i as i32, 0, 1, 1, GREEN).unwrap();
    }
    assert_eq!(q.batch().vertices().len(), MAX_BATCH_VERTICES);
    assert_eq!(*q.batch().indices().last().unwrap(), 65535u16);
    assert_eq!(q.push(0, 0, 1, 1, GREEN), Err(RenderError::IndexOverflow));
    assert_eq!(q.batch().vertices().len(), MAX_BATCH_VERTICES);
    assert_eq!(q.batch().indices().len(), MAX_BATCH_VERTICES / 4 * 6);
}

#[test]
fn upload_of_empty_batch_does_nothing() {
    let mut q = QuadRenderer::new();
    assert_eq!(q.upload_data(), None);
    assert_eq!(q.batch().vertex_capacity(), 0);
    assert_eq!(q.batch().index_capacity(), 0);
}

#[test]
fn first_upload_allocates_exact_sizes() {
    let mut q = QuadRenderer::new();
    q.push(0, 0, 1, 1, GREEN).unwrap();
    assert_eq!(
        q.upload_data(),
        Some(UploadPlan {
            vertex: BufferUpdate::Reallocate { size: 96 },
            index: BufferUpdate::Reallocate { size: 12 },
        })
    );
    assert_eq!(q.batch().vertex_capacity(), 96);
    assert_eq!(q.batch().index_capacity(), 12);
}

#[test]
fn upload_twice_is_idempotent() {
    let mut q = QuadRenderer::new();
    q.push(0, 0, 1, 1, GREEN).unwrap();
    q.push(2, 2, 1, 1, GREEN).unwrap();
    q.upload_data().unwrap();
    let (vc, ic) = (q.batch().vertex_capacity(), q.batch().index_capacity());
    assert_eq!(
        q.upload_data(),
        Some(UploadPlan { vertex: BufferUpdate::Write, index: BufferUpdate::Write })
    );
    assert_eq!((q.batch().vertex_capacity(), q.batch().index_capacity()), (vc, ic));
}

fn frame_with(q: &mut QuadRenderer, quads: usize) -> UploadPlan {
    q.clear();
    for i in 0..quads {
        q.push(i as i32, 0, 1, 1, GREEN).unwrap();
    }
    q.upload_data().unwrap()
}

#[test]
fn buffers_grow_with_larger_frames_and_are_reused_for_smaller() {
    let mut q = QuadRenderer::new();
    let mut last = (0, 0);
    for quads in [1usize, 2, 5, 9] {
        let plan = frame_with(&mut q, quads);
        assert_eq!(plan.vertex, BufferUpdate::Reallocate { size: (quads * 96) as u64 });
        assert_eq!(plan.index, BufferUpdate::Reallocate { size: (quads * 12) as u64 });
        let now = (q.batch().vertex_capacity(), q.batch().index_capacity());
        assert!(now.0 >= last.0 && now.1 >= last.1);
        last = now;
    }
    for quads in [9usize, 4, 1] {
        let plan = frame_with(&mut q, quads);
        assert_eq!(plan, UploadPlan { vertex: BufferUpdate::Write, index: BufferUpdate::Write });
        assert_eq!((q.batch().vertex_capacity(), q.batch().index_capacity()), (9 * 96, 9 * 12));
    }
}

#[test]
fn flush_draws_every_index_after_upload() {
    let mut q = QuadRenderer::new();
    q.push(0, 0, 1, 1, GREEN).unwrap();
    q.push(0, 0, 1, 1, GREEN).unwrap();
    q.upload_data().unwrap();
    assert_eq!(
        q.flush(),
        Some(DrawCall {
            upload: UploadPlan { vertex: BufferUpdate::Write, index: BufferUpdate::Write },
            index_count: 12,
        })
    );
}

#[test]
fn flush_without_prior_upload_grows_buffers() {
    let mut q = QuadRenderer::new();
    q.push(0, 0, 1, 1, GREEN).unwrap();
    assert_eq!(
        q.flush(),
        Some(DrawCall {
            upload: UploadPlan {
                vertex: BufferUpdate::Reallocate { size: 96 },
                index: BufferUpdate::Reallocate { size: 12 },
            },
            index_count: 6,
        })
    );
}

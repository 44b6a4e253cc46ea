use batch2d::atlas::{
    create_monospace_atlas, place_glyph_pixel, GlyphRect, MonoGlyphAtlas, ATLAS_COLUMNS, ATLAS_ROWS,
    GLYPH_COUNT,
};
use batch2d::batch::{BufferUpdate, RenderError};
use batch2d::font::FontRenderer;
use batch2d::vertex::{FontVertex, Rgb};

const WHITE: Rgb = Rgb { r: 255, g: 255, b: 255 };

/// Every printable character drawn but the space.
fn atlas(cell_w: u32, cell_h: u32) -> MonoGlyphAtlas {
    let outlined: Vec<bool> = (0..GLYPH_COUNT).map(|i| i != 0).collect();
    create_monospace_atlas(cell_w, cell_h, &outlined)
}

#[test]
fn grid_has_sixteen_columns_and_six_rows() {
    assert_eq!(ATLAS_COLUMNS, 16);
    assert_eq!(ATLAS_ROWS, 6);
    let a = atlas(10, 20);
    assert_eq!(a.cell_size(), (10, 20));
    assert_eq!((a.width(), a.height()), (160, 120));
}

#[test]
fn glyph_cell_follows_its_code() {
    let a = atlas(10, 20);
    // 'A' is 0x41: slot 33, column 1 of row 2.
    assert_eq!(a.glyph('A'), Some(GlyphRect { x0: 10, y0: 40, x1: 20, y1: 60 }));
    assert_eq!(a.glyph('!'), Some(GlyphRect { x0: 10, y0: 0, x1: 20, y1: 20 }));
    assert_eq!(a.glyph('~'), Some(GlyphRect { x0: 140, y0: 100, x1: 150, y1: 120 }));
    assert_eq!(a.cell_origin(33), (10, 40));
    assert_eq!(a.cell_origin(0), (0, 0));
}

#[test]
fn characters_without_outline_or_outside_ascii_have_no_cell() {
    let a = atlas(10, 20);
    assert_eq!(a.glyph(' '), None);
    assert_eq!(a.glyph('\n'), None);
    assert_eq!(a.glyph('\u{7f}'), None);
    assert_eq!(a.glyph('é'), None);
}

#[test]
fn atlas_cells_are_disjoint_inside_and_equal_sized() {
    let a = atlas(7, 13);
    let cells: Vec<GlyphRect> = (0x21u8..0x7f).map(|c| a.glyph(c as char).unwrap()).collect();
    for (i, p) in cells.iter().enumerate() {
        assert_eq!((p.x1 - p.x0, p.y1 - p.y0), (7, 13));
        assert!(p.x1 <= a.width() && p.y1 <= a.height());
        let (u1, v1) = (p.x1 as f32 / a.width() as f32, p.y1 as f32 / a.height() as f32);
        assert!(u1 <= 1.0 && v1 <= 1.0);
        for q in &cells[i + 1..] {
            assert!(p.x1 <= q.x0 || q.x1 <= p.x0 || p.y1 <= q.y0 || q.y1 <= p.y0);
        }
    }
}

#[test]
fn glyph_push_uses_cell_size_and_uv() {
    let a = atlas(10, 20);
    let mut f = FontRenderer::new();
    assert_eq!(f.push(50, 50, WHITE, 'A', &a), Ok(()));
    let fv = |x, y, u, v| FontVertex { x, y, color: WHITE, u, v };
    assert_eq!(
        f.batch().vertices(),
        &vec![fv(50, 50, 10, 40), fv(60, 50, 20, 40), fv(60, 70, 20, 60), fv(50, 70, 10, 60)]
    );
    assert_eq!(f.batch().indices(), &vec![0u16, 1, 2, 0, 2, 3]);
}

#[test]
fn pushing_space_reports_unsupported_glyph() {
    let a = atlas(10, 20);
    let mut f = FontRenderer::new();
    assert_eq!(f.push(0, 0, WHITE, ' ', &a), Err(RenderError::UnsupportedGlyph { c: ' ' }));
    assert!(f.empty());
    assert_eq!(f.upload_data(), None);
}

#[test]
fn glyph_batch_buffers_use_the_wider_vertex() {
    let a = atlas(10, 20);
    let mut f = FontRenderer::new();
    f.push(0, 0, WHITE, 'x', &a).unwrap();
    let plan = f.upload_data().unwrap();
    assert_eq!(plan.vertex, BufferUpdate::Reallocate { size: 128 });
    assert_eq!(plan.index, BufferUpdate::Reallocate { size: 12 });
}

#[test]
fn glyph_pixels_are_offset_clamped_and_cropped() {
    assert_eq!(place_glyph_pixel(3, 4, 2, 1, 10, 10), Some((5, 5)));
    assert_eq!(place_glyph_pixel(1, 1, -5, -3, 10, 10), Some((0, 0)));
    assert_eq!(place_glyph_pixel(8, 0, 2, 0, 10, 10), None);
    assert_eq!(place_glyph_pixel(0, 9, 0, 1, 10, 10), None);
    assert_eq!(place_glyph_pixel(u32::MAX, 0, i32::MIN, 0, 10, 10), None);
}

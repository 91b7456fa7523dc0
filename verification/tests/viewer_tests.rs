use imeji::geom::RectM;
use imeji::geom::Vec2M;
use imeji::viewer::display_rect;
use imeji::viewer::FrameInput;
use imeji::viewer::Imeji;

fn encode_png(width: u32, height: u32) -> Vec<u8> {
    let img = image::RgbaImage::from_pixel(width, height, image::Rgba([10, 20, 30, 255]));
    let mut cursor = std::io::Cursor::new(Vec::new());
    img.write_to(&mut cursor, image::ImageFormat::Png).unwrap();
    cursor.into_inner()
}

/// A quiet frame in a 400x400 window (coordinates in milli-pixels).
fn base_input() -> FrameInput {
    FrameInput {
        dropped_bytes: None,
        close_requested: false,
        window_size: Vec2M { x: 400_000, y: 400_000 },
        area: RectM {
            min: Vec2M { x: 0, y: 0 },
            max: Vec2M { x: 400_000, y: 400_000 },
        },
        scroll_delta_y: 0,
        mouse_pos: None,
        primary_down: false,
    }
}

fn viewer_with_image(width: u32, height: u32) -> Imeji {
    let mut v = Imeji::new();
    v.load_image(&encode_png(width, height)).unwrap();
    v
}

#[test]
fn new_viewer_shows_placeholder() {
    let mut v = Imeji::new();
    let out = v.update(&base_input());
    assert!(out.rect.is_none());
    assert!(!out.needs_texture);
    assert!(out.decode_error.is_none());
}

#[test]
fn malformed_drop_leaves_state_unchanged() {
    let mut v = viewer_with_image(100, 50);
    let mut input = base_input();
    let before = v.update(&input).rect;
    input.dropped_bytes = Some(b"garbage garbage garbage".to_vec());
    let out = v.update(&input);
    assert!(out.decode_error.is_some());
    assert_eq!(v.image.as_ref().map(|i| (i.width, i.height)), Some((100, 50)));
    assert_eq!(out.rect, before);
    assert_eq!(v.zoom, 1000);
    assert_eq!(v.pan_offset, Vec2M { x: 0, y: 0 });
}

#[test]
fn zoom_always_clamped_under_repeated_scroll() {
    let mut v = viewer_with_image(100, 50);
    let center = Vec2M { x: 200_000, y: 200_000 };
    for _ in 0..50 {
        v.apply_scroll(200_000, Some(center), center);
        assert!(1000 <= v.zoom && v.zoom <= 10_000);
    }
    assert_eq!(v.zoom, 10_000);
    for _ in 0..50 {
        v.apply_scroll(-300_000, Some(center), center);
        assert!(1000 <= v.zoom && v.zoom <= 10_000);
    }
    assert_eq!(v.zoom, 1000);
}

#[test]
fn returning_to_unit_zoom_resets_pan() {
    let mut v = viewer_with_image(100, 50);
    let center = Vec2M { x: 200_000, y: 200_000 };
    // zoom in anchored away from the center, building a nonzero pan
    v.apply_scroll(100_000, Some(Vec2M { x: 300_000, y: 300_000 }), center);
    assert_eq!(v.zoom, 1100);
    assert_ne!(v.pan_offset, Vec2M { x: 0, y: 0 });
    // one large scroll-down lands the zoom back on exactly 1.0
    v.apply_scroll(-1_000_000, Some(center), center);
    assert_eq!(v.zoom, 1000);
    assert_eq!(v.pan_offset, Vec2M { x: 0, y: 0 });
}

#[test]
fn panning_has_no_effect_at_unit_zoom() {
    let mut v = viewer_with_image(100, 50);
    let mut input = base_input();
    let before = v.update(&input).rect;
    // simulate a drag across two frames
    input.primary_down = true;
    input.mouse_pos = Some(Vec2M { x: 150_000, y: 150_000 });
    let mid = v.update(&input).rect;
    input.mouse_pos = Some(Vec2M { x: 260_000, y: 240_000 });
    let after = v.update(&input).rect;
    assert_eq!(before, mid);
    assert_eq!(before, after);
    assert_eq!(v.pan_offset, Vec2M { x: 0, y: 0 });
}

#[test]
fn drag_moves_image_when_zoomed_in() {
    let mut v = viewer_with_image(100, 50);
    let center = Vec2M { x: 200_000, y: 200_000 };
    v.apply_scroll(100_000, Some(center), center);
    assert_eq!(v.zoom, 1100);
    v.apply_drag(true, Some(Vec2M { x: 200_000, y: 200_000 }));
    v.apply_drag(true, Some(Vec2M { x: 230_000, y: 210_000 }));
    assert_eq!(v.pan_offset, Vec2M { x: 30_000, y: 10_000 });
    // releasing the button ends the drag
    v.apply_drag(false, None);
    assert!(!v.is_dragging);
    assert!(v.last_mouse_pos.is_none());
}

#[test]
fn loading_resets_zoom_and_pan() {
    let mut v = viewer_with_image(100, 50);
    let center = Vec2M { x: 200_000, y: 200_000 };
    v.apply_scroll(150_000, Some(Vec2M { x: 320_000, y: 120_000 }), center);
    v.apply_drag(true, Some(Vec2M { x: 200_000, y: 200_000 }));
    v.apply_drag(true, Some(Vec2M { x: 250_000, y: 250_000 }));
    assert_ne!(v.zoom, 1000);
    assert_ne!(v.pan_offset, Vec2M { x: 0, y: 0 });
    v.load_image(&encode_png(7, 9)).unwrap();
    assert_eq!(v.zoom, 1000);
    assert_eq!(v.pan_offset, Vec2M { x: 0, y: 0 });
    assert!(v.texture.is_none());
    assert!(!v.is_dragging);
    assert_eq!(v.image.as_ref().map(|i| (i.width, i.height)), Some((7, 9)));
}

#[test]
fn base_scale_centers_small_image() {
    // a 100x50 image in a 400x400 area: base scale min(4, 8, 1) = 1, so a
    // 100x50 rectangle centered in the viewport
    let mut v = viewer_with_image(100, 50);
    let out = v.update(&base_input());
    let rect = out.rect.unwrap();
    assert_eq!(rect.min, Vec2M { x: 150_000, y: 175_000 });
    assert_eq!(rect.max, Vec2M { x: 250_000, y: 225_000 });
}

#[test]
fn base_scale_shrinks_large_image() {
    // an 800x400 image in a 400x400 area: base scale min(0.5, 1, 1) = 0.5
    let mut v = viewer_with_image(800, 400);
    let out = v.update(&base_input());
    let rect = out.rect.unwrap();
    assert_eq!(rect.min, Vec2M { x: 0, y: 100_000 });
    assert_eq!(rect.max, Vec2M { x: 400_000, y: 300_000 });
}

#[test]
fn scroll_at_center_zooms_without_pan() {
    let mut v = viewer_with_image(100, 50);
    v.update(&base_input());
    let mut input = base_input();
    // deltaY of 100 pixels: zoom factor 1.1
    input.scroll_delta_y = 100_000;
    input.mouse_pos = Some(Vec2M { x: 200_000, y: 200_000 });
    let out = v.update(&input);
    assert_eq!(v.zoom, 1100);
    assert_eq!(v.pan_offset, Vec2M { x: 0, y: 0 });
    let rect = out.rect.unwrap();
    assert_eq!(rect.min, Vec2M { x: 145_000, y: 172_500 });
    assert_eq!(rect.max, Vec2M { x: 255_000, y: 227_500 });
}

#[test]
fn close_shortcut_clears_everything() {
    let mut v = viewer_with_image(100, 50);
    let mut input = base_input();
    input.scroll_delta_y = 100_000;
    input.mouse_pos = Some(Vec2M { x: 300_000, y: 300_000 });
    v.update(&input);
    v.set_texture(7);
    let mut close = base_input();
    close.close_requested = true;
    let out = v.update(&close);
    assert!(v.image.is_none());
    assert!(v.texture.is_none());
    assert_eq!(v.zoom, 1000);
    assert_eq!(v.pan_offset, Vec2M { x: 0, y: 0 });
    assert!(out.rect.is_none());
    assert!(!out.needs_texture);
}

#[test]
fn texture_cached_until_image_changes() {
    let mut v = viewer_with_image(100, 50);
    let out = v.update(&base_input());
    assert!(out.needs_texture);
    v.set_texture(1);
    let out = v.update(&base_input());
    assert!(!out.needs_texture);
    assert_eq!(v.texture, Some(1));
    // a new image invalidates the cached texture
    v.load_image(&encode_png(10, 10)).unwrap();
    let out = v.update(&base_input());
    assert!(out.needs_texture);
}

#[test]
fn large_window_growth_resets_viewport() {
    let mut v = viewer_with_image(100, 50);
    let input = base_input();
    v.update(&input);
    let center = Vec2M { x: 200_000, y: 200_000 };
    v.apply_scroll(100_000, Some(Vec2M { x: 300_000, y: 120_000 }), center);
    assert_ne!(v.zoom, 1000);
    // the window grows by more than 100 px in x
    let mut grown = base_input();
    grown.window_size = Vec2M { x: 501_000, y: 400_000 };
    grown.area.max = Vec2M { x: 501_000, y: 400_000 };
    v.update(&grown);
    assert_eq!(v.zoom, 1000);
    assert_eq!(v.pan_offset, Vec2M { x: 0, y: 0 });
}

#[test]
fn small_window_growth_keeps_viewport() {
    let mut v = viewer_with_image(100, 50);
    v.update(&base_input());
    let center = Vec2M { x: 200_000, y: 200_000 };
    v.apply_scroll(100_000, Some(center), center);
    assert_eq!(v.zoom, 1100);
    let mut grown = base_input();
    grown.window_size = Vec2M { x: 499_000, y: 400_000 };
    v.update(&grown);
    assert_eq!(v.zoom, 1100);
}

#[test]
fn display_rect_handles_zero_size_image() {
    let area = RectM {
        min: Vec2M { x: 0, y: 0 },
        max: Vec2M { x: 400_000, y: 400_000 },
    };
    let rect = display_rect(0, 0, &area, 1000, Vec2M { x: 0, y: 0 });
    assert_eq!(rect.min, Vec2M { x: 200_000, y: 200_000 });
    assert_eq!(rect.max, Vec2M { x: 200_000, y: 200_000 });
}

#[test]
fn display_rect_applies_pan() {
    let area = RectM {
        min: Vec2M { x: 0, y: 0 },
        max: Vec2M { x: 400_000, y: 400_000 },
    };
    let rect = display_rect(100, 50, &area, 1000, Vec2M { x: 5000, y: -2500 });
    assert_eq!(rect.min, Vec2M { x: 155_000, y: 172_500 });
    assert_eq!(rect.max, Vec2M { x: 255_000, y: 222_500 });
}

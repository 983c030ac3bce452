use tiny_cursor::renderer::{
    argb_channels, blend_pixel, canvas_bitmap_info, canvas_size, cursor_blend_function,
    pixel_index, CursorCanvas, CursorPose, RenderCursorKind, CANVAS_PIXELS, CANVAS_SIZE,
};

#[test]
fn blend_onto_transparent_stores_source() {
    assert_eq!(blend_pixel(0, 0x12, 0x34, 0x56, 0x78), 0x7812_3456);
}

#[test]
fn blend_source_over_rounds_each_channel() {
    // Destination a=128 r=64 g=32 b=16; source r=100 g=50 b=25 a=128.
    assert_eq!(blend_pixel(0x8040_2010, 100, 50, 25, 128), 0xC084_4221);
}

#[test]
fn blend_saturates_at_255() {
    assert_eq!(blend_pixel(0xFFFF_FFFF, 255, 255, 255, 200), 0xFFFF_FFFF);
}

#[test]
fn opaque_source_replaces_destination() {
    assert_eq!(blend_pixel(0x80FF_00FF, 10, 20, 30, 255), 0xFF0A_141E);
}

#[test]
fn transparent_source_keeps_destination() {
    assert_eq!(blend_pixel(0x8040_2010, 0, 0, 0, 0), 0x8040_2010);
}

#[test]
fn canvas_starts_and_clears_transparent() {
    let mut canvas = CursorCanvas::new();
    assert_eq!(canvas.pixels().len(), CANVAS_PIXELS);
    assert!(canvas.pixels().iter().all(|&p| p == 0));
    canvas.blend_over(5, 1, 2, 3, 4);
    assert_eq!(canvas.pixel(5), 0x0401_0203);
    canvas.clear();
    assert_eq!(canvas.pixels().len(), CANVAS_PIXELS);
    assert!(canvas.pixels().iter().all(|&p| p == 0));
}

#[test]
fn canvas_blend_touches_one_pixel() {
    let mut canvas = CursorCanvas::new();
    let idx = pixel_index(64, 64);
    canvas.blend_over(idx, 0, 0, 0, 102);
    canvas.blend_over(idx, 100, 50, 25, 128);
    assert_eq!(canvas.pixel(idx), 0xB364_3219);
    assert_eq!(canvas.pixel(idx - 1), 0);
    assert_eq!(canvas.pixel(idx + 1), 0);
}

#[test]
fn pixel_indices_are_row_major() {
    assert_eq!(pixel_index(0, 0), 0);
    assert_eq!(pixel_index(5, 0), 5);
    assert_eq!(pixel_index(0, 1), 128);
    assert_eq!(pixel_index(127, 127), CANVAS_PIXELS - 1);
}

#[test]
fn canvas_bitmap_is_top_down_32_bit() {
    let info = canvas_bitmap_info();
    assert_eq!(info.bmi_header.bi_size, 40);
    assert_eq!(info.bmi_header.bi_width, CANVAS_SIZE);
    assert_eq!(info.bmi_header.bi_height, -128);
    assert_eq!(info.bmi_header.bi_planes, 1);
    assert_eq!(info.bmi_header.bi_bit_count, 32);
    assert_eq!(info.bmi_header.bi_compression, 0);
    let size = canvas_size();
    assert_eq!((size.cx, size.cy), (128, 128));
    let blend = cursor_blend_function();
    assert_eq!(
        (blend.blend_op, blend.blend_flags, blend.source_constant_alpha, blend.alpha_format),
        (0, 0, 255, 1)
    );
}

#[test]
fn channels_of_packed_pixel() {
    assert_eq!(argb_channels(0xC084_4221), (0xC0, 0x84, 0x42, 0x21));
}

#[test]
fn only_arrow_follows_motion() {
    assert_eq!(RenderCursorKind::Arrow.pose(), CursorPose::Oriented);
    assert_eq!(RenderCursorKind::Hand.pose(), CursorPose::PressableUpright);
    assert_eq!(RenderCursorKind::IBeam.pose(), CursorPose::Upright);
    assert_eq!(RenderCursorKind::ResizeNESW.pose(), CursorPose::Upright);
    assert_eq!(RenderCursorKind::Unavailable.pose(), CursorPose::Upright);
}

#[test]
fn canvas_always_holds_all_pixels() {
    let mut canvas = CursorCanvas::new();
    assert_eq!(canvas.len(), CANVAS_PIXELS);
    canvas.blend_over(0, 1, 1, 1, 1);
    canvas.clear();
    assert_eq!(canvas.len(), 16384);
}

#[test]
fn compositing_keeps_pixels_premultiplied() {
    let p = blend_pixel(0x8040_2010, 100, 50, 25, 128);
    let (a, r, g, b) = argb_channels(p);
    assert!(r <= a && g <= a && b <= a);
    let q = blend_pixel(0x0000_0000, 30, 20, 10, 40);
    let (a, r, g, b) = argb_channels(q);
    assert!(r <= a && g <= a && b <= a);
}

use tiny_cursor::overlay::{
    overlay_band_candidates, overlay_ex_style, overlay_extent, overlay_response, WindowResponse,
    MIN_OVERLAY_HEIGHT, MIN_OVERLAY_WIDTH,
};
use tiny_cursor::sys::{
    WM_DESTROY, WM_MOUSEACTIVATE, WM_NCHITTEST, WS_EX_LAYERED, WS_EX_TRANSPARENT,
};

#[test]
fn overlay_is_invisible_to_hit_testing() {
    assert_eq!(overlay_response(WM_NCHITTEST), WindowResponse::Reply(-1));
    assert_eq!(overlay_response(WM_MOUSEACTIVATE), WindowResponse::Reply(3));
    assert_eq!(overlay_response(WM_DESTROY), WindowResponse::QuitAndReply(0));
    assert_eq!(overlay_response(0x000F), WindowResponse::DefaultProc);
}

#[test]
fn overlay_styles() {
    assert_eq!(overlay_ex_style(false), 0x0808_00A8);
    assert_eq!(overlay_ex_style(true), 0x0828_00A8);
    for full in [false, true] {
        let style = overlay_ex_style(full);
        assert_eq!(style & WS_EX_TRANSPARENT, WS_EX_TRANSPARENT);
        assert_eq!(style & WS_EX_LAYERED, WS_EX_LAYERED);
    }
}

#[test]
fn overlay_bands_in_order() {
    assert_eq!(overlay_band_candidates(), vec![2, 16, 4]);
    assert_eq!(tiny_cursor::overlay::ZBID_SYSTEM_TOOLS, 16);
    assert_eq!(tiny_cursor::overlay::ZBID_UIACCESS, 2);
}

#[test]
fn overlay_extent_has_a_floor() {
    assert_eq!(overlay_extent(3840, MIN_OVERLAY_WIDTH), 3840);
    assert_eq!(overlay_extent(1280, MIN_OVERLAY_WIDTH), 1920);
    assert_eq!(overlay_extent(0, MIN_OVERLAY_HEIGHT), 1080);
    assert_eq!(overlay_extent(-1, MIN_OVERLAY_HEIGHT), u32::MAX);
}

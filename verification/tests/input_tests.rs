use tiny_cursor::input::{
    colorref_rgb, contains_lowered, detect_system_cursor, get_max_display_frequency,
    is_emergency_escape_pressed, is_left_button_down, is_text_class, luminance_probe_points,
    WindowProbe,
};
use tiny_cursor::renderer::RenderCursorKind;
use tiny_cursor::sys::{POINT, RECT, WS_THICKFRAME};

fn utf16(s: &str) -> Vec<u16> {
    s.encode_utf16().collect()
}

fn resizable(rect: RECT, class: &str) -> Option<WindowProbe> {
    Some(WindowProbe { style: WS_THICKFRAME, rect: Some(rect), class_name: utf16(class) })
}

const WINDOW: RECT = RECT { left: 100, top: 100, right: 500, bottom: 400 };

#[test]
fn key_down_when_high_bit_set() {
    assert!(is_left_button_down(i16::MIN));
    assert!(is_left_button_down(-32767));
    assert!(!is_left_button_down(0));
    assert!(!is_left_button_down(1));
    assert!(!is_left_button_down(i16::MAX));
}

#[test]
fn emergency_needs_all_four_keys() {
    let down = i16::MIN;
    assert!(is_emergency_escape_pressed(down, down, down, down));
    assert!(!is_emergency_escape_pressed(down, 0, down, down));
    assert!(!is_emergency_escape_pressed(0, down, down, down));
    assert!(!is_emergency_escape_pressed(down, down, 0, down));
    assert!(!is_emergency_escape_pressed(down, down, down, 1));
}

#[test]
fn display_frequency_falls_back_to_144() {
    assert_eq!(get_max_display_frequency(Some(240)), 240);
    assert_eq!(get_max_display_frequency(Some(60)), 60);
    assert_eq!(get_max_display_frequency(Some(0)), 144);
    assert_eq!(get_max_display_frequency(Some(-1)), 144);
    assert_eq!(get_max_display_frequency(None), 144);
}

#[test]
fn probes_form_a_diamond() {
    let points = luminance_probe_points(POINT { x: 100, y: 200 });
    let coords: Vec<(i32, i32)> = points.iter().map(|p| (p.x, p.y)).collect();
    assert_eq!(coords, vec![(100, 168), (132, 200), (100, 232), (68, 200)]);
}

#[test]
fn colorref_channels_are_red_green_blue() {
    assert_eq!(colorref_rgb(0x0011_2233), (0x33, 0x22, 0x11));
    assert_eq!(colorref_rgb(0xFF00_00FF), (0xFF, 0, 0));
}

#[test]
fn corners_get_diagonal_shapes() {
    let at = |x, y| detect_system_cursor(POINT { x, y }, &resizable(WINDOW, "Notepad"), false, true);
    assert_eq!(at(100, 100), RenderCursorKind::ResizeNWSE);
    assert_eq!(at(495, 405), RenderCursorKind::ResizeNWSE);
    assert_eq!(at(503, 97), RenderCursorKind::ResizeNESW);
    assert_eq!(at(92, 408), RenderCursorKind::ResizeNESW);
}

#[test]
fn edges_get_straight_shapes() {
    let at = |x, y| detect_system_cursor(POINT { x, y }, &resizable(WINDOW, "Notepad"), false, true);
    assert_eq!(at(108, 250), RenderCursorKind::ResizeWE);
    assert_eq!(at(492, 250), RenderCursorKind::ResizeWE);
    assert_eq!(at(300, 95), RenderCursorKind::ResizeNS);
    assert_eq!(at(300, 408), RenderCursorKind::ResizeNS);
    assert_eq!(at(300, 250), RenderCursorKind::Arrow);
    assert_eq!(at(109, 250), RenderCursorKind::Arrow);
}

#[test]
fn border_needs_resizable_window_and_known_rect() {
    let fixed = Some(WindowProbe { style: 0, rect: Some(WINDOW), class_name: utf16("Notepad") });
    assert_eq!(detect_system_cursor(POINT { x: 100, y: 250 }, &fixed, false, true), RenderCursorKind::Arrow);
    let unknown = Some(WindowProbe { style: WS_THICKFRAME, rect: None, class_name: utf16("Notepad") });
    assert_eq!(detect_system_cursor(POINT { x: 100, y: 250 }, &unknown, false, true), RenderCursorKind::Arrow);
}

#[test]
fn text_classes_get_ibeam() {
    let inside = POINT { x: 300, y: 250 };
    for class in ["Edit", "RICHEDIT50W", "WindowsForms10.RichTextBox", "Scintilla", "TextBox"] {
        assert_eq!(
            detect_system_cursor(inside, &resizable(WINDOW, class), true, true),
            RenderCursorKind::IBeam,
            "{}",
            class
        );
    }
    assert_eq!(
        detect_system_cursor(inside, &resizable(WINDOW, "Chrome_WidgetWin_1"), false, true),
        RenderCursorKind::Arrow
    );
}

#[test]
fn border_wins_over_text_class() {
    assert_eq!(
        detect_system_cursor(POINT { x: 100, y: 250 }, &resizable(WINDOW, "Edit"), true, true),
        RenderCursorKind::ResizeWE
    );
}

#[test]
fn hand_only_while_clicking_with_hand_enabled() {
    let inside = POINT { x: 300, y: 250 };
    let window = resizable(WINDOW, "Chrome_WidgetWin_1");
    assert_eq!(detect_system_cursor(inside, &window, true, true), RenderCursorKind::Hand);
    assert_eq!(detect_system_cursor(inside, &window, true, false), RenderCursorKind::Arrow);
    assert_eq!(detect_system_cursor(inside, &window, false, true), RenderCursorKind::Arrow);
    assert_eq!(detect_system_cursor(inside, &None, true, true), RenderCursorKind::Hand);
    assert_eq!(detect_system_cursor(inside, &None, false, true), RenderCursorKind::Arrow);
}

#[test]
fn windows_left_of_the_primary_monitor() {
    let rect = RECT { left: -1920, top: 0, right: -100, bottom: 1000 };
    assert_eq!(
        detect_system_cursor(POINT { x: -1915, y: 500 }, &resizable(rect, "x"), false, false),
        RenderCursorKind::ResizeWE
    );
    assert_eq!(
        detect_system_cursor(POINT { x: -96, y: 1003 }, &resizable(rect, "x"), false, false),
        RenderCursorKind::ResizeNWSE
    );
    assert_eq!(
        detect_system_cursor(POINT { x: -1000, y: 500 }, &resizable(rect, "x"), false, false),
        RenderCursorKind::Arrow
    );
}

#[test]
fn lowered_substring_search() {
    assert!(contains_lowered(&utf16("MyEDITor"), &utf16("edit")));
    assert!(!contains_lowered(&utf16("EDI"), &utf16("edit")));
    assert!(contains_lowered(&utf16("abc"), &[]));
    assert!(!contains_lowered(&utf16("edit"), &utf16("EDIT")));
    assert!(is_text_class(&utf16("TEXTBOX")));
    assert!(!is_text_class(&utf16("")));
}

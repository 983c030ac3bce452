use tiny_cursor::state::{CursorState, CursorVisualKind};

#[test]
fn cursor_state_default_is_visible_unpressed_arrow() {
    let state = CursorState::default();
    assert_eq!(state.kind, CursorVisualKind::Arrow);
    assert!(!state.is_pressed);
    assert!(state.is_visible);
}

#[test]
fn cursor_visual_kind_default_is_arrow() {
    assert_eq!(CursorVisualKind::default(), CursorVisualKind::Arrow);
}

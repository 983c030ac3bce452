use tiny_cursor::cursor_guard::{
    blank_cursor_and_mask, blank_cursor_xor_mask, is_cursor_hidden, restore_system_cursors,
    system_cursor_ids, CursorHideState, SystemCursorGuard, BLANK_CURSOR_MASK_LEN,
};

#[test]
fn system_cursor_ids_cover_all_standard_cursors() {
    let ids = system_cursor_ids();
    assert_eq!(
        ids,
        vec![
            32512, 32513, 32514, 32515, 32516, 32640, 32641, 32642, 32643, 32644, 32645, 32646,
            32648, 32649, 32650
        ]
    );
}

#[test]
fn blank_cursor_masks_keep_background_and_invert_nothing() {
    let and_mask = blank_cursor_and_mask();
    let xor_mask = blank_cursor_xor_mask();
    assert_eq!(and_mask.len(), BLANK_CURSOR_MASK_LEN);
    assert_eq!(xor_mask.len(), 128);
    assert!(and_mask.iter().all(|&b| b == 0xFF));
    assert!(xor_mask.iter().all(|&b| b == 0x00));
}

#[test]
fn nothing_hidden_at_start() {
    let state = CursorHideState::new();
    assert!(!is_cursor_hidden(&state));
}

#[test]
fn hiding_then_restoring_reloads_once() {
    let mut state = CursorHideState::new();
    let guard = SystemCursorGuard::hide_system_cursors(&mut state, true);
    assert!(guard.is_some());
    assert!(is_cursor_hidden(&state));
    assert!(restore_system_cursors(&mut state));
    assert!(!is_cursor_hidden(&state));
    // Every further request is a no-op.
    assert!(!restore_system_cursors(&mut state));
    assert!(!guard.unwrap().release(&mut state));
    assert!(!is_cursor_hidden(&state));
}

#[test]
fn releasing_the_guard_restores() {
    let mut state = CursorHideState::new();
    let guard = SystemCursorGuard::hide_system_cursors(&mut state, true).unwrap();
    assert!(guard.release(&mut state));
    assert!(!is_cursor_hidden(&state));
    assert!(!restore_system_cursors(&mut state));
}

#[test]
fn failed_hiding_gives_no_guard_and_changes_nothing() {
    let mut state = CursorHideState::new();
    assert!(SystemCursorGuard::hide_system_cursors(&mut state, false).is_none());
    assert!(!is_cursor_hidden(&state));
    assert!(!restore_system_cursors(&mut state));
}

#[test]
fn restore_without_hiding_requests_nothing() {
    let mut state = CursorHideState::new();
    assert!(!restore_system_cursors(&mut state));
    assert!(!restore_system_cursors(&mut state));
}

#[test]
fn hidden_after_success_then_failed_hide_until_restore() {
    let mut state = CursorHideState::new();
    let guard = SystemCursorGuard::hide_system_cursors(&mut state, true);
    assert!(guard.is_some());
    assert!(SystemCursorGuard::hide_system_cursors(&mut state, false).is_none());
    assert!(is_cursor_hidden(&state));
    assert!(restore_system_cursors(&mut state));
    assert!(!is_cursor_hidden(&state));
    assert!(SystemCursorGuard::hide_system_cursors(&mut state, false).is_none());
    assert!(!is_cursor_hidden(&state));
}

//! Cursor visual states and context types.

use vstd::prelude::*;

verus! {

/// The semantic visual type of cursor shape currently active.
#[derive(Debug, Clone, Copy, PartialEq, Eq, Structural)]
pub enum CursorVisualKind {
    Arrow,
    Text,
    Pointer,
    Move,
    Wait,
    Hidden,
}

impl Default for CursorVisualKind {
    /// The arrow is the default cursor shape.
    fn default() -> (kind: Self)
        ensures
            kind == CursorVisualKind::Arrow,
    {
        CursorVisualKind::Arrow
    }
}

/// Dynamic contextual state of the cursor.
#[derive(Debug, Clone, Copy, PartialEq, Eq, Structural)]
pub struct CursorState {
    pub kind: CursorVisualKind,
    pub is_pressed: bool,
    pub is_visible: bool,
}

impl Default for CursorState {
    /// A visible, unpressed arrow.
    fn default() -> (state: Self)
        ensures
            state.kind == CursorVisualKind::Arrow,
            !state.is_pressed,
            state.is_visible,
    {
        CursorState { kind: CursorVisualKind::Arrow, is_pressed: false, is_visible: true }
    }
}

} // verus!

//! Verified core of a smooth-cursor overlay for Windows: cursor states, the
//! system-cursor hiding protocol, tray settings and menu, input decoding,
//! cursor-shape detection, overlay window behaviour, frame pacing and the
//! premultiplied ARGB canvas compositor.

pub mod cursor_guard;
pub mod input;
pub mod overlay;
pub mod pacing;
pub mod renderer;
pub mod state;
pub mod sys;
pub mod tray;

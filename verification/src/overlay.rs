//! The transparent, click-through, topmost overlay window the cursor is drawn
//! into: its window styles, how it answers hit-testing and activation, which
//! desktop bands it tries to live in, and the extent it covers.

use vstd::prelude::*;
use crate::sys::{
    HTTRANSPARENT, MA_NOACTIVATE, WM_DESTROY, WM_MOUSEACTIVATE, WM_NCHITTEST, WS_EX_LAYERED,
    WS_EX_NOACTIVATE, WS_EX_NOREDIRECTIONBITMAP, WS_EX_TOOLWINDOW, WS_EX_TOPMOST,
    WS_EX_TRANSPARENT,
};

verus! {

// Desktop band identifiers of the window manager.
pub const ZBID_DEFAULT: u32 = 0;
pub const ZBID_DESKTOP: u32 = 1;
pub const ZBID_UIACCESS: u32 = 2;
pub const ZBID_IMMERSIVE_IHM: u32 = 3;
pub const ZBID_IMMERSIVE_NOTIFICATION: u32 = 4;
pub const ZBID_IMMERSIVE_APP: u32 = 8;
pub const ZBID_IMMERSIVE_MOGO: u32 = 14;
pub const ZBID_IMMERSIVE_EDGY: u32 = 15;
pub const ZBID_SYSTEM_TOOLS: u32 = 16;

/// Smallest width the full-desktop overlay is given.
pub const MIN_OVERLAY_WIDTH: u32 = 1920;

/// Smallest height the full-desktop overlay is given.
pub const MIN_OVERLAY_HEIGHT: u32 = 1080;

/// How the overlay window answers a message.
#[derive(Debug, Clone, Copy, PartialEq, Eq, Structural)]
pub enum WindowResponse {
    /// Return this value without further processing.
    Reply(isize),
    /// Post the quit message, then return this value.
    QuitAndReply(isize),
    /// Leave the message to default window processing.
    DefaultProc,
}

/// The overlay's answer to a message: invisible to hit-testing, never
/// activated by the mouse, quitting when destroyed.
pub open spec fn spec_overlay_response(msg: u32) -> WindowResponse {
    if msg == WM_NCHITTEST {
        WindowResponse::Reply(HTTRANSPARENT)
    } else if msg == WM_MOUSEACTIVATE {
        WindowResponse::Reply(MA_NOACTIVATE)
    } else if msg == WM_DESTROY {
        WindowResponse::QuitAndReply(0)
    } else {
        WindowResponse::DefaultProc
    }
}

/// Answers a message sent to the overlay window.
pub fn overlay_response(msg: u32) -> (response: WindowResponse)
    ensures
        response == spec_overlay_response(msg),
{
    if msg == WM_NCHITTEST {
        WindowResponse::Reply(HTTRANSPARENT)
    } else if msg == WM_MOUSEACTIVATE {
        WindowResponse::Reply(MA_NOACTIVATE)
    } else if msg == WM_DESTROY {
        WindowResponse::QuitAndReply(0)
    } else {
        WindowResponse::DefaultProc
    }
}

/// Extended styles of the overlay: topmost, transparent to input, layered,
/// absent from the taskbar and Alt+Tab, never activated; the full-desktop
/// variant also draws without a redirection bitmap.
pub open spec fn spec_overlay_ex_style(full_desktop: bool) -> u32 {
    let base = WS_EX_TOPMOST | WS_EX_TRANSPARENT | WS_EX_LAYERED | WS_EX_TOOLWINDOW
        | WS_EX_NOACTIVATE;
    if full_desktop {
        base | WS_EX_NOREDIRECTIONBITMAP
    } else {
        base
    }
}

/// The extended window styles of the overlay.
pub fn overlay_ex_style(full_desktop: bool) -> (style: u32)
    ensures
        style == spec_overlay_ex_style(full_desktop),
{
    let base = WS_EX_TOPMOST | WS_EX_TRANSPARENT | WS_EX_LAYERED | WS_EX_TOOLWINDOW
        | WS_EX_NOACTIVATE;
    if full_desktop {
        base | WS_EX_NOREDIRECTIONBITMAP
    } else {
        base
    }
}

/// The desktop bands the overlay tries, in order (UIAccess, system tools,
/// immersive notifications), before falling back to an ordinary topmost
/// window.
pub open spec fn spec_band_candidates() -> Seq<u32> {
    seq![ZBID_UIACCESS, ZBID_SYSTEM_TOOLS, ZBID_IMMERSIVE_NOTIFICATION]
}

/// Lists the desktop bands to try, in order.
pub fn overlay_band_candidates() -> (bands: Vec<u32>)
    ensures
        bands@ == spec_band_candidates(),
{
    let bands: Vec<u32> = vec![ZBID_UIACCESS, ZBID_SYSTEM_TOOLS, ZBID_IMMERSIVE_NOTIFICATION];
    bands
}

/// A screen metric read as an unsigned extent (negative values wrap as a
/// two's-complement reinterpretation does), raised to at least `minimum`.
pub open spec fn spec_overlay_extent(metric: i32, minimum: u32) -> u32 {
    let wrapped: int = if metric >= 0 {
        metric as int
    } else {
        metric + 0x1_0000_0000
    };
    if wrapped < minimum {
        minimum
    } else {
        wrapped as u32
    }
}

/// The extent the full-desktop overlay covers along one axis.
pub fn overlay_extent(metric: i32, minimum: u32) -> (extent: u32)
    ensures
        extent == spec_overlay_extent(metric, minimum),
        extent >= minimum,
{
    let wrapped: u32 = if metric >= 0 {
        metric as u32
    } else {
        (metric as i64 + 0x1_0000_0000i64) as u32
    };
    if wrapped < minimum {
        minimum
    } else {
        wrapped
    }
}

/// The overlay never stands in the way of input: hit-testing passes
/// through it, mouse clicks never activate it, and both variants are
/// transparent to input, layered, topmost and non-activating.
pub proof fn lemma_overlay_is_click_through(full_desktop: bool)
    ensures
        spec_overlay_response(WM_NCHITTEST) == WindowResponse::Reply(HTTRANSPARENT),
        spec_overlay_response(WM_MOUSEACTIVATE) == WindowResponse::Reply(MA_NOACTIVATE),
        spec_overlay_ex_style(full_desktop) & WS_EX_TRANSPARENT == WS_EX_TRANSPARENT,
        spec_overlay_ex_style(full_desktop) & WS_EX_LAYERED == WS_EX_LAYERED,
        spec_overlay_ex_style(full_desktop) & WS_EX_TOPMOST == WS_EX_TOPMOST,
        spec_overlay_ex_style(full_desktop) & WS_EX_NOACTIVATE == WS_EX_NOACTIVATE,
{
    let b: u32 = 0x00000008u32 | 0x00000020u32 | 0x00080000u32 | 0x00000080u32 | 0x08000000u32;
    let f: u32 = b | 0x00200000u32;
    assert(b & 0x20u32 == 0x20u32 && b & 0x00080000u32 == 0x00080000u32 && b & 8u32 == 8u32 && b
        & 0x08000000u32 == 0x08000000u32) by (bit_vector)
        requires
            b == 0x00000008u32 | 0x00000020u32 | 0x00080000u32 | 0x00000080u32 | 0x08000000u32,
    ;
    assert(f & 0x20u32 == 0x20u32 && f & 0x00080000u32 == 0x00080000u32 && f & 8u32 == 8u32 && f
        & 0x08000000u32 == 0x08000000u32) by (bit_vector)
        requires
            f == (0x00000008u32 | 0x00000020u32 | 0x00080000u32 | 0x00000080u32 | 0x08000000u32)
                | 0x00200000u32,
    ;
}

/// A non-negative metric at least the minimum is kept as it is; below the
/// minimum the minimum is used; a negative metric reads as its
/// two's-complement unsigned value.
pub proof fn lemma_extent_shape(metric: i32, minimum: u32)
    ensures
        metric >= 0 && metric >= minimum ==> spec_overlay_extent(metric, minimum) == metric,
        metric >= 0 && metric < minimum ==> spec_overlay_extent(metric, minimum) == minimum,
        metric < 0 ==> spec_overlay_extent(metric, minimum) == if metric + 0x1_0000_0000 < minimum {
            minimum as int
        } else {
            metric + 0x1_0000_0000
        },
        spec_band_candidates() == seq![2u32, 16u32, 4u32],
{
}

} // verus!

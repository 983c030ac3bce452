//! Plain Win32 data types and the constants that the cursor logic decides
//! with. The C-layout copies handed to the operating system are built from
//! these by the host program.

use vstd::prelude::*;

verus! {

/// A point in screen coordinates.
#[derive(Debug, Clone, Copy, PartialEq, Eq, Structural)]
pub struct POINT {
    pub x: i32,
    pub y: i32,
}

/// A width and height.
#[derive(Debug, Clone, Copy, PartialEq, Eq, Structural)]
pub struct SIZE {
    pub cx: i32,
    pub cy: i32,
}

/// A rectangle given by its edges.
#[derive(Debug, Clone, Copy, PartialEq, Eq, Structural)]
pub struct RECT {
    pub left: i32,
    pub top: i32,
    pub right: i32,
    pub bottom: i32,
}

/// Parameters of per-pixel alpha composition of a layered window.
#[derive(Debug, Clone, Copy, PartialEq, Eq, Structural)]
pub struct BLENDFUNCTION {
    pub blend_op: u8,
    pub blend_flags: u8,
    pub source_constant_alpha: u8,
    pub alpha_format: u8,
}

/// Header describing a device-independent bitmap.
#[derive(Debug, Clone, Copy, PartialEq, Eq, Structural)]
pub struct BITMAPINFOHEADER {
    pub bi_size: u32,
    pub bi_width: i32,
    pub bi_height: i32,
    pub bi_planes: u16,
    pub bi_bit_count: u16,
    pub bi_compression: u32,
    pub bi_size_image: u32,
    pub bi_x_pels_per_meter: i32,
    pub bi_y_pels_per_meter: i32,
    pub bi_clr_used: u32,
    pub bi_clr_important: u32,
}

/// A bitmap header followed by its (unused) colour table entry.
#[derive(Debug, Clone, Copy)]
pub struct BITMAPINFO {
    pub bmi_header: BITMAPINFOHEADER,
    pub bmi_colors: [u32; 1],
}

// Window styles and extended styles.
pub const WS_POPUP: u32 = 0x80000000;
pub const WS_THICKFRAME: u32 = 0x00040000;
pub const WS_EX_TOPMOST: u32 = 0x00000008;
pub const WS_EX_TRANSPARENT: u32 = 0x00000020;
pub const WS_EX_TOOLWINDOW: u32 = 0x00000080;
pub const WS_EX_LAYERED: u32 = 0x00080000;
pub const WS_EX_NOREDIRECTIONBITMAP: u32 = 0x00200000;
pub const WS_EX_NOACTIVATE: u32 = 0x08000000;

// Window messages and their answers.
pub const WM_DESTROY: u32 = 0x0002;
pub const WM_QUIT: u32 = 0x0012;
pub const WM_MOUSEACTIVATE: u32 = 0x0021;
pub const WM_NCHITTEST: u32 = 0x0084;
pub const WM_LBUTTONUP: u32 = 0x0202;
pub const WM_RBUTTONUP: u32 = 0x0205;
pub const WM_APP: u32 = 0x8000;
pub const HTTRANSPARENT: isize = -1;
pub const MA_NOACTIVATE: isize = 3;

// Layered window composition.
pub const AC_SRC_OVER: u8 = 0x00;
pub const AC_SRC_ALPHA: u8 = 0x01;
pub const BI_RGB: u32 = 0;

// Menu item flags.
pub const MF_STRING: u32 = 0x00000000;
pub const MF_DISABLED: u32 = 0x00000002;
pub const MF_CHECKED: u32 = 0x00000008;
pub const MF_UNCHECKED: u32 = 0x00000000;
pub const MF_SEPARATOR: u32 = 0x00000800;

/// The colour value returned for a pixel that cannot be read.
pub const CLR_INVALID: u32 = 0xFFFFFFFF;

} // verus!

//! Cursor shapes and the premultiplied ARGB canvas that the cursor sprite is
//! composited into before it is handed to the desktop compositor.

use vstd::prelude::*;
use crate::sys::{BITMAPINFO, BITMAPINFOHEADER, BLENDFUNCTION, SIZE, AC_SRC_ALPHA, AC_SRC_OVER, BI_RGB};

verus! {

/// Visual mode for the rendered cursor.
#[derive(Debug, Clone, Copy, PartialEq, Eq, Structural)]
pub enum RenderCursorKind {
    Arrow,
    Hand,
    IBeam,
    Crosshair,
    ResizeNS,
    ResizeWE,
    ResizeNWSE,
    ResizeNESW,
    Move,
    ZoomIn,
    ZoomOut,
    Wait,
    Help,
    Unavailable,
}

/// How a cursor shape is posed on screen.
#[derive(Debug, Clone, Copy, PartialEq, Eq, Structural)]
pub enum CursorPose {
    /// Rotated along the motion and stretched with speed (the arrow).
    Oriented,
    /// Upright, squashed slightly while the button is held (the hand).
    PressableUpright,
    /// Upright at a fixed scale (text, resize and utility cursors).
    Upright,
}

impl RenderCursorKind {
    /// The pose of a cursor shape.
    pub open spec fn spec_pose(self) -> CursorPose {
        match self {
            RenderCursorKind::Arrow => CursorPose::Oriented,
            RenderCursorKind::Hand => CursorPose::PressableUpright,
            _ => CursorPose::Upright,
        }
    }

    /// Tells how the shape is posed: only the arrow follows the motion, only
    /// the hand reacts to presses.
    pub fn pose(self) -> (pose: CursorPose)
        ensures
            pose == self.spec_pose(),
    {
        match self {
            RenderCursorKind::Arrow => CursorPose::Oriented,
            RenderCursorKind::Hand => CursorPose::PressableUpright,
            _ => CursorPose::Upright,
        }
    }
}

/// Side length in pixels of the square cursor canvas.
pub const CANVAS_SIZE: i32 = 128;

/// Number of pixels of the cursor canvas.
pub const CANVAS_PIXELS: usize = 16384;

/// Bitmap height of the canvas: negative, so rows run from the top down.
pub const CANVAS_TOP_DOWN_HEIGHT: i32 = -128;

/// Size in bytes of a bitmap info header.
pub const BITMAP_HEADER_BYTES: u32 = 40;

/// The canvas extent handed to the layered-window update.
pub fn canvas_size() -> (size: SIZE)
    ensures
        size == (SIZE { cx: CANVAS_SIZE, cy: CANVAS_SIZE }),
{
    SIZE { cx: CANVAS_SIZE, cy: CANVAS_SIZE }
}

/// Describes the canvas as a top-down (negative height) 32-bit uncompressed
/// bitmap of `CANVAS_SIZE` x `CANVAS_SIZE` pixels.
pub fn canvas_bitmap_info() -> (info: BITMAPINFO)
    ensures
        info.bmi_header == (BITMAPINFOHEADER {
            bi_size: BITMAP_HEADER_BYTES,
            bi_width: CANVAS_SIZE,
            bi_height: CANVAS_TOP_DOWN_HEIGHT,
            bi_planes: 1,
            bi_bit_count: 32,
            bi_compression: BI_RGB,
            bi_size_image: 0,
            bi_x_pels_per_meter: 0,
            bi_y_pels_per_meter: 0,
            bi_clr_used: 0,
            bi_clr_important: 0,
        }),
        info.bmi_colors[0] == 0,
{
    let header = BITMAPINFOHEADER {
        bi_size: BITMAP_HEADER_BYTES,
        bi_width: CANVAS_SIZE,
        bi_height: CANVAS_TOP_DOWN_HEIGHT,
        bi_planes: 1,
        bi_bit_count: 32,
        bi_compression: BI_RGB,
        bi_size_image: 0,
        bi_x_pels_per_meter: 0,
        bi_y_pels_per_meter: 0,
        bi_clr_used: 0,
        bi_clr_important: 0,
    };
    BITMAPINFO { bmi_header: header, bmi_colors: [0u32] }
}

/// Per-pixel alpha composition of the premultiplied canvas over the desktop,
/// at full constant opacity.
pub fn cursor_blend_function() -> (blend: BLENDFUNCTION)
    ensures
        blend == (BLENDFUNCTION {
            blend_op: AC_SRC_OVER,
            blend_flags: 0,
            source_constant_alpha: 255,
            alpha_format: AC_SRC_ALPHA,
        }),
{
    BLENDFUNCTION {
        blend_op: AC_SRC_OVER,
        blend_flags: 0,
        source_constant_alpha: 255,
        alpha_format: AC_SRC_ALPHA,
    }
}

/// Packs four channels into one 0xAARRGGBB word.
pub open spec fn pack_argb(a: u32, r: u32, g: u32, b: u32) -> u32 {
    (a << 24u32) | (r << 16u32) | (g << 8u32) | b
}

/// The alpha channel of a packed pixel.
pub open spec fn alpha_of(p: u32) -> u32 {
    (p >> 24u32) & 0xFFu32
}

/// The red channel of a packed pixel.
pub open spec fn red_of(p: u32) -> u32 {
    (p >> 16u32) & 0xFFu32
}

/// The green channel of a packed pixel.
pub open spec fn green_of(p: u32) -> u32 {
    (p >> 8u32) & 0xFFu32
}

/// The blue channel of a packed pixel.
pub open spec fn blue_of(p: u32) -> u32 {
    p & 0xFFu32
}

/// The part of a destination channel that shows through a source of alpha
/// `src_a`: `d * (255 - src_a) / 255`, rounded to nearest.
pub open spec fn show_through(d: u32, src_a: u32) -> int {
    (d * (255 - src_a) + 127) / 255
}

/// Premultiplied source-over for one channel, before saturation.
pub open spec fn over_channel(s: u32, d: u32, src_a: u32) -> int {
    s + show_through(d, src_a)
}

/// Saturates a channel value at 255.
pub open spec fn saturate(v: int) -> u32 {
    if v < 255 {
        v as u32
    } else {
        255u32
    }
}

/// A source pixel composited over a destination pixel of the canvas; a fully
/// transparent (zero) destination is simply replaced by the source.
pub open spec fn over_pixel(dest: u32, r: u32, g: u32, b: u32, a: u32) -> u32 {
    if dest == 0 {
        pack_argb(a, r, g, b)
    } else {
        pack_argb(
            saturate(over_channel(a, alpha_of(dest), a)),
            saturate(over_channel(r, red_of(dest), a)),
            saturate(over_channel(g, green_of(dest), a)),
            saturate(over_channel(b, blue_of(dest), a)),
        )
    }
}

/// Inputs on which composition stays within 32-bit arithmetic: over a
/// non-transparent destination the source alpha is at most 255 and no
/// unsaturated channel sum exceeds `u32::MAX`.
pub open spec fn over_defined(dest: u32, r: u32, g: u32, b: u32, a: u32) -> bool {
    dest != 0 ==> {
        &&& a <= 255
        &&& over_channel(a, alpha_of(dest), a) <= u32::MAX
        &&& over_channel(r, red_of(dest), a) <= u32::MAX
        &&& over_channel(g, green_of(dest), a) <= u32::MAX
        &&& over_channel(b, blue_of(dest), a) <= u32::MAX
    }
}

/// Splits a packed 0xAARRGGBB pixel into its alpha, red, green and blue
/// channels.
pub fn argb_channels(p: u32) -> (channels: (u32, u32, u32, u32))
    ensures
        channels == (alpha_of(p), red_of(p), green_of(p), blue_of(p)),
        channels.0 <= 255 && channels.1 <= 255 && channels.2 <= 255 && channels.3 <= 255,
{
    proof {
        lemma_channel_bounds(p);
    }
    ((p >> 24u32) & 0xFFu32, (p >> 16u32) & 0xFFu32, (p >> 8u32) & 0xFFu32, p & 0xFFu32)
}

/// Every source channel fits in a byte.
pub open spec fn channels_fit(r: u32, g: u32, b: u32, a: u32) -> bool {
    r <= 255 && g <= 255 && b <= 255 && a <= 255
}

proof fn lemma_channel_bounds(p: u32)
    ensures
        alpha_of(p) <= 255,
        red_of(p) <= 255,
        green_of(p) <= 255,
        blue_of(p) <= 255,
{
    assert((p >> 24u32) & 0xFFu32 <= 255) by (bit_vector);
    assert((p >> 16u32) & 0xFFu32 <= 255) by (bit_vector);
    assert((p >> 8u32) & 0xFFu32 <= 255) by (bit_vector);
    assert(p & 0xFFu32 <= 255) by (bit_vector);
}

proof fn lemma_show_through_bounds(d: u32, src_a: u32)
    requires
        d <= 255,
        src_a <= 255,
    ensures
        0 <= d * (255 - src_a) <= 65025,
        0 <= show_through(d, src_a) <= 255,
{
    assert(0 <= d * (255 - src_a) <= 65025) by (nonlinear_arith)
        requires
            d <= 255,
            src_a <= 255,
    ;
}

fn over_one(s: u32, d: u32, src_a: u32) -> (v: u32)
    requires
        d <= 255,
        src_a <= 255,
        over_channel(s, d, src_a) <= u32::MAX,
    ensures
        v == saturate(over_channel(s, d, src_a)),
{
    proof {
        lemma_show_through_bounds(d, src_a);
    }
    let inv_a = 255 - src_a;
    let sum = s + (d * inv_a + 127) / 255;
    if sum < 255 {
        sum
    } else {
        255
    }
}

/// Composites a premultiplied source pixel over a canvas pixel (Porter-Duff
/// source-over with rounding, each channel saturated at 255).
pub fn blend_pixel(dest: u32, src_r: u32, src_g: u32, src_b: u32, src_a: u32) -> (out: u32)
    requires
        over_defined(dest, src_r, src_g, src_b, src_a),
    ensures
        out == over_pixel(dest, src_r, src_g, src_b, src_a),
{
    if dest == 0 {
        (src_a << 24u32) | (src_r << 16u32) | (src_g << 8u32) | src_b
    } else {
        proof {
            lemma_channel_bounds(dest);
        }
        let d_a = (dest >> 24u32) & 0xFFu32;
        let d_r = (dest >> 16u32) & 0xFFu32;
        let d_g = (dest >> 8u32) & 0xFFu32;
        let d_b = dest & 0xFFu32;
        let out_a = over_one(src_a, d_a, src_a);
        let out_r = over_one(src_r, d_r, src_a);
        let out_g = over_one(src_g, d_g, src_a);
        let out_b = over_one(src_b, d_b, src_a);
        (out_a << 24u32) | (out_r << 16u32) | (out_g << 8u32) | out_b
    }
}

/// Packing channels that fit in a byte and reading them back gives them again.
pub proof fn lemma_pack_unpack(a: u32, r: u32, g: u32, b: u32)
    requires
        channels_fit(r, g, b, a),
    ensures
        alpha_of(pack_argb(a, r, g, b)) == a,
        red_of(pack_argb(a, r, g, b)) == r,
        green_of(pack_argb(a, r, g, b)) == g,
        blue_of(pack_argb(a, r, g, b)) == b,
{
    assert((((a << 24u32) | (r << 16u32) | (g << 8u32) | b) >> 24u32) & 0xFFu32 == a)
        by (bit_vector)
        requires
            a <= 255,
            r <= 255,
            g <= 255,
            b <= 255,
    ;
    assert((((a << 24u32) | (r << 16u32) | (g << 8u32) | b) >> 16u32) & 0xFFu32 == r)
        by (bit_vector)
        requires
            a <= 255,
            r <= 255,
            g <= 255,
            b <= 255,
    ;
    assert((((a << 24u32) | (r << 16u32) | (g << 8u32) | b) >> 8u32) & 0xFFu32 == g)
        by (bit_vector)
        requires
            a <= 255,
            r <= 255,
            g <= 255,
            b <= 255,
    ;
    assert(((a << 24u32) | (r << 16u32) | (g << 8u32) | b) & 0xFFu32 == b) by (bit_vector)
        requires
            a <= 255,
            r <= 255,
            g <= 255,
            b <= 255,
    ;
}

/// Composition is defined for every destination when the source channels fit
/// in a byte.
pub proof fn lemma_over_defined_for_byte_channels(dest: u32, r: u32, g: u32, b: u32, a: u32)
    requires
        channels_fit(r, g, b, a),
    ensures
        over_defined(dest, r, g, b, a),
{
    lemma_channel_bounds(dest);
    lemma_show_through_bounds(alpha_of(dest), a);
    lemma_show_through_bounds(red_of(dest), a);
    lemma_show_through_bounds(green_of(dest), a);
    lemma_show_through_bounds(blue_of(dest), a);
}

/// Composition reads, channel by channel: each result channel is the source
/// channel plus the rounded share of the destination channel that shows
/// through, saturated at 255; and the coverage (alpha) never drops below the
/// source's.
pub proof fn lemma_over_channels(dest: u32, r: u32, g: u32, b: u32, a: u32)
    requires
        channels_fit(r, g, b, a),
        dest != 0,
    ensures
        alpha_of(over_pixel(dest, r, g, b, a)) == saturate(over_channel(a, alpha_of(dest), a)),
        red_of(over_pixel(dest, r, g, b, a)) == saturate(over_channel(r, red_of(dest), a)),
        green_of(over_pixel(dest, r, g, b, a)) == saturate(over_channel(g, green_of(dest), a)),
        blue_of(over_pixel(dest, r, g, b, a)) == saturate(over_channel(b, blue_of(dest), a)),
        alpha_of(over_pixel(dest, r, g, b, a)) >= a,
{
    lemma_channel_bounds(dest);
    lemma_show_through_bounds(alpha_of(dest), a);
    lemma_pack_unpack(
        saturate(over_channel(a, alpha_of(dest), a)),
        saturate(over_channel(r, red_of(dest), a)),
        saturate(over_channel(g, green_of(dest), a)),
        saturate(over_channel(b, blue_of(dest), a)),
    );
}

/// Over a transparent pixel the source is stored as it is.
pub proof fn lemma_over_transparent(r: u32, g: u32, b: u32, a: u32)
    ensures
        over_pixel(0, r, g, b, a) == pack_argb(a, r, g, b),
{
}

/// A fully opaque source replaces whatever was below it.
pub proof fn lemma_over_opaque(dest: u32, r: u32, g: u32, b: u32)
    requires
        channels_fit(r, g, b, 255),
    ensures
        over_pixel(dest, r, g, b, 255) == pack_argb(255, r, g, b),
{
    lemma_channel_bounds(dest);
    assert(show_through(alpha_of(dest), 255) == 0);
    assert(show_through(red_of(dest), 255) == 0);
    assert(show_through(green_of(dest), 255) == 0);
    assert(show_through(blue_of(dest), 255) == 0);
}

/// A valid premultiplied pixel: no colour channel exceeds the alpha channel.
pub open spec fn premultiplied(p: u32) -> bool {
    red_of(p) <= alpha_of(p) && green_of(p) <= alpha_of(p) && blue_of(p) <= alpha_of(p)
}

proof fn lemma_show_through_monotone(d1: u32, d2: u32, src_a: u32)
    requires
        d1 <= d2 <= 255,
        src_a <= 255,
    ensures
        show_through(d1, src_a) <= show_through(d2, src_a),
{
    let k: int = 255 - src_a;
    assert(d1 * k <= d2 * k) by (nonlinear_arith)
        requires
            d1 <= d2,
            k >= 0,
    ;
    assert((d1 * k + 127) / 255 <= (d2 * k + 127) / 255) by (nonlinear_arith)
        requires
            d1 * k <= d2 * k,
    ;
}

/// Compositing keeps the canvas premultiplied: a premultiplied source whose
/// channels fit in a byte, composited over a premultiplied pixel, gives a
/// premultiplied pixel.
pub proof fn lemma_over_keeps_premultiplied(dest: u32, r: u32, g: u32, b: u32, a: u32)
    requires
        channels_fit(r, g, b, a),
        r <= a && g <= a && b <= a,
        premultiplied(dest),
    ensures
        premultiplied(over_pixel(dest, r, g, b, a)),
{
    if dest == 0 {
        lemma_pack_unpack(a, r, g, b);
    } else {
        lemma_channel_bounds(dest);
        lemma_over_channels(dest, r, g, b, a);
        lemma_show_through_monotone(red_of(dest), alpha_of(dest), a);
        lemma_show_through_monotone(green_of(dest), alpha_of(dest), a);
        lemma_show_through_monotone(blue_of(dest), alpha_of(dest), a);
    }
}

/// A transparent canvas is premultiplied, and compositing a premultiplied
/// byte-channel source anywhere keeps every pixel premultiplied.
pub proof fn lemma_canvas_stays_premultiplied(
    canvas: Seq<u32>,
    idx: int,
    r: u32,
    g: u32,
    b: u32,
    a: u32,
)
    requires
        forall|i: int| 0 <= i < canvas.len() ==> premultiplied(#[trigger] canvas[i]),
        0 <= idx < canvas.len(),
        channels_fit(r, g, b, a),
        r <= a && g <= a && b <= a,
    ensures
        forall|i: int|
            0 <= i < canvas.len() ==> premultiplied(
                #[trigger] canvas.update(idx, over_pixel(canvas[idx], r, g, b, a))[i],
            ),
        forall|i: int| 0 <= i < transparent_canvas().len() ==> premultiplied(
            #[trigger] transparent_canvas()[i],
        ),
{
    lemma_over_keeps_premultiplied(canvas[idx], r, g, b, a);
    assert forall|i: int| 0 <= i < transparent_canvas().len() implies premultiplied(
        #[trigger] transparent_canvas()[i],
    ) by {
        lemma_channel_bounds(0u32);
        assert(alpha_of(0u32) == 0 && red_of(0u32) == 0 && green_of(0u32) == 0 && blue_of(0u32) == 0)
            by (bit_vector);
    }
}

/// A canvas with every pixel transparent.
pub open spec fn transparent_canvas() -> Seq<u32> {
    Seq::new(CANVAS_PIXELS as nat, |i: int| 0u32)
}

/// Index of the pixel at column `x` and row `y` of the canvas.
pub open spec fn spec_pixel_index(x: int, y: int) -> int {
    y * (CANVAS_SIZE as int) + x
}

/// The `CANVAS_SIZE` x `CANVAS_SIZE` premultiplied ARGB pixels of the cursor
/// sprite, row by row from the top; it always holds exactly
/// `CANVAS_PIXELS` pixels.
pub struct CursorCanvas {
    pixels: Vec<u32>,
}

impl View for CursorCanvas {
    type V = Seq<u32>;

    closed spec fn view(&self) -> Seq<u32> {
        self.pixels@
    }
}

fn transparent_pixels() -> (pixels: Vec<u32>)
    ensures
        pixels@ == transparent_canvas(),
{
    let mut pixels: Vec<u32> = Vec::new();
    let mut i: usize = 0;
    while i < CANVAS_PIXELS
        invariant
            i <= CANVAS_PIXELS,
            pixels@.len() == i,
            forall|j: int| 0 <= j < i ==> pixels@[j] == 0u32,
        decreases CANVAS_PIXELS - i,
    {
        pixels.push(0);
        i = i + 1;
    }
    assert(pixels@ =~= transparent_canvas());
    pixels
}

impl CursorCanvas {
    /// Every canvas holds exactly `CANVAS_PIXELS` pixels.
    #[verifier::type_invariant]
    spec fn holds_all_pixels(self) -> bool {
        self.pixels@.len() == CANVAS_PIXELS
    }

    /// A fully transparent canvas.
    pub fn new() -> (canvas: Self)
        ensures
            canvas@ == transparent_canvas(),
    {
        CursorCanvas { pixels: transparent_pixels() }
    }

    /// The number of pixels, always `CANVAS_PIXELS`.
    pub fn len(&self) -> (n: usize)
        ensures
            n == self@.len(),
            n == CANVAS_PIXELS,
    {
        proof {
            use_type_invariant(self);
        }
        self.pixels.len()
    }

    /// Clears the canvas to full transparency.
    pub fn clear(&mut self)
        ensures
            final(self)@ == transparent_canvas(),
    {
        self.pixels = transparent_pixels();
    }

    /// The pixel at `idx`.
    pub fn pixel(&self, idx: usize) -> (p: u32)
        requires
            idx < CANVAS_PIXELS,
        ensures
            p == self@[idx as int],
            self@.len() == CANVAS_PIXELS,
    {
        proof {
            use_type_invariant(self);
        }
        self.pixels[idx]
    }

    /// All pixels, row by row.
    pub fn pixels(&self) -> (pixels: &[u32])
        ensures
            pixels@ == self@,
            pixels@.len() == CANVAS_PIXELS,
    {
        proof {
            use_type_invariant(self);
        }
        self.pixels.as_slice()
    }

    /// Composites a premultiplied source pixel over the canvas pixel at `idx`,
    /// leaving every other pixel as it was.
    pub fn blend_over(&mut self, idx: usize, src_r: u32, src_g: u32, src_b: u32, src_a: u32)
        requires
            idx < CANVAS_PIXELS,
            over_defined(old(self)@[idx as int], src_r, src_g, src_b, src_a),
        ensures
            old(self)@.len() == CANVAS_PIXELS,
            final(self)@ == old(self)@.update(
                idx as int,
                over_pixel(old(self)@[idx as int], src_r, src_g, src_b, src_a),
            ),
    {
        proof {
            use_type_invariant(&*self);
        }
        let dest = self.pixels[idx];
        let out = blend_pixel(dest, src_r, src_g, src_b, src_a);
        self.pixels[idx] = out;
    }
}

/// Index of the pixel at column `x` and row `y`.
pub fn pixel_index(x: i32, y: i32) -> (idx: usize)
    requires
        0 <= x < CANVAS_SIZE,
        0 <= y < CANVAS_SIZE,
    ensures
        idx == spec_pixel_index(x as int, y as int),
        idx < CANVAS_PIXELS,
{
    (y * CANVAS_SIZE + x) as usize
}

/// Only the arrow follows the motion and only the hand reacts to presses;
/// every other shape is drawn upright.
pub proof fn lemma_only_arrow_rotates(kind: RenderCursorKind)
    ensures
        kind.spec_pose() == CursorPose::Oriented <==> kind == RenderCursorKind::Arrow,
        kind.spec_pose() == CursorPose::PressableUpright <==> kind == RenderCursorKind::Hand,
        kind.spec_pose() == CursorPose::Upright <==> (kind != RenderCursorKind::Arrow && kind
            != RenderCursorKind::Hand),
{
}

/// The share of a destination channel that shows through is
/// `d * (255 - src_a) / 255` rounded to the nearest integer: 255 times it is
/// within 127 of `d * (255 - src_a)`.
pub proof fn lemma_show_through_rounds_to_nearest(d: u32, src_a: u32)
    requires
        d <= 255,
        src_a <= 255,
    ensures
        -127 <= 255 * show_through(d, src_a) - d * (255 - src_a) <= 127,
{
    let x: int = d * (255 - src_a);
    lemma_show_through_bounds(d, src_a);
    let q: int = (x + 127) / 255;
    assert(255 * q <= x + 127 && x + 127 < 255 * q + 255) by (nonlinear_arith)
        requires
            q == (x + 127) / 255,
            x >= 0,
    ;
}

/// A fully transparent source leaves the pixel below it unchanged.
pub proof fn lemma_over_transparent_source(dest: u32)
    ensures
        over_pixel(dest, 0, 0, 0, 0) == dest,
{
    if dest != 0 {
        lemma_channel_bounds(dest);
        let a = alpha_of(dest);
        let r = red_of(dest);
        let g = green_of(dest);
        let b = blue_of(dest);
        assert forall|c: u32| c <= 255 implies show_through(c, 0) == c by {
            assert((c * 255 + 127) / 255 == c) by (nonlinear_arith)
                requires
                    c <= 255,
            ;
        }
        assert(saturate(over_channel(0, a, 0)) == a);
        assert(saturate(over_channel(0, r, 0)) == r);
        assert(saturate(over_channel(0, g, 0)) == g);
        assert(saturate(over_channel(0, b, 0)) == b);
        assert((a << 24u32) | (r << 16u32) | (g << 8u32) | b == dest) by (bit_vector)
            requires
                a == (dest >> 24u32) & 0xFFu32,
                r == (dest >> 16u32) & 0xFFu32,
                g == (dest >> 8u32) & 0xFFu32,
                b == dest & 0xFFu32,
        ;
        assert(pack_argb(a, r, g, b) == dest);
    } else {
        assert((0u32 << 24u32) | (0u32 << 16u32) | (0u32 << 8u32) | 0u32 == 0u32) by (bit_vector);
    }
}

} // verus!

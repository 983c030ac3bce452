//! Decoding of polled input state and detection of the cursor shape the
//! system would show under the pointer.

use vstd::prelude::*;
use crate::renderer::RenderCursorKind;
use crate::sys::{POINT, RECT, WS_THICKFRAME};

verus! {

/// A key-state word reports a key as held down when its most significant
/// bit is set, that is, when it is negative.
pub open spec fn spec_key_down(key_state: i16) -> bool {
    key_state < 0
}

/// Checks if the left mouse button is held down, given its key state.
pub fn is_left_button_down(key_state: i16) -> (down: bool)
    ensures
        down == spec_key_down(key_state),
{
    key_state < 0
}

/// The emergency fail-safe chord: Ctrl, Alt, Shift and Esc all held down.
pub open spec fn spec_emergency_chord(ctrl: i16, alt: i16, shift: i16, esc: i16) -> bool {
    spec_key_down(ctrl) && spec_key_down(alt) && spec_key_down(shift) && spec_key_down(esc)
}

/// Checks if the emergency fail-safe chord (Ctrl + Alt + Shift + Esc) is held
/// down, given the key states of the four keys. Alt is required so that the
/// chord never collides with Ctrl + Shift + Esc.
pub fn is_emergency_escape_pressed(ctrl: i16, alt: i16, shift: i16, esc: i16) -> (pressed: bool)
    ensures
        pressed == spec_emergency_chord(ctrl, alt, shift, esc),
{
    ctrl < 0 && alt < 0 && shift < 0 && esc < 0
}

/// Refresh rate assumed when the display cannot be queried.
pub const FALLBACK_REFRESH_HZ: u32 = 144;

/// The refresh rate of the primary display, given what the device reported
/// (`None` when no device context could be obtained): the reported rate when
/// positive, else `FALLBACK_REFRESH_HZ`.
pub fn get_max_display_frequency(reported_hz: Option<i32>) -> (hz: u32)
    ensures
        hz == (match reported_hz {
            Some(r) => if r > 0 {
                r as u32
            } else {
                FALLBACK_REFRESH_HZ
            },
            None => FALLBACK_REFRESH_HZ,
        }),
        0 < hz <= i32::MAX,
{
    match reported_hz {
        Some(r) => {
            if r > 0 {
                r as u32
            } else {
                FALLBACK_REFRESH_HZ
            }
        },
        None => FALLBACK_REFRESH_HZ,
    }
}

/// Distance in pixels from the pointer at which the background is probed,
/// outside the drawn sprite so that the cursor never samples itself.
pub const PROBE_RADIUS: i32 = 32;

/// The four background probe points, in a diamond around `center`: above,
/// right, below and left.
pub open spec fn spec_probe_points(center: POINT) -> Seq<POINT> {
    seq![
        POINT { x: center.x, y: (center.y - PROBE_RADIUS) as i32 },
        POINT { x: (center.x + PROBE_RADIUS) as i32, y: center.y },
        POINT { x: center.x, y: (center.y + PROBE_RADIUS) as i32 },
        POINT { x: (center.x - PROBE_RADIUS) as i32, y: center.y },
    ]
}

/// The points whose colours decide the background luminance around `center`.
pub fn luminance_probe_points(center: POINT) -> (points: Vec<POINT>)
    requires
        i32::MIN + PROBE_RADIUS <= center.x <= i32::MAX - PROBE_RADIUS,
        i32::MIN + PROBE_RADIUS <= center.y <= i32::MAX - PROBE_RADIUS,
    ensures
        points@ == spec_probe_points(center),
{
    let mut points: Vec<POINT> = Vec::new();
    points.push(POINT { x: center.x, y: center.y - PROBE_RADIUS });
    points.push(POINT { x: center.x + PROBE_RADIUS, y: center.y });
    points.push(POINT { x: center.x, y: center.y + PROBE_RADIUS });
    points.push(POINT { x: center.x - PROBE_RADIUS, y: center.y });
    assert(points@ =~= spec_probe_points(center));
    points
}

/// The red, green and blue channels of a colour value laid out as 0x00BBGGRR.
pub open spec fn spec_colorref_rgb(color: u32) -> (u32, u32, u32) {
    (color & 0xFFu32, (color >> 8u32) & 0xFFu32, (color >> 16u32) & 0xFFu32)
}

/// Splits a colour value into its red, green and blue channels.
pub fn colorref_rgb(color: u32) -> (rgb: (u32, u32, u32))
    ensures
        rgb == spec_colorref_rgb(color),
        rgb.0 <= 255 && rgb.1 <= 255 && rgb.2 <= 255,
{
    assert(color & 0xFFu32 <= 255) by (bit_vector);
    assert((color >> 8u32) & 0xFFu32 <= 255) by (bit_vector);
    assert((color >> 16u32) & 0xFFu32 <= 255) by (bit_vector);
    (color & 0xFFu32, (color >> 8u32) & 0xFFu32, (color >> 16u32) & 0xFFu32)
}

/// What is known of the window under the pointer.
pub struct WindowProbe {
    /// The window's style bits.
    pub style: u32,
    /// The window's rectangle, when it could be read.
    pub rect: Option<RECT>,
    /// The window's class name in UTF-16 code units (empty if unknown).
    pub class_name: Vec<u16>,
}

/// Distance in pixels from a window edge within which the pointer is on a
/// resize border.
pub const RESIZE_BORDER: i32 = 8;

/// Whether two coordinates lie within `RESIZE_BORDER` of each other.
pub open spec fn near(a: i32, b: i32) -> bool {
    -(RESIZE_BORDER as int) <= a - b <= RESIZE_BORDER as int
}

/// The resize cursor for a pointer on the border of a resizable window:
/// diagonal in the corners, horizontal on the left and right edges,
/// vertical on the top and bottom edges; `None` away from the border.
pub open spec fn spec_border_kind(pt: POINT, rect: RECT) -> Option<RenderCursorKind> {
    let on_left = near(pt.x, rect.left);
    let on_right = near(rect.right, pt.x);
    let on_top = near(pt.y, rect.top);
    let on_bottom = near(rect.bottom, pt.y);
    if on_top && on_left {
        Some(RenderCursorKind::ResizeNWSE)
    } else if on_top && on_right {
        Some(RenderCursorKind::ResizeNESW)
    } else if on_bottom && on_left {
        Some(RenderCursorKind::ResizeNESW)
    } else if on_bottom && on_right {
        Some(RenderCursorKind::ResizeNWSE)
    } else if on_left || on_right {
        Some(RenderCursorKind::ResizeWE)
    } else if on_top || on_bottom {
        Some(RenderCursorKind::ResizeNS)
    } else {
        None
    }
}

/// ASCII upper-case letters mapped to lower case, other code units kept.
pub open spec fn spec_ascii_lower(u: u16) -> u16 {
    if 65 <= u <= 90 {
        (u + 32) as u16
    } else {
        u
    }
}

/// `needle` occurs at `start` in `hay` once `hay` is ASCII-lower-cased.
pub open spec fn lowered_matches_at(hay: Seq<u16>, needle: Seq<u16>, start: int) -> bool {
    &&& 0 <= start
    &&& start + needle.len() <= hay.len()
    &&& forall|j: int| 0 <= j < needle.len() ==> spec_ascii_lower(hay[start + j]) == needle[j]
}

/// `needle` occurs somewhere in `hay` once `hay` is ASCII-lower-cased.
pub open spec fn lowered_contains(hay: Seq<u16>, needle: Seq<u16>) -> bool {
    exists|start: int| lowered_matches_at(hay, needle, start)
}

/// "edit"
pub open spec fn edit_word() -> Seq<u16> {
    seq![101u16, 100u16, 105u16, 116u16]
}

/// "textbox"
pub open spec fn textbox_word() -> Seq<u16> {
    seq![116u16, 101u16, 120u16, 116u16, 98u16, 111u16, 120u16]
}

/// "scintilla"
pub open spec fn scintilla_word() -> Seq<u16> {
    seq![115u16, 99u16, 105u16, 110u16, 116u16, 105u16, 108u16, 108u16, 97u16]
}

/// A window class that takes text input: its name contains "edit",
/// "textbox" or "scintilla", ignoring ASCII case. (The words are ASCII, so
/// matching on UTF-16 code units agrees with matching on the decoded name.)
pub open spec fn spec_is_text_class(name: Seq<u16>) -> bool {
    lowered_contains(name, edit_word()) || lowered_contains(name, textbox_word())
        || lowered_contains(name, scintilla_word())
}

/// The shape a window imposes at `pt`: a resize shape on the border of a
/// resizable window whose rectangle is known, else a text cursor over a text
/// input class, else nothing.
pub open spec fn spec_window_kind(
    pt: POINT,
    style: u32,
    rect: Option<RECT>,
    class_name: Seq<u16>,
) -> Option<RenderCursorKind> {
    let border = if style & WS_THICKFRAME != 0 && rect is Some {
        spec_border_kind(pt, rect.unwrap())
    } else {
        None
    };
    if border is Some {
        border
    } else if spec_is_text_class(class_name) {
        Some(RenderCursorKind::IBeam)
    } else {
        None
    }
}

/// The cursor shape the system shows at `pt`: what the window under it
/// imposes, otherwise the hand while clicking with hand-on-click enabled,
/// otherwise the arrow.
pub open spec fn spec_detect(
    pt: POINT,
    window: Option<(u32, Option<RECT>, Seq<u16>)>,
    is_clicking: bool,
    is_hand_on_click: bool,
) -> RenderCursorKind {
    let imposed = match window {
        Some(w) => spec_window_kind(pt, w.0, w.1, w.2),
        None => None,
    };
    if imposed is Some {
        imposed.unwrap()
    } else if is_clicking && is_hand_on_click {
        RenderCursorKind::Hand
    } else {
        RenderCursorKind::Arrow
    }
}

/// A coordinate difference that 32-bit arithmetic can take the absolute
/// value of.
pub open spec fn fits_abs_i32(d: int) -> bool {
    i32::MIN < d <= i32::MAX
}

/// Inputs on which the border test stays within 32-bit arithmetic: when the
/// window is resizable and its rectangle known, each distance from the
/// pointer to an edge, and its absolute value, fits in an `i32`.
pub open spec fn detection_defined(pt: POINT, window: Option<(u32, Option<RECT>, Seq<u16>)>) -> bool {
    match window {
        Some(w) => (w.0 & WS_THICKFRAME != 0 && w.1 is Some) ==> {
            let rect = w.1.unwrap();
            &&& fits_abs_i32(pt.x - rect.left)
            &&& fits_abs_i32(rect.right - pt.x)
            &&& fits_abs_i32(pt.y - rect.top)
            &&& fits_abs_i32(rect.bottom - pt.y)
        },
        None => true,
    }
}

/// The plain model of a window probe.
pub open spec fn probe_model(window: Option<WindowProbe>) -> Option<(u32, Option<RECT>, Seq<u16>)> {
    match window {
        Some(w) => Some((w.style, w.rect, w.class_name@)),
        None => None,
    }
}

fn near_exec(a: i32, b: i32) -> (r: bool)
    ensures
        r == near(a, b),
{
    let d: i64 = a as i64 - b as i64;
    -8 <= d && d <= 8
}

fn border_kind(pt: POINT, rect: RECT) -> (kind: Option<RenderCursorKind>)
    ensures
        kind == spec_border_kind(pt, rect),
{
    let on_left = near_exec(pt.x, rect.left);
    let on_right = near_exec(rect.right, pt.x);
    let on_top = near_exec(pt.y, rect.top);
    let on_bottom = near_exec(rect.bottom, pt.y);
    if on_top && on_left {
        Some(RenderCursorKind::ResizeNWSE)
    } else if on_top && on_right {
        Some(RenderCursorKind::ResizeNESW)
    } else if on_bottom && on_left {
        Some(RenderCursorKind::ResizeNESW)
    } else if on_bottom && on_right {
        Some(RenderCursorKind::ResizeNWSE)
    } else if on_left || on_right {
        Some(RenderCursorKind::ResizeWE)
    } else if on_top || on_bottom {
        Some(RenderCursorKind::ResizeNS)
    } else {
        None
    }
}

fn ascii_lower(u: u16) -> (l: u16)
    ensures
        l == spec_ascii_lower(u),
{
    if 65 <= u && u <= 90 {
        u + 32
    } else {
        u
    }
}

fn lowered_matches_at_exec(hay: &[u16], needle: &[u16], start: usize) -> (m: bool)
    requires
        start + needle@.len() <= hay@.len(),
    ensures
        m == lowered_matches_at(hay@, needle@, start as int),
{
    let hay_len = hay.len();
    let mut j: usize = 0;
    while j < needle.len()
        invariant
            hay_len == hay@.len(),
            start + needle@.len() <= hay@.len(),
            j <= needle@.len(),
            forall|k: int| 0 <= k < j ==> spec_ascii_lower(hay@[start + k]) == needle@[k],
        decreases needle@.len() - j,
    {
        if ascii_lower(hay[start + j]) != needle[j] {
            return false;
        }
        j = j + 1;
    }
    true
}

/// Checks if `needle` occurs in `hay` once `hay` is ASCII-lower-cased.
pub fn contains_lowered(hay: &[u16], needle: &[u16]) -> (found: bool)
    ensures
        found == lowered_contains(hay@, needle@),
{
    if needle.len() > hay.len() {
        assert forall|start: int| !lowered_matches_at(hay@, needle@, start) by {}
        return false;
    }
    if needle.len() == 0 {
        assert(lowered_matches_at(hay@, needle@, 0));
        return true;
    }
    let hay_len = hay.len();
    let last = hay_len - needle.len();
    let mut start: usize = 0;
    while start <= last
        invariant
            hay_len == hay@.len(),
            last < hay_len,
            needle@.len() > 0,
            last == hay@.len() - needle@.len(),
            start <= last + 1,
            forall|s: int| 0 <= s < start ==> !lowered_matches_at(hay@, needle@, s),
        decreases last + 1 - start,
    {
        if lowered_matches_at_exec(hay, needle, start) {
            return true;
        }
        start = start + 1;
    }
    assert forall|s: int| !lowered_matches_at(hay@, needle@, s) by {
        if 0 <= s < start {
        }
    }
    false
}

/// Checks if a window class name denotes a text input.
pub fn is_text_class(name: &[u16]) -> (text: bool)
    ensures
        text == spec_is_text_class(name@),
{
    let edit: [u16; 4] = [101, 100, 105, 116];
    let textbox: [u16; 7] = [116, 101, 120, 116, 98, 111, 120];
    let scintilla: [u16; 9] = [115, 99, 105, 110, 116, 105, 108, 108, 97];
    assert(edit@ =~= edit_word());
    assert(textbox@ =~= textbox_word());
    assert(scintilla@ =~= scintilla_word());
    contains_lowered(name, edit.as_slice()) || contains_lowered(name, textbox.as_slice())
        || contains_lowered(name, scintilla.as_slice())
}

/// Detects the active system cursor design from the geometry and class of
/// the window under the pointer (`None` when there is no such window),
/// without sending any message to it.
pub fn detect_system_cursor(
    pt: POINT,
    window: &Option<WindowProbe>,
    is_clicking: bool,
    is_hand_on_click: bool,
) -> (kind: RenderCursorKind)
    requires
        detection_defined(pt, probe_model(*window)),
    ensures
        kind == spec_detect(pt, probe_model(*window), is_clicking, is_hand_on_click),
{
    match window {
        Some(w) => {
            if w.style & WS_THICKFRAME != 0 {
                match w.rect {
                    Some(rect) => {
                        match border_kind(pt, rect) {
                            Some(kind) => {
                                return kind;
                            },
                            None => {},
                        }
                    },
                    None => {},
                }
            }
            if is_text_class(w.class_name.as_slice()) {
                return RenderCursorKind::IBeam;
            }
        },
        None => {},
    }
    if is_clicking && is_hand_on_click {
        RenderCursorKind::Hand
    } else {
        RenderCursorKind::Arrow
    }
}

/// Ctrl + Shift + Esc without Alt (the task manager shortcut) never counts
/// as the emergency chord.
pub proof fn lemma_task_manager_shortcut_is_not_emergency(
    ctrl: i16,
    alt: i16,
    shift: i16,
    esc: i16,
)
    requires
        !spec_key_down(alt),
    ensures
        !spec_emergency_chord(ctrl, alt, shift, esc),
{
}

/// The hand is shown only while clicking with hand-on-click enabled; with no
/// window under the pointer the shape is the hand when clicking with it
/// enabled and the arrow otherwise.
pub proof fn lemma_hand_only_on_click(
    pt: POINT,
    window: Option<(u32, Option<RECT>, Seq<u16>)>,
    is_clicking: bool,
    is_hand_on_click: bool,
)
    ensures
        spec_detect(pt, window, is_clicking, is_hand_on_click) == RenderCursorKind::Hand
            ==> is_clicking && is_hand_on_click,
        spec_detect(pt, None, is_clicking, is_hand_on_click) == (if is_clicking
            && is_hand_on_click {
            RenderCursorKind::Hand
        } else {
            RenderCursorKind::Arrow
        }),
{
}

/// On the border of a resizable window the resize shape wins over the
/// window's class and over clicking.
pub proof fn lemma_border_takes_precedence(
    pt: POINT,
    style: u32,
    rect: RECT,
    class_name: Seq<u16>,
    is_clicking: bool,
    is_hand_on_click: bool,
)
    requires
        style & WS_THICKFRAME != 0,
        spec_border_kind(pt, rect) is Some,
    ensures
        spec_detect(pt, Some((style, Some(rect), class_name)), is_clicking, is_hand_on_click)
            == spec_border_kind(pt, rect).unwrap(),
{
}

/// The corners of a window more than `RESIZE_BORDER` pixels wide and high
/// get the diagonal shapes: top-left and bottom-right resize along one
/// diagonal, top-right and bottom-left along the other.
pub proof fn lemma_corner_shapes(rect: RECT)
    requires
        rect.right as int - rect.left as int > RESIZE_BORDER,
        rect.bottom as int - rect.top as int > RESIZE_BORDER,
    ensures
        spec_border_kind(POINT { x: rect.left, y: rect.top }, rect) == Some(
            RenderCursorKind::ResizeNWSE,
        ),
        spec_border_kind(POINT { x: rect.right, y: rect.bottom }, rect) == Some(
            RenderCursorKind::ResizeNWSE,
        ),
        spec_border_kind(POINT { x: rect.right, y: rect.top }, rect) == Some(
            RenderCursorKind::ResizeNESW,
        ),
        spec_border_kind(POINT { x: rect.left, y: rect.bottom }, rect) == Some(
            RenderCursorKind::ResizeNESW,
        ),
{
}

proof fn lemma_lower_idempotent(u: u16)
    ensures
        spec_ascii_lower(spec_ascii_lower(u)) == spec_ascii_lower(u),
{
}

proof fn lemma_lowered_contains_ignores_case(hay: Seq<u16>, needle: Seq<u16>)
    ensures
        lowered_contains(hay, needle) == lowered_contains(
            hay.map_values(|u: u16| spec_ascii_lower(u)),
            needle,
        ),
{
    let low = hay.map_values(|u: u16| spec_ascii_lower(u));
    if lowered_contains(hay, needle) {
        let s = choose|s: int| lowered_matches_at(hay, needle, s);
        assert forall|j: int| 0 <= j < needle.len() implies spec_ascii_lower(low[s + j])
            == needle[j] by {
            lemma_lower_idempotent(hay[s + j]);
        }
        assert(lowered_matches_at(low, needle, s));
    }
    if lowered_contains(low, needle) {
        let s = choose|s: int| lowered_matches_at(low, needle, s);
        assert forall|j: int| 0 <= j < needle.len() implies spec_ascii_lower(hay[s + j])
            == needle[j] by {
            lemma_lower_idempotent(hay[s + j]);
        }
        assert(lowered_matches_at(hay, needle, s));
    }
}

/// Text-input detection ignores the ASCII case of the class name.
pub proof fn lemma_text_class_ignores_case(name: Seq<u16>)
    ensures
        spec_is_text_class(name) == spec_is_text_class(
            name.map_values(|u: u16| spec_ascii_lower(u)),
        ),
{
    lemma_lowered_contains_ignores_case(name, edit_word());
    lemma_lowered_contains_ignores_case(name, textbox_word());
    lemma_lowered_contains_ignores_case(name, scintilla_word());
}

/// Away from a resize border, any window whose class name contains "edit",
/// "textbox" or "scintilla" (ignoring ASCII case) gives the I-beam, whatever
/// its style and whether the button is held; any other window gives the hand
/// while clicking with hand-on-click enabled and the arrow otherwise.
pub proof fn lemma_text_class_gives_ibeam(
    pt: POINT,
    style: u32,
    rect: Option<RECT>,
    name: Seq<u16>,
    is_clicking: bool,
    is_hand_on_click: bool,
)
    requires
        !(style & WS_THICKFRAME != 0 && rect is Some && spec_border_kind(pt, rect.unwrap()) is Some),
    ensures
        (lowered_contains(name, seq![101u16, 100u16, 105u16, 116u16]) || lowered_contains(
            name,
            seq![116u16, 101u16, 120u16, 116u16, 98u16, 111u16, 120u16],
        ) || lowered_contains(
            name,
            seq![115u16, 99u16, 105u16, 110u16, 116u16, 105u16, 108u16, 108u16, 97u16],
        )) ==> spec_detect(pt, Some((style, rect, name)), is_clicking, is_hand_on_click)
            == RenderCursorKind::IBeam,
        !spec_is_text_class(name) ==> spec_detect(
            pt,
            Some((style, rect, name)),
            is_clicking,
            is_hand_on_click,
        ) == (if is_clicking && is_hand_on_click {
            RenderCursorKind::Hand
        } else {
            RenderCursorKind::Arrow
        }),
{
    assert(edit_word() =~= seq![101u16, 100u16, 105u16, 116u16]);
    assert(textbox_word() =~= seq![116u16, 101u16, 120u16, 116u16, 98u16, 111u16, 120u16]);
    assert(scintilla_word() =~= seq![
        115u16, 99u16, 105u16, 110u16, 116u16, 105u16, 108u16, 108u16, 97u16,
    ]);
}

/// A key counts as held down exactly when the most significant bit of its
/// key-state word is set; the emergency chord needs that bit in all four
/// words.
pub proof fn lemma_key_down_is_high_bit(k: i16, ctrl: i16, alt: i16, shift: i16, esc: i16)
    ensures
        spec_key_down(k) <==> (k as u16) & 0x8000u16 != 0,
        spec_emergency_chord(ctrl, alt, shift, esc) <==> ((ctrl as u16) & 0x8000u16 != 0
            && (alt as u16) & 0x8000u16 != 0 && (shift as u16) & 0x8000u16 != 0 && (esc as u16)
            & 0x8000u16 != 0),
{
    assert((k < 0) <==> ((k as u16) & 0x8000u16 != 0)) by (bit_vector);
    assert((ctrl < 0) <==> ((ctrl as u16) & 0x8000u16 != 0)) by (bit_vector);
    assert((alt < 0) <==> ((alt as u16) & 0x8000u16 != 0)) by (bit_vector);
    assert((shift < 0) <==> ((shift as u16) & 0x8000u16 != 0)) by (bit_vector);
    assert((esc < 0) <==> ((esc as u16) & 0x8000u16 != 0)) by (bit_vector);
}

/// Lower-casing changes exactly the ASCII capitals, each to the letter 32
/// code units above it, and never leaves a capital behind.
pub proof fn lemma_ascii_lower_shape(u: u16)
    ensures
        (65 <= u <= 90) ==> spec_ascii_lower(u) == u + 32,
        !(65 <= u <= 90) ==> spec_ascii_lower(u) == u,
        !(65 <= spec_ascii_lower(u) <= 90),
{
}

/// Colour channels come back as laid out: red in the low byte, then green,
/// then blue.
pub proof fn lemma_colorref_channels(r: u32, g: u32, b: u32)
    requires
        r <= 255 && g <= 255 && b <= 255,
    ensures
        spec_colorref_rgb((b << 16u32) | (g << 8u32) | r) == (r, g, b),
{
    assert(((b << 16u32) | (g << 8u32) | r) & 0xFFu32 == r) by (bit_vector)
        requires
            r <= 255 && g <= 255 && b <= 255,
    ;
    assert((((b << 16u32) | (g << 8u32) | r) >> 8u32) & 0xFFu32 == g) by (bit_vector)
        requires
            r <= 255 && g <= 255 && b <= 255,
    ;
    assert((((b << 16u32) | (g << 8u32) | r) >> 16u32) & 0xFFu32 == b) by (bit_vector)
        requires
            r <= 255 && g <= 255 && b <= 255,
    ;
}

/// On an edge of a resizable window away from its corners the shape is the
/// straight resize along that edge's normal: horizontal on the left and
/// right edges, vertical on the top and bottom edges; a pointer more than
/// `RESIZE_BORDER` pixels inside every edge is on no border.
pub proof fn lemma_edge_shapes(rect: RECT, pt: POINT)
    requires
        rect.left as int + RESIZE_BORDER < pt.x < rect.right as int - RESIZE_BORDER
            || rect.top as int + RESIZE_BORDER < pt.y < rect.bottom as int - RESIZE_BORDER,
    ensures
        rect.top as int + RESIZE_BORDER < pt.y < rect.bottom as int - RESIZE_BORDER && (near(
            pt.x,
            rect.left,
        ) || near(rect.right, pt.x)) ==> spec_border_kind(pt, rect) == Some(
            RenderCursorKind::ResizeWE,
        ),
        rect.left as int + RESIZE_BORDER < pt.x < rect.right as int - RESIZE_BORDER && (near(
            pt.y,
            rect.top,
        ) || near(rect.bottom, pt.y)) ==> spec_border_kind(pt, rect) == Some(
            RenderCursorKind::ResizeNS,
        ),
        rect.left as int + RESIZE_BORDER < pt.x < rect.right as int - RESIZE_BORDER
            && rect.top as int + RESIZE_BORDER < pt.y < rect.bottom as int - RESIZE_BORDER
            ==> spec_border_kind(pt, rect) is None,
        near(pt.x, rect.left) <==> -8 <= pt.x - rect.left <= 8,
{
}

} // verus!

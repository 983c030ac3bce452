//! Fail-safe system cursor management.
//!
//! While the smooth cursor is active every standard system cursor is replaced
//! by a fully transparent one. This module holds the protocol that decides
//! when the default cursors must be reloaded: a reload is requested exactly
//! once per successful hiding, however many times restoration is asked for
//! (clean exit, pause, panic hook, emergency hotkey).

use vstd::prelude::*;

verus! {

/// The resource identifiers of every standard system cursor, in the order in
/// which they are replaced: OCR_NORMAL, OCR_IBEAM, OCR_WAIT, OCR_CROSS,
/// OCR_UP, OCR_SIZE, OCR_ICON, OCR_SIZENWSE, OCR_SIZENESW, OCR_SIZEWE,
/// OCR_SIZENS, OCR_SIZEALL, OCR_NO, OCR_HAND, OCR_APPSTARTING.
pub open spec fn spec_system_cursor_ids() -> Seq<u32> {
    seq![
        32512u32, 32513u32, 32514u32, 32515u32, 32516u32, 32640u32, 32641u32, 32642u32,
        32643u32, 32644u32, 32645u32, 32646u32, 32648u32, 32649u32, 32650u32,
    ]
}

/// Lists the system cursor identifiers that hiding replaces.
pub fn system_cursor_ids() -> (ids: Vec<u32>)
    ensures
        ids@ == spec_system_cursor_ids(),
{
    let ids: Vec<u32> = vec![
        32512, 32513, 32514, 32515, 32516, 32640, 32641, 32642, 32643, 32644, 32645, 32646,
        32648, 32649, 32650,
    ];
    ids
}

/// Width and height in pixels of the transparent replacement cursor.
pub const BLANK_CURSOR_DIM: i32 = 32;

/// Bytes in each 1-bit mask of the 32x32 transparent cursor (32 rows of 4 bytes).
pub const BLANK_CURSOR_MASK_LEN: usize = 128;

/// A mask of `BLANK_CURSOR_MASK_LEN` bytes, each equal to `byte`.
pub open spec fn uniform_mask(byte: u8) -> Seq<u8> {
    Seq::new(BLANK_CURSOR_MASK_LEN as nat, |i: int| byte)
}

fn filled_mask(byte: u8) -> (mask: Vec<u8>)
    ensures
        mask@ == uniform_mask(byte),
{
    let mut mask: Vec<u8> = Vec::new();
    let mut i: usize = 0;
    while i < BLANK_CURSOR_MASK_LEN
        invariant
            i <= BLANK_CURSOR_MASK_LEN,
            mask@.len() == i,
            forall|j: int| 0 <= j < i ==> mask@[j] == byte,
        decreases BLANK_CURSOR_MASK_LEN - i,
    {
        mask.push(byte);
        i = i + 1;
    }
    assert(mask@ =~= uniform_mask(byte));
    mask
}

/// The AND mask of the transparent cursor: every bit set, so the background
/// is preserved everywhere.
pub fn blank_cursor_and_mask() -> (mask: Vec<u8>)
    ensures
        mask@ == uniform_mask(0xFF),
{
    filled_mask(0xFF)
}

/// The XOR mask of the transparent cursor: every bit clear, so no pixel is
/// inverted.
pub fn blank_cursor_xor_mask() -> (mask: Vec<u8>)
    ensures
        mask@ == uniform_mask(0x00),
{
    filled_mask(0x00)
}

/// Hidden flag after a restore request, and whether that request must reload
/// the default system cursors, given the hidden flag before it.
pub open spec fn spec_restore(hidden: bool) -> (bool, bool) {
    (false, hidden)
}

/// Hidden flag after a hiding attempt, given the flag before it and whether
/// the transparent cursor could be created.
pub open spec fn spec_hide(hidden: bool, blank_cursor_created: bool) -> bool {
    hidden || blank_cursor_created
}

/// Whether the system cursors are currently replaced by the transparent one.
pub struct CursorHideState {
    hidden: bool,
}

impl CursorHideState {
    /// The model of the state: true while the system cursors are hidden.
    pub closed spec fn is_hidden(&self) -> bool {
        self.hidden
    }

    /// The state at start-up: nothing is hidden.
    pub fn new() -> (state: Self)
        ensures
            !state.is_hidden(),
    {
        CursorHideState { hidden: false }
    }
}

/// Checks if the system cursors are currently hidden.
pub fn is_cursor_hidden(state: &CursorHideState) -> (hidden: bool)
    ensures
        hidden == state.is_hidden(),
{
    state.hidden
}

/// Marks the system cursors as restored and tells whether the default
/// cursors must be reloaded now: only if they were hidden, so that repeated
/// requests (tray exit, pause, panic hook, guard release) reload them once.
pub fn restore_system_cursors(state: &mut CursorHideState) -> (must_reload: bool)
    ensures
        (final(state).is_hidden(), must_reload) == spec_restore(old(state).is_hidden()),
{
    let was_hidden = state.hidden;
    state.hidden = false;
    was_hidden
}

/// Proof of a completed hiding; handing it back restores the system cursors.
pub struct SystemCursorGuard {
    _private: (),
}

impl SystemCursorGuard {
    /// Completes a hiding attempt once every system cursor has been replaced:
    /// without a transparent cursor nothing was replaced and no guard is
    /// given; otherwise the cursors count as hidden and a guard is returned.
    pub fn hide_system_cursors(state: &mut CursorHideState, blank_cursor_created: bool) -> (guard: Option<
        SystemCursorGuard,
    >)
        ensures
            guard is Some <==> blank_cursor_created,
            final(state).is_hidden() == spec_hide(old(state).is_hidden(), blank_cursor_created),
    {
        if !blank_cursor_created {
            return None;
        }
        state.hidden = true;
        Some(SystemCursorGuard { _private: () })
    }

    /// Gives the guard up, restoring the system cursors; returns whether the
    /// default cursors must be reloaded now.
    pub fn release(self, state: &mut CursorHideState) -> (must_reload: bool)
        ensures
            (final(state).is_hidden(), must_reload) == spec_restore(old(state).is_hidden()),
    {
        restore_system_cursors(state)
    }
}

/// A restore request after another one never reloads the cursors again, and
/// leaves the state as the first one left it.
pub proof fn lemma_restore_is_idempotent(hidden: bool)
    ensures
        !spec_restore(spec_restore(hidden).0).1,
        spec_restore(spec_restore(hidden).0).0 == spec_restore(hidden).0,
{
}

/// After a successful hiding the cursors count as hidden, and the next
/// restore request reloads the default cursors.
pub proof fn lemma_hide_then_restore_reloads(hidden: bool)
    ensures
        spec_hide(hidden, true),
        spec_restore(spec_hide(hidden, true)).1,
        !spec_restore(spec_hide(hidden, true)).0,
{
}

/// A failed hiding attempt leaves the state unchanged.
pub proof fn lemma_failed_hide_changes_nothing(hidden: bool)
    ensures
        spec_hide(hidden, false) == hidden,
{
}

/// An event of the hiding protocol: a hiding attempt (with whether the
/// transparent cursor could be created), or a restore request (including a
/// guard being released).
pub enum HideEvent {
    Hide(bool),
    Restore,
}

/// The hidden flag after a history of events, starting from start-up (not
/// hidden).
pub open spec fn hidden_after(events: Seq<HideEvent>) -> bool
    decreases events.len(),
{
    if events.len() == 0 {
        false
    } else {
        let before = hidden_after(events.drop_last());
        match events.last() {
            HideEvent::Hide(created) => spec_hide(before, created),
            HideEvent::Restore => spec_restore(before).0,
        }
    }
}

/// The event at `i` is a successful hiding.
pub open spec fn successful_hide_at(events: Seq<HideEvent>, i: int) -> bool {
    0 <= i < events.len() && events[i] is Hide && events[i]->Hide_0
}

/// No restore request follows position `i`.
pub open spec fn no_restore_after(events: Seq<HideEvent>, i: int) -> bool {
    forall|j: int| i < j < events.len() ==> !(#[trigger] events[j] is Restore)
}

/// Some successful hiding in the history has not been followed by a restore.
pub open spec fn unrestored_hide(events: Seq<HideEvent>) -> bool {
    exists|i: int| #[trigger] successful_hide_at(events, i) && no_restore_after(events, i)
}

/// After any history of hiding attempts and restore requests the cursors
/// count as hidden exactly when some successful hiding has not been followed
/// by a restore; with no history they are not hidden.
#[verifier::rlimit(30)]
pub proof fn lemma_hidden_after_history(events: Seq<HideEvent>)
    ensures
        hidden_after(events) == unrestored_hide(events),
        hidden_after(Seq::<HideEvent>::empty()) == false,
    decreases events.len(),
{
    if events.len() == 0 {
        return;
    }
    let prefix = events.drop_last();
    let n = events.len() - 1;
    lemma_hidden_after_history(prefix);
    if events[n] is Restore {
        assert forall|i: int| successful_hide_at(events, i) implies !no_restore_after(events, i) by {
            assert(events[n] is Restore);
        }
    } else if events[n]->Hide_0 {
        assert(successful_hide_at(events, n));
        assert(no_restore_after(events, n));
    } else {
        if unrestored_hide(prefix) {
            let i = choose|i: int| #[trigger] successful_hide_at(prefix, i) && no_restore_after(prefix, i);
            assert(prefix[i] == events[i]);
            assert(successful_hide_at(events, i));
            assert forall|j: int| i < j < events.len() implies !(#[trigger] events[j] is Restore) by {
                if j < n {
                    assert(prefix[j] == events[j]);
                    assert(!(prefix[j] is Restore));
                }
            }
            assert(no_restore_after(events, i));
        }
        if unrestored_hide(events) {
            let i = choose|i: int| #[trigger] successful_hide_at(events, i) && no_restore_after(events, i);
            assert(i != n);
            assert(prefix[i] == events[i]);
            assert(successful_hide_at(prefix, i));
            assert forall|j: int| i < j < prefix.len() implies !(#[trigger] prefix[j] is Restore) by {
                assert(prefix[j] == events[j]);
                assert(!(events[j] is Restore));
            }
            assert(no_restore_after(prefix, i));
        }
    }
}

} // verus!

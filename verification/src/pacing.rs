//! Decisions of the render loop: pause transitions, frame budget, when to
//! reinforce the topmost order and when the loop may idle.

use vstd::prelude::*;

verus! {

/// A change in the paused setting seen by the render loop.
#[derive(Debug, Clone, Copy, PartialEq, Eq, Structural)]
pub enum PauseTransition {
    /// Same as at the previous frame.
    Unchanged,
    /// Just paused: restore the system cursors and clear the overlay.
    Paused,
    /// Just resumed: hide the system cursors again.
    Resumed,
}

/// The transition reported when the paused setting reads `now` after `before`.
pub open spec fn spec_transition(before: bool, now: bool) -> PauseTransition {
    if before == now {
        PauseTransition::Unchanged
    } else if now {
        PauseTransition::Paused
    } else {
        PauseTransition::Resumed
    }
}

/// What the render loop does on one iteration.
#[derive(Debug, Clone, Copy, PartialEq, Eq, Structural)]
pub enum LoopAction {
    /// Leave the loop (exit requested from the tray or emergency chord).
    Exit,
    /// Just paused: restore the system cursors, clear the overlay, sleep.
    EnterPause,
    /// Still paused: sleep.
    StayPaused,
    /// Just resumed: hide the system cursors again, then draw a frame.
    Resume,
    /// Draw a frame.
    Render,
}

/// The loop's action given the previous paused setting and this iteration's
/// exit request, emergency chord and paused setting.
pub open spec fn spec_loop_action(
    was_paused: bool,
    exit_requested: bool,
    emergency: bool,
    is_paused: bool,
) -> LoopAction {
    if exit_requested || emergency {
        LoopAction::Exit
    } else {
        match spec_transition(was_paused, is_paused) {
            PauseTransition::Paused => LoopAction::EnterPause,
            PauseTransition::Resumed => LoopAction::Resume,
            PauseTransition::Unchanged => if is_paused {
                LoopAction::StayPaused
            } else {
                LoopAction::Render
            },
        }
    }
}

/// Remembers the paused setting of the previous frame.
pub struct PauseTracker {
    was_paused: bool,
}

impl View for PauseTracker {
    type V = bool;

    closed spec fn view(&self) -> bool {
        self.was_paused
    }
}

impl PauseTracker {
    /// A tracker for a loop that starts running (not paused).
    pub fn new() -> (tracker: Self)
        ensures
            !tracker@,
    {
        PauseTracker { was_paused: false }
    }

    /// Records the paused setting of this frame and reports the change.
    pub fn observe(&mut self, is_paused: bool) -> (transition: PauseTransition)
        ensures
            transition == spec_transition(old(self)@, is_paused),
            final(self)@ == is_paused,
    {
        let before = self.was_paused;
        self.was_paused = is_paused;
        if before == is_paused {
            PauseTransition::Unchanged
        } else if is_paused {
            PauseTransition::Paused
        } else {
            PauseTransition::Resumed
        }
    }
}

impl PauseTracker {
    /// Decides one iteration of the render loop. Exit requests are checked
    /// first and leave the remembered setting alone; otherwise the paused
    /// setting is recorded and its change decides the action.
    pub fn step(&mut self, exit_requested: bool, emergency: bool, is_paused: bool) -> (action:
        LoopAction)
        ensures
            action == spec_loop_action(old(self)@, exit_requested, emergency, is_paused),
            final(self)@ == (if exit_requested || emergency {
                old(self)@
            } else {
                is_paused
            }),
    {
        if exit_requested || emergency {
            return LoopAction::Exit;
        }
        match self.observe(is_paused) {
            PauseTransition::Paused => LoopAction::EnterPause,
            PauseTransition::Resumed => LoopAction::Resume,
            PauseTransition::Unchanged => {
                if is_paused {
                    LoopAction::StayPaused
                } else {
                    LoopAction::Render
                }
            },
        }
    }
}

/// While paused nothing is drawn, and an exit request always ends the loop.
pub proof fn lemma_paused_loop_never_renders(
    was_paused: bool,
    exit_requested: bool,
    emergency: bool,
    is_paused: bool,
)
    ensures
        is_paused ==> spec_loop_action(was_paused, exit_requested, emergency, is_paused)
            != LoopAction::Render && spec_loop_action(
            was_paused,
            exit_requested,
            emergency,
            is_paused,
        ) != LoopAction::Resume,
        exit_requested || emergency ==> spec_loop_action(
            was_paused,
            exit_requested,
            emergency,
            is_paused,
        ) == LoopAction::Exit,
{
}

/// Lowest display rate the frame budget assumes.
pub const MIN_DISPLAY_HZ: u32 = 60;

/// Lowest frame rate the fallback loop targets.
pub const MIN_TARGET_FPS: u32 = 120;

/// Highest frame rate the fallback loop targets.
pub const MAX_TARGET_FPS: u32 = 500;

/// The frame rate the fallback loop targets: twice the display rate (taken
/// as at least `MIN_DISPLAY_HZ`), kept between `MIN_TARGET_FPS` and
/// `MAX_TARGET_FPS`.
pub open spec fn spec_target_fps(display_hz: u32) -> int {
    let hz: int = if display_hz < MIN_DISPLAY_HZ {
        MIN_DISPLAY_HZ as int
    } else {
        display_hz as int
    };
    let doubled = hz * 2;
    if doubled < MIN_TARGET_FPS {
        MIN_TARGET_FPS as int
    } else if doubled > MAX_TARGET_FPS {
        MAX_TARGET_FPS as int
    } else {
        doubled
    }
}

/// Microseconds available per frame of the fallback loop.
pub fn frame_budget_micros(display_hz: u32) -> (micros: u64)
    requires
        display_hz <= u32::MAX / 2,
    ensures
        micros == 1_000_000int / spec_target_fps(display_hz),
        2000 <= micros <= 8333,
{
    let hz = if display_hz < MIN_DISPLAY_HZ {
        MIN_DISPLAY_HZ
    } else {
        display_hz
    };
    let doubled = hz * 2;
    let fps = if doubled < MIN_TARGET_FPS {
        MIN_TARGET_FPS
    } else if doubled > MAX_TARGET_FPS {
        MAX_TARGET_FPS
    } else {
        doubled
    };
    assert(1_000_000int / (fps as int) <= 8333 && 1_000_000int / (fps as int) >= 2000) by (
    nonlinear_arith)
        requires
            120 <= fps <= 500,
    ;
    1_000_000 / (fps as u64)
}

/// Frames between reinforcements of the topmost window order.
pub const TOPMOST_REINFORCE_PERIOD: u64 = 120;

/// Whether the topmost window order is reinforced on this frame: every
/// `TOPMOST_REINFORCE_PERIOD` frames, starting with the first.
pub fn should_reinforce_topmost(frame_counter: u64) -> (reinforce: bool)
    ensures
        reinforce == (frame_counter % TOPMOST_REINFORCE_PERIOD == 0),
{
    frame_counter % TOPMOST_REINFORCE_PERIOD == 0
}

/// Whether the fallback loop may sleep instead of pacing the next frame:
/// only when the spring has settled, no button is held and the colour has
/// finished morphing.
pub fn idle_allowed(is_settled: bool, is_clicking: bool, is_color_settled: bool) -> (idle: bool)
    ensures
        idle == (is_settled && !is_clicking && is_color_settled),
{
    is_settled && !is_clicking && is_color_settled
}

/// How the fallback loop waits after drawing a frame.
#[derive(Debug, Clone, Copy, PartialEq, Eq, Structural)]
pub enum FramePacing {
    /// Everything has settled: sleep `IDLE_SLEEP_MICROS` instead of pacing.
    Idle,
    /// Much of the budget is left: sleep `SHORT_SLEEP_MICROS`, then spin to
    /// the end of the budget.
    SleepThenSpin,
    /// Little of the budget is left: spin to its end.
    Spin,
    /// The budget is used up: go on at once.
    Proceed,
}

/// Sleep of an idle frame.
pub const IDLE_SLEEP_MICROS: u64 = 2000;

/// Short sleep before spinning out a frame.
pub const SHORT_SLEEP_MICROS: u64 = 1000;

/// Remaining budget above which the loop sleeps before spinning.
pub const SLEEP_THRESHOLD_MICROS: u64 = 2000;

/// How the fallback loop waits, given whether it may idle and how much of the
/// frame budget the frame took.
pub open spec fn spec_frame_pacing(
    is_settled: bool,
    is_clicking: bool,
    is_color_settled: bool,
    elapsed_micros: u64,
    budget_micros: u64,
) -> FramePacing {
    if is_settled && !is_clicking && is_color_settled {
        FramePacing::Idle
    } else if elapsed_micros < budget_micros {
        if budget_micros - elapsed_micros > SLEEP_THRESHOLD_MICROS {
            FramePacing::SleepThenSpin
        } else {
            FramePacing::Spin
        }
    } else {
        FramePacing::Proceed
    }
}

/// Decides how the fallback loop waits after a frame: idle while the spring,
/// the button and the colour have settled; otherwise pace to the frame
/// budget, sleeping first when more than `SLEEP_THRESHOLD_MICROS` remain.
pub fn frame_pacing(
    is_settled: bool,
    is_clicking: bool,
    is_color_settled: bool,
    elapsed_micros: u64,
    budget_micros: u64,
) -> (pacing: FramePacing)
    ensures
        pacing == spec_frame_pacing(
            is_settled,
            is_clicking,
            is_color_settled,
            elapsed_micros,
            budget_micros,
        ),
{
    if idle_allowed(is_settled, is_clicking, is_color_settled) {
        FramePacing::Idle
    } else if elapsed_micros < budget_micros {
        if budget_micros - elapsed_micros > SLEEP_THRESHOLD_MICROS {
            FramePacing::SleepThenSpin
        } else {
            FramePacing::Spin
        }
    } else {
        FramePacing::Proceed
    }
}

/// The loop never sleeps past its frame budget unless it is idle: a sleep
/// before spinning happens only when more than the threshold (which exceeds
/// the short sleep) remains.
pub proof fn lemma_pacing_sleep_fits_budget(
    is_settled: bool,
    is_clicking: bool,
    is_color_settled: bool,
    elapsed_micros: u64,
    budget_micros: u64,
)
    ensures
        spec_frame_pacing(is_settled, is_clicking, is_color_settled, elapsed_micros, budget_micros)
            == FramePacing::SleepThenSpin ==> elapsed_micros + SHORT_SLEEP_MICROS < budget_micros,
        spec_frame_pacing(is_settled, is_clicking, is_color_settled, elapsed_micros, budget_micros)
            == FramePacing::Idle <==> (is_settled && !is_clicking && is_color_settled),
{
}

/// A change is reported once: reading the same setting again reports no
/// transition, and pausing and resuming alternate.
pub proof fn lemma_transitions_reported_once(before: bool, now: bool)
    ensures
        spec_transition(now, now) == PauseTransition::Unchanged,
        spec_transition(before, now) == PauseTransition::Paused ==> !before && now,
        spec_transition(before, now) == PauseTransition::Resumed ==> before && !now,
        before != now ==> spec_transition(before, now) != PauseTransition::Unchanged,
{
}

/// A faster display never gets a longer frame budget.
pub proof fn lemma_budget_shrinks_with_rate(slow_hz: u32, fast_hz: u32)
    requires
        slow_hz <= fast_hz,
    ensures
        spec_target_fps(slow_hz) <= spec_target_fps(fast_hz),
        1_000_000int / spec_target_fps(fast_hz) <= 1_000_000int / spec_target_fps(slow_hz),
{
    let a = spec_target_fps(slow_hz);
    let b = spec_target_fps(fast_hz);
    assert(1_000_000int / b <= 1_000_000int / a) by (nonlinear_arith)
        requires
            0 < a <= b,
    ;
}

/// The fallback loop targets twice the display rate, no less than 120 and
/// no more than 500 frames a second: displays up to 60 Hz get 120, displays
/// from 250 Hz on get 500, and those between get exactly twice their rate.
pub proof fn lemma_target_fps_shape(display_hz: u32)
    ensures
        display_hz <= 60 ==> spec_target_fps(display_hz) == 120,
        60 <= display_hz <= 250 ==> spec_target_fps(display_hz) == 2 * display_hz,
        display_hz >= 250 ==> spec_target_fps(display_hz) == 500,
        120 <= spec_target_fps(display_hz) <= 500,
{
}

} // verus!

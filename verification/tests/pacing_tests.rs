use tiny_cursor::pacing::{
    frame_pacing, FramePacing,
    frame_budget_micros, idle_allowed, should_reinforce_topmost, LoopAction, PauseTracker,
    PauseTransition,
};

#[test]
fn pause_changes_are_reported_once() {
    let mut tracker = PauseTracker::new();
    assert_eq!(tracker.observe(false), PauseTransition::Unchanged);
    assert_eq!(tracker.observe(true), PauseTransition::Paused);
    assert_eq!(tracker.observe(true), PauseTransition::Unchanged);
    assert_eq!(tracker.observe(false), PauseTransition::Resumed);
    assert_eq!(tracker.observe(false), PauseTransition::Unchanged);
}

#[test]
fn loop_steps() {
    let mut tracker = PauseTracker::new();
    assert_eq!(tracker.step(false, false, false), LoopAction::Render);
    assert_eq!(tracker.step(false, false, true), LoopAction::EnterPause);
    assert_eq!(tracker.step(false, false, true), LoopAction::StayPaused);
    assert_eq!(tracker.step(true, false, false), LoopAction::Exit);
    // The exit check leaves the remembered setting alone.
    assert_eq!(tracker.step(false, false, false), LoopAction::Resume);
    assert_eq!(tracker.step(false, true, true), LoopAction::Exit);
    assert_eq!(tracker.step(false, false, false), LoopAction::Render);
}

#[test]
fn frame_budget_follows_display_rate() {
    assert_eq!(frame_budget_micros(30), 8333);
    assert_eq!(frame_budget_micros(60), 8333);
    assert_eq!(frame_budget_micros(144), 3472);
    assert_eq!(frame_budget_micros(240), 2083);
    assert_eq!(frame_budget_micros(360), 2000);
    assert_eq!(frame_budget_micros(0), 8333);
}

#[test]
fn topmost_reinforced_every_120_frames() {
    assert!(should_reinforce_topmost(0));
    assert!(!should_reinforce_topmost(1));
    assert!(!should_reinforce_topmost(119));
    assert!(should_reinforce_topmost(120));
    assert!(should_reinforce_topmost(240));
}

#[test]
fn idles_only_when_everything_settled() {
    assert!(idle_allowed(true, false, true));
    assert!(!idle_allowed(false, false, true));
    assert!(!idle_allowed(true, true, true));
    assert!(!idle_allowed(true, false, false));
}

#[test]
fn frame_pacing_rules() {
    assert_eq!(frame_pacing(true, false, true, 100, 3472), FramePacing::Idle);
    assert_eq!(frame_pacing(true, false, true, 9000, 3472), FramePacing::Idle);
    assert_eq!(frame_pacing(false, false, true, 100, 3472), FramePacing::SleepThenSpin);
    assert_eq!(frame_pacing(true, true, true, 1472, 3472), FramePacing::Spin);
    assert_eq!(frame_pacing(true, false, false, 1471, 3472), FramePacing::SleepThenSpin);
    assert_eq!(frame_pacing(false, false, false, 3000, 3472), FramePacing::Spin);
    assert_eq!(frame_pacing(false, false, false, 3472, 3472), FramePacing::Proceed);
    assert_eq!(frame_pacing(false, true, true, 5000, 3472), FramePacing::Proceed);
}

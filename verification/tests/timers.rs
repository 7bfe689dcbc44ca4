//! Roll-animation and body-mode timers.

use portal_core::timing::{AnimateRoll, BodyMode, BodyModeWindow, RollStep};

#[test]
fn roll_animation_progresses_by_exact_fractions() {
    let mut roll = AnimateRoll::new();
    assert_eq!(roll.duration_ms, 400);
    let step = roll.step(100);
    assert_eq!(step, RollStep::InProgress { elapsed: 100, duration: 400 });
    assert_eq!(roll.remaining_ms, 300);
    let step = roll.step(150);
    assert_eq!(step, RollStep::InProgress { elapsed: 250, duration: 400 });
    assert_eq!(roll.remaining_ms, 150);
}

#[test]
fn roll_animation_finishes_when_a_tick_exceeds_it() {
    let mut roll = AnimateRoll::new();
    roll.step(390);
    assert_eq!(roll.step(11), RollStep::Finished);
    assert_eq!(roll.remaining_ms, 0);
}

#[test]
fn roll_animation_exact_last_tick_still_reports_progress() {
    let mut roll = AnimateRoll::new();
    assert_eq!(roll.step(400), RollStep::InProgress { elapsed: 400, duration: 400 });
    assert_eq!(roll.remaining_ms, 0);
    assert_eq!(roll.step(1), RollStep::Finished);
}

#[test]
fn body_mode_window_counts_down_to_dynamic() {
    let mut w = BodyModeWindow::new();
    assert_eq!(w.tick(16), BodyMode::Dynamic);
    w.reset();
    assert_eq!(w.remaining_ms, 100);
    assert_eq!(w.tick(40), BodyMode::Kinematic);
    assert_eq!(w.tick(40), BodyMode::Kinematic);
    assert_eq!(w.tick(40), BodyMode::Dynamic);
    assert_eq!(w.remaining_ms, 0);
    // A new pending teleport restarts the window.
    w.reset();
    assert_eq!(w.tick(10), BodyMode::Kinematic);
}

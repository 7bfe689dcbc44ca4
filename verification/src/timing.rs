//! Bounded timers: the roll-correction animation and the brief kinematic
//! body-mode window around a teleport.

use vstd::prelude::*;

use crate::params::{BODY_MODE_WINDOW_MS, ROLL_ANIMATION_MS};

verus! {

/// Progress of the roll-correction animation after one tick.
#[derive(Clone, Copy, Debug, PartialEq, Eq, Structural)]
pub enum RollStep {
    /// The animation has consumed its whole duration: apply the end
    /// orientation and drop the animation.
    Finished,
    /// The animation continues; interpolate by the exact fraction
    /// `elapsed / duration`.
    InProgress { elapsed: u64, duration: u64 },
}

/// The transient roll-correction animation created when a teleport leaves
/// the player non-upright; it only tracks time, the engine interpolates
/// the orientations.
#[derive(Clone, Copy, Debug, PartialEq, Eq, Structural)]
pub struct AnimateRoll {
    pub duration_ms: u64,
    pub remaining_ms: u64,
}

impl AnimateRoll {
    pub open spec fn wf(self) -> bool {
        &&& 1 <= self.duration_ms
        &&& self.remaining_ms <= self.duration_ms
    }

    /// A fresh animation over the configured duration.
    pub fn new() -> (a: AnimateRoll)
        ensures
            a.wf(),
            a.duration_ms == ROLL_ANIMATION_MS,
            a.remaining_ms == ROLL_ANIMATION_MS,
    {
        AnimateRoll { duration_ms: ROLL_ANIMATION_MS, remaining_ms: ROLL_ANIMATION_MS }
    }

    /// Advances the animation by one tick. It finishes exactly when the
    /// tick exceeds what remains; otherwise the elapsed fraction grows by
    /// the tick and stays within the duration.
    pub fn step(&mut self, dt_ms: u64) -> (r: RollStep)
        requires
            old(self).wf(),
        ensures
            final(self).wf(),
            final(self).duration_ms == old(self).duration_ms,
            r == RollStep::Finished <==> dt_ms > old(self).remaining_ms,
            dt_ms > old(self).remaining_ms ==> final(self).remaining_ms == 0,
            dt_ms <= old(self).remaining_ms ==> {
                &&& final(self).remaining_ms == old(self).remaining_ms - dt_ms
                &&& r == (RollStep::InProgress {
                    elapsed: (old(self).duration_ms - old(self).remaining_ms + dt_ms) as u64,
                    duration: old(self).duration_ms,
                })
            },
    {
        if dt_ms > self.remaining_ms {
            self.remaining_ms = 0;
            RollStep::Finished
        } else {
            let elapsed = self.duration_ms - self.remaining_ms + dt_ms;
            self.remaining_ms = self.remaining_ms - dt_ms;
            RollStep::InProgress { elapsed, duration: self.duration_ms }
        }
    }
}

/// How the player's physics body is simulated.
#[derive(Clone, Copy, Debug, PartialEq, Eq, Structural)]
pub enum BodyMode {
    /// Briefly driven directly, immune to collisions, around a teleport.
    Kinematic,
    /// Normal dynamic simulation.
    Dynamic,
}

/// Countdown that keeps the player's body kinematic for a short window
/// around a teleport, so continuous collision detection cannot tunnel it
/// into the destination geometry; reset on each new pending teleport.
#[derive(Clone, Copy, Debug, PartialEq, Eq, Structural)]
pub struct BodyModeWindow {
    pub remaining_ms: u64,
}

impl BodyModeWindow {
    /// No window pending: the body simulates dynamically.
    pub fn new() -> (w: BodyModeWindow)
        ensures
            w.remaining_ms == 0,
    {
        BodyModeWindow { remaining_ms: 0 }
    }

    /// A teleport is pending: restart the window.
    pub fn reset(&mut self)
        ensures
            final(self).remaining_ms == BODY_MODE_WINDOW_MS,
    {
        self.remaining_ms = BODY_MODE_WINDOW_MS;
    }

    /// Advances the window and reports the mode to simulate with: the body
    /// is kinematic exactly while time remains afterwards.
    pub fn tick(&mut self, dt_ms: u64) -> (mode: BodyMode)
        ensures
            final(self).remaining_ms == if dt_ms <= old(self).remaining_ms {
                (old(self).remaining_ms - dt_ms) as u64
            } else {
                0u64
            },
            mode == BodyMode::Kinematic <==> final(self).remaining_ms > 0,
    {
        if dt_ms <= self.remaining_ms {
            self.remaining_ms = self.remaining_ms - dt_ms;
        } else {
            self.remaining_ms = 0;
        }
        if self.remaining_ms > 0 {
            BodyMode::Kinematic
        } else {
            BodyMode::Dynamic
        }
    }
}

} // verus!

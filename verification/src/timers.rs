//! One-shot countdowns, and the three countdown kinds the game attaches to an
//! enemy or its visual child: the two dialogue-intent timers and the
//! hit-reaction timer.

use vstd::prelude::*;

verus! {

/// Milliseconds before a `Follow` entry fires its dialogue intent.
pub const FOLLOW_DIALOGUE_MS: u64 = 500;

/// Milliseconds before a `Flee` entry fires its dialogue intent; longer,
/// reflecting the escalated fear.
pub const FLEE_DIALOGUE_MS: u64 = 1000;

/// Milliseconds the hit-reaction animation override stays in force.
pub const HIT_REACT_MS: u64 = 300;

/// A single-shot countdown advanced by elapsed-time accumulation.
///
/// `remaining_ms` counts down from `duration_ms` to zero and stays there;
/// the tick on which it reaches zero is the one on which it "just finished".
#[derive(Clone, Copy, Debug, PartialEq, Eq, Structural)]
pub struct Countdown {
    pub duration_ms: u64,
    pub remaining_ms: u64,
}

impl Countdown {
    /// A countdown never holds more time than it started with.
    pub open spec fn wf(self) -> bool {
        self.remaining_ms <= self.duration_ms
    }

    /// True while no time at all has been accumulated.
    pub open spec fn spec_untouched(self) -> bool {
        self.remaining_ms == self.duration_ms
    }

    /// The countdown as it stands after `dt_ms` more milliseconds.
    pub open spec fn spec_tick(self, dt_ms: u64) -> Countdown {
        if dt_ms >= self.remaining_ms {
            Countdown { duration_ms: self.duration_ms, remaining_ms: 0 }
        } else {
            Countdown {
                duration_ms: self.duration_ms,
                remaining_ms: (self.remaining_ms - dt_ms) as u64,
            }
        }
    }

    /// Whether accumulating `dt_ms` makes the countdown finish on this very
    /// tick: it had time left, and `dt_ms` uses all of it up.
    pub open spec fn spec_just_finishes(self, dt_ms: u64) -> bool {
        self.remaining_ms > 0 && dt_ms >= self.remaining_ms
    }

    pub fn new(duration_ms: u64) -> (t: Countdown)
        ensures
            t == (Countdown { duration_ms, remaining_ms: duration_ms }),
            t.wf(),
            t.spec_untouched(),
    {
        Countdown { duration_ms, remaining_ms: duration_ms }
    }

    /// Accumulate `dt_ms` milliseconds; the result reports whether the
    /// countdown finished on this tick (never again on later ticks).
    pub fn tick(&mut self, dt_ms: u64) -> (just_finished: bool)
        ensures
            *final(self) == old(self).spec_tick(dt_ms),
            just_finished == old(self).spec_just_finishes(dt_ms),
            old(self).wf() ==> final(self).wf(),
    {
        if self.remaining_ms == 0 {
            false
        } else if dt_ms >= self.remaining_ms {
            self.remaining_ms = 0;
            true
        } else {
            self.remaining_ms = self.remaining_ms - dt_ms;
            false
        }
    }

    pub fn is_untouched(&self) -> (r: bool)
        ensures
            r == self.spec_untouched(),
    {
        self.remaining_ms == self.duration_ms
    }
}

/// Attached to an enemy on entering `Follow`; fires the follow dialogue.
#[derive(Clone, Copy, Debug, PartialEq, Eq, Structural)]
pub struct FollowDialogueTimer {
    pub countdown: Countdown,
}

impl FollowDialogueTimer {
    /// A freshly attached follow-dialogue timer.
    pub open spec fn spec_fresh() -> FollowDialogueTimer {
        FollowDialogueTimer {
            countdown: Countdown {
                duration_ms: FOLLOW_DIALOGUE_MS,
                remaining_ms: FOLLOW_DIALOGUE_MS,
            },
        }
    }

    pub fn new() -> (t: FollowDialogueTimer)
        ensures
            t == FollowDialogueTimer::spec_fresh(),
    {
        FollowDialogueTimer { countdown: Countdown::new(FOLLOW_DIALOGUE_MS) }
    }
}

impl Default for FollowDialogueTimer {
    fn default() -> (t: FollowDialogueTimer)
        ensures
            t == FollowDialogueTimer::spec_fresh(),
    {
        FollowDialogueTimer::new()
    }
}

/// Attached to an enemy on entering `Flee`; fires the flee dialogue.
#[derive(Clone, Copy, Debug, PartialEq, Eq, Structural)]
pub struct FleeDialogueTimer {
    pub countdown: Countdown,
}

impl FleeDialogueTimer {
    /// A freshly attached flee-dialogue timer.
    pub open spec fn spec_fresh() -> FleeDialogueTimer {
        FleeDialogueTimer {
            countdown: Countdown {
                duration_ms: FLEE_DIALOGUE_MS,
                remaining_ms: FLEE_DIALOGUE_MS,
            },
        }
    }

    pub fn new() -> (t: FleeDialogueTimer)
        ensures
            t == FleeDialogueTimer::spec_fresh(),
    {
        FleeDialogueTimer { countdown: Countdown::new(FLEE_DIALOGUE_MS) }
    }
}

impl Default for FleeDialogueTimer {
    fn default() -> (t: FleeDialogueTimer)
        ensures
            t == FleeDialogueTimer::spec_fresh(),
    {
        FleeDialogueTimer::new()
    }
}

/// Attached to an enemy's visual child when a hit lands; while it runs, the
/// hit-reaction animation overrides the behavior-driven one.
#[derive(Clone, Copy, Debug, PartialEq, Eq, Structural)]
pub struct HitTimer {
    pub countdown: Countdown,
}

impl HitTimer {
    /// A freshly attached hit-reaction timer.
    pub open spec fn spec_fresh() -> HitTimer {
        HitTimer {
            countdown: Countdown { duration_ms: HIT_REACT_MS, remaining_ms: HIT_REACT_MS },
        }
    }

    pub fn new() -> (t: HitTimer)
        ensures
            t == HitTimer::spec_fresh(),
    {
        HitTimer { countdown: Countdown::new(HIT_REACT_MS) }
    }
}

impl Default for HitTimer {
    fn default() -> (t: HitTimer)
        ensures
            t == HitTimer::spec_fresh(),
    {
        HitTimer::new()
    }
}

} // verus!

//! The animation trigger layer: each tick the authoritative behavior state
//! maps to a discrete animation index on the enemy's visual attachment,
//! with the hit-reaction override taking priority while its timer runs.

use vstd::prelude::*;

use crate::behavior::Behavior;
use crate::timers::HitTimer;

verus! {

/// Animation index shown while idle.
pub const ANIM_IDLE: u8 = 0;

/// Animation index of the hit reaction.
pub const ANIM_HIT: u8 = 1;

/// Animation index shared by `Follow` and `Flee` (both kinetic).
pub const ANIM_MOVE: u8 = 2;

/// Animation index shown once dead.
pub const ANIM_DEAD: u8 = 3;

/// The behavior-to-animation mapping, hit-reaction override first: an
/// active hit timer forces the hit animation regardless of behavior state.
pub open spec fn spec_anim_index(b: Behavior, hit_active: bool) -> u8 {
    if hit_active {
        ANIM_HIT
    } else {
        match b {
            Behavior::Idle => ANIM_IDLE,
            Behavior::Follow { .. } => ANIM_MOVE,
            Behavior::Flee { .. } => ANIM_MOVE,
            Behavior::Dead => ANIM_DEAD,
        }
    }
}

pub fn anim_index(b: &Behavior, hit_active: bool) -> (idx: u8)
    ensures
        idx == spec_anim_index(*b, hit_active),
{
    if hit_active {
        ANIM_HIT
    } else {
        match b {
            Behavior::Idle => ANIM_IDLE,
            Behavior::Follow { .. } => ANIM_MOVE,
            Behavior::Flee { .. } => ANIM_MOVE,
            Behavior::Dead => ANIM_DEAD,
        }
    }
}

/// What the hit-reaction pass asks of the animation engine this tick.
#[derive(Clone, Copy, Debug, PartialEq, Eq, Structural)]
pub struct HitCue {
    /// Show the hit animation: the timer was freshly attached, no time
    /// accumulated yet.
    pub begin: bool,
    /// The override just expired: halt the animation and drop the timer;
    /// control reverts to the behavior-driven mapping.
    pub expire: bool,
}

/// The hit-timer slot after one tick: gone once its time runs out, ticked
/// down otherwise.
pub open spec fn spec_hit_timer_after(slot: Option<HitTimer>, dt_ms: u64) -> Option<HitTimer> {
    match slot {
        None => None,
        Some(t) => if t.countdown.spec_just_finishes(dt_ms) {
            None
        } else {
            Some(HitTimer { countdown: t.countdown.spec_tick(dt_ms) })
        },
    }
}

/// The cue one hit-reaction tick raises.
pub open spec fn spec_hit_cue(slot: Option<HitTimer>, dt_ms: u64) -> HitCue {
    HitCue {
        begin: slot matches Some(t) && t.countdown.spec_untouched(),
        expire: slot matches Some(t) && t.countdown.spec_just_finishes(dt_ms),
    }
}

/// A landed hit attaches a fresh hit-reaction timer, replacing whatever
/// hit timer was still running: repeated hits restart the reaction.
pub fn register_hit(slot: &mut Option<HitTimer>)
    ensures
        *final(slot) == Some(HitTimer::spec_fresh()),
{
    *slot = Some(HitTimer::new());
}

/// Advance the hit-reaction timer by this tick's elapsed time. On its
/// first tick the cue starts the hit animation; on the tick its time runs
/// out the cue halts the animation and the timer is dropped.
pub fn hit_react_tick(slot: &mut Option<HitTimer>, dt_ms: u64) -> (cue: HitCue)
    ensures
        *final(slot) == spec_hit_timer_after(*old(slot), dt_ms),
        cue == spec_hit_cue(*old(slot), dt_ms),
{
    match slot {
        None => HitCue { begin: false, expire: false },
        Some(t) => {
            let begin = t.countdown.is_untouched();
            let expired = t.countdown.tick(dt_ms);
            if expired {
                *slot = None;
            }
            HitCue { begin, expire: expired }
        },
    }
}

/// What a primary-action press asks of the player's weapon animation:
/// start the attack animation if none is playing, else restart it from the
/// top — never queue.
#[derive(Clone, Copy, Debug, PartialEq, Eq, Structural)]
pub enum AttackAnimCue {
    Begin,
    Replay,
}

pub fn attack_anim_cue(playing: bool) -> (cue: AttackAnimCue)
    ensures
        cue == (if playing {
            AttackAnimCue::Replay
        } else {
            AttackAnimCue::Begin
        }),
{
    if playing {
        AttackAnimCue::Replay
    } else {
        AttackAnimCue::Begin
    }
}

} // verus!

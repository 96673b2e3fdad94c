//! The per-enemy behavior state machine: `Idle`, `Follow`, `Flee`, `Dead`,
//! evaluated every tick against the single tracked player from the distance
//! to the player, the enemy's fear, and its health.
//!
//! The four states live in one tagged union attached 1:1 per enemy, so at
//! any tick exactly one of them holds and entering a new state replaces the
//! previous one. `Dead` is terminal: it has no outgoing transitions.
//!
//! Entry side effects ride along in [`EnemyMachine`]: entering `Follow` or
//! `Flee` attaches the matching one-shot dialogue-intent timer, any
//! transition that exits the state cancels its timer, and entering `Dead`
//! raises a "just died" flag consumed exactly once by the progression
//! system.

use vstd::prelude::*;

use crate::movement::SPEED_LIMIT;
use crate::timers::{FleeDialogueTimer, FollowDialogueTimer};

verus! {

/// Aggro radius: 60 world units, in milliunits.
pub const AGGRO_RADIUS: u64 = 60_000;

/// The aggro radius squared, for exact comparison against squared distances.
pub const AGGRO_RADIUS_SQ: u64 = 3_600_000_000;

/// Fear at or below this keeps an enemy willing to follow.
pub const FEAR_LOW: i64 = 10;

/// Fear at or above this makes a nearby enemy flee.
pub const FEAR_HIGH: i64 = 50;

/// Speed an enemy follows at: 15 world units per second, in milliunits.
pub const FOLLOW_SPEED: u64 = 15_000;

/// Speed an enemy flees at: 25 world units per second, in milliunits.
pub const FLEE_SPEED: u64 = 25_000;

/// The behavior tag of an enemy; `Follow` and `Flee` carry the target (the
/// player) and the movement speed in milliunits per second.
#[derive(Clone, Copy, Debug, PartialEq, Eq, Structural)]
pub enum Behavior {
    Idle,
    Follow { target: u64, speed: u64 },
    Flee { target: u64, speed: u64 },
    Dead,
}

/// Within aggro radius and not yet frightened: distance at most 60 units
/// and fear at most 10.
pub open spec fn spec_near_player(dist_sq: u64, fear: i64) -> bool {
    dist_sq <= AGGRO_RADIUS_SQ && fear <= FEAR_LOW
}

/// Within aggro radius and frightened: distance at most 60 units and fear
/// at least 50.
pub open spec fn spec_near_player_and_afraid(dist_sq: u64, fear: i64) -> bool {
    dist_sq <= AGGRO_RADIUS_SQ && fear >= FEAR_HIGH
}

/// Out of health.
pub open spec fn spec_dead(hp: i64) -> bool {
    hp <= 0
}

pub fn near_player(dist_sq: u64, fear: i64) -> (r: bool)
    ensures
        r == spec_near_player(dist_sq, fear),
{
    dist_sq <= AGGRO_RADIUS_SQ && fear <= FEAR_LOW
}

pub fn near_player_and_afraid(dist_sq: u64, fear: i64) -> (r: bool)
    ensures
        r == spec_near_player_and_afraid(dist_sq, fear),
{
    dist_sq <= AGGRO_RADIUS_SQ && fear >= FEAR_HIGH
}

pub fn dead(hp: i64) -> (r: bool)
    ensures
        r == spec_dead(hp),
{
    hp <= 0
}

/// The transition table, evaluated once per tick. Death dominates every
/// other condition; from `Idle` the two proximity conditions cannot hold at
/// once (fear cannot be both at most 10 and at least 50); from `Follow`,
/// escalating fear wins over merely losing proximity; `Dead` is a sink.
pub open spec fn spec_next_behavior(
    b: Behavior,
    player: u64,
    dist_sq: u64,
    fear: i64,
    hp: i64,
) -> Behavior {
    match b {
        Behavior::Idle => {
            if spec_dead(hp) {
                Behavior::Dead
            } else if spec_near_player_and_afraid(dist_sq, fear) {
                Behavior::Flee { target: player, speed: FLEE_SPEED }
            } else if spec_near_player(dist_sq, fear) {
                Behavior::Follow { target: player, speed: FOLLOW_SPEED }
            } else {
                b
            }
        },
        Behavior::Follow { .. } => {
            if spec_dead(hp) {
                Behavior::Dead
            } else if spec_near_player_and_afraid(dist_sq, fear) {
                Behavior::Flee { target: player, speed: FLEE_SPEED }
            } else if !spec_near_player(dist_sq, fear) {
                Behavior::Idle
            } else {
                b
            }
        },
        Behavior::Flee { .. } => {
            if spec_dead(hp) {
                Behavior::Dead
            } else if !spec_near_player_and_afraid(dist_sq, fear) {
                Behavior::Idle
            } else {
                b
            }
        },
        Behavior::Dead => Behavior::Dead,
    }
}

pub fn next_behavior(b: Behavior, player: u64, dist_sq: u64, fear: i64, hp: i64) -> (r: Behavior)
    ensures
        r == spec_next_behavior(b, player, dist_sq, fear, hp),
{
    match b {
        Behavior::Idle => {
            if dead(hp) {
                Behavior::Dead
            } else if near_player_and_afraid(dist_sq, fear) {
                Behavior::Flee { target: player, speed: FLEE_SPEED }
            } else if near_player(dist_sq, fear) {
                Behavior::Follow { target: player, speed: FOLLOW_SPEED }
            } else {
                b
            }
        },
        Behavior::Follow { .. } => {
            if dead(hp) {
                Behavior::Dead
            } else if near_player_and_afraid(dist_sq, fear) {
                Behavior::Flee { target: player, speed: FLEE_SPEED }
            } else if !near_player(dist_sq, fear) {
                Behavior::Idle
            } else {
                b
            }
        },
        Behavior::Flee { .. } => {
            if dead(hp) {
                Behavior::Dead
            } else if !near_player_and_afraid(dist_sq, fear) {
                Behavior::Idle
            } else {
                b
            }
        },
        Behavior::Dead => Behavior::Dead,
    }
}

/// Law: the behavior tag is mutually exclusive — at any tick exactly one of
/// `Idle`, `Follow`, `Flee`, `Dead` holds of an enemy.
pub proof fn lemma_behavior_exclusive(b: Behavior)
    ensures
        b is Idle || b is Follow || b is Flee || b is Dead,
        b is Idle ==> !(b is Follow) && !(b is Flee) && !(b is Dead),
        b is Follow ==> !(b is Idle) && !(b is Flee) && !(b is Dead),
        b is Flee ==> !(b is Idle) && !(b is Follow) && !(b is Dead),
        b is Dead ==> !(b is Idle) && !(b is Follow) && !(b is Flee),
{
}

/// One tick's worth of inputs to the transition table: squared distance to
/// the player, and the enemy's fear and health.
#[derive(Clone, Copy, Debug, PartialEq, Eq, Structural)]
pub struct BehaviorInput {
    pub dist_sq: u64,
    pub fear: i64,
    pub hp: i64,
}

/// The behavior reached after evaluating a whole sequence of ticks.
pub open spec fn spec_run(b: Behavior, player: u64, inputs: Seq<BehaviorInput>) -> Behavior
    decreases inputs.len(),
{
    if inputs.len() == 0 {
        b
    } else {
        spec_run(
            spec_next_behavior(b, player, inputs[0].dist_sq, inputs[0].fear, inputs[0].hp),
            player,
            inputs.drop_first(),
        )
    }
}

/// Law: `Dead` is absorbing — once entered, no sequence of distance, fear
/// or health changes moves the enemy out of it.
pub proof fn lemma_dead_absorbing(player: u64, inputs: Seq<BehaviorInput>)
    ensures
        spec_run(Behavior::Dead, player, inputs) == Behavior::Dead,
    decreases inputs.len(),
{
    if inputs.len() > 0 {
        lemma_dead_absorbing(player, inputs.drop_first());
    }
}

/// The full per-enemy machine: the behavior tag, the one-shot dialogue
/// timers owned by the states that attached them, and the one-shot death
/// flag. The target player is bound once, for the machine's lifetime.
#[derive(Clone, Copy, Debug)]
pub struct EnemyMachine {
    pub player: u64,
    pub behavior: Behavior,
    pub follow_timer: Option<FollowDialogueTimer>,
    pub flee_timer: Option<FleeDialogueTimer>,
    pub just_died: bool,
}

impl EnemyMachine {
    /// A timer only exists while the state that attached it is current, the
    /// death flag only while the enemy is dead, and a stored speed stays
    /// within what the movement math accepts.
    pub open spec fn wf(self) -> bool {
        &&& self.follow_timer matches Some(t) ==> self.behavior is Follow && t.countdown.wf()
        &&& self.flee_timer matches Some(t) ==> self.behavior is Flee && t.countdown.wf()
        &&& self.just_died ==> self.behavior is Dead
        &&& self.behavior matches Behavior::Follow { speed, .. } ==> speed <= SPEED_LIMIT
        &&& self.behavior matches Behavior::Flee { speed, .. } ==> speed <= SPEED_LIMIT
    }

    /// The machine as installed on a fresh enemy: `Idle`, no timers, no
    /// pending death.
    pub open spec fn spec_init(player: u64) -> EnemyMachine {
        EnemyMachine {
            player,
            behavior: Behavior::Idle,
            follow_timer: None,
            flee_timer: None,
            just_died: false,
        }
    }

    /// The machine after one behavior evaluation. A transition replaces the
    /// tag, cancels the timer of the state it exits, attaches the fresh
    /// timer of the state it enters, and raises the death flag on entering
    /// `Dead`; staying in place touches nothing.
    pub open spec fn spec_step(self, dist_sq: u64, fear: i64, hp: i64) -> EnemyMachine {
        let b2 = spec_next_behavior(self.behavior, self.player, dist_sq, fear, hp);
        if b2 == self.behavior {
            self
        } else {
            EnemyMachine {
                player: self.player,
                behavior: b2,
                follow_timer: if b2 is Follow {
                    Some(FollowDialogueTimer::spec_fresh())
                } else {
                    None
                },
                flee_timer: if b2 is Flee {
                    Some(FleeDialogueTimer::spec_fresh())
                } else {
                    None
                },
                just_died: if b2 is Dead {
                    true
                } else {
                    self.just_died
                },
            }
        }
    }

    /// Install the machine for an enemy, bound to the one player found.
    pub fn new(player: u64) -> (m: EnemyMachine)
        ensures
            m == EnemyMachine::spec_init(player),
            m.wf(),
    {
        EnemyMachine {
            player,
            behavior: Behavior::Idle,
            follow_timer: None,
            flee_timer: None,
            just_died: false,
        }
    }

    /// Evaluate the transition table for this tick.
    pub fn evaluate(&mut self, dist_sq: u64, fear: i64, hp: i64)
        requires
            old(self).wf(),
        ensures
            *final(self) == old(self).spec_step(dist_sq, fear, hp),
            final(self).wf(),
    {
        let next = next_behavior(self.behavior, self.player, dist_sq, fear, hp);
        if next != self.behavior {
            self.behavior = next;
            self.follow_timer = match next {
                Behavior::Follow { .. } => Some(FollowDialogueTimer::new()),
                _ => None,
            };
            self.flee_timer = match next {
                Behavior::Flee { .. } => Some(FleeDialogueTimer::new()),
                _ => None,
            };
            if let Behavior::Dead = next {
                self.just_died = true;
            }
        }
    }
}

/// Law: a dead enemy's machine never changes again — in particular the
/// death flag, once consumed, is never raised a second time.
pub proof fn lemma_dead_machine_stable(m: EnemyMachine, dist_sq: u64, fear: i64, hp: i64)
    requires
        m.behavior is Dead,
    ensures
        m.spec_step(dist_sq, fear, hp) == m,
{
}

/// The machine reached after evaluating a whole sequence of ticks.
pub open spec fn spec_machine_run(m: EnemyMachine, inputs: Seq<BehaviorInput>) -> EnemyMachine
    decreases inputs.len(),
{
    if inputs.len() == 0 {
        m
    } else {
        spec_machine_run(
            m.spec_step(inputs[0].dist_sq, inputs[0].fear, inputs[0].hp),
            inputs.drop_first(),
        )
    }
}

/// Law: a dead enemy's machine is a fixed point of evaluation over any
/// whole sequence of ticks. Once the progression system has consumed the
/// death flag, no later evaluation raises it again, so a single death
/// contributes to the progression counter exactly once.
pub proof fn lemma_dead_machine_fixed(m: EnemyMachine, inputs: Seq<BehaviorInput>)
    requires
        m.behavior is Dead,
    ensures
        spec_machine_run(m, inputs) == m,
    decreases inputs.len(),
{
    if inputs.len() > 0 {
        lemma_dead_machine_stable(m, inputs[0].dist_sq, inputs[0].fear, inputs[0].hp);
        lemma_dead_machine_fixed(m, inputs.drop_first());
    }
}

/// Law: any transition out of `Follow` cancels the pending follow-dialogue
/// timer, however much of it had elapsed.
pub proof fn lemma_follow_exit_cancels_timer(m: EnemyMachine, dist_sq: u64, fear: i64, hp: i64)
    requires
        m.behavior is Follow,
        !(spec_next_behavior(m.behavior, m.player, dist_sq, fear, hp) is Follow),
    ensures
        m.spec_step(dist_sq, fear, hp).follow_timer is None,
{
}

/// Law: entering `Follow` — also re-entering it after an exit — attaches a
/// fresh follow-dialogue countdown of the full half second.
pub proof fn lemma_follow_entry_fresh_timer(m: EnemyMachine, dist_sq: u64, fear: i64, hp: i64)
    requires
        !(m.behavior is Follow),
        spec_next_behavior(m.behavior, m.player, dist_sq, fear, hp) is Follow,
    ensures
        m.spec_step(dist_sq, fear, hp).follow_timer == Some(FollowDialogueTimer::spec_fresh()),
{
}

/// Law: any transition out of `Flee` cancels the pending flee-dialogue
/// timer.
pub proof fn lemma_flee_exit_cancels_timer(m: EnemyMachine, dist_sq: u64, fear: i64, hp: i64)
    requires
        m.behavior is Flee,
        !(spec_next_behavior(m.behavior, m.player, dist_sq, fear, hp) is Flee),
    ensures
        m.spec_step(dist_sq, fear, hp).flee_timer is None,
{
}

/// Law: entering `Flee` attaches a fresh flee-dialogue countdown of the
/// full second.
pub proof fn lemma_flee_entry_fresh_timer(m: EnemyMachine, dist_sq: u64, fear: i64, hp: i64)
    requires
        !(m.behavior is Flee),
        spec_next_behavior(m.behavior, m.player, dist_sq, fear, hp) is Flee,
    ensures
        m.spec_step(dist_sq, fear, hp).flee_timer == Some(FleeDialogueTimer::spec_fresh()),
{
}

} // verus!

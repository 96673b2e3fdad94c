//! One logical frame step for a single enemy, in the fixed per-tick order:
//! behavior-state evaluation, movement, hit-reaction and animation mapping,
//! dialogue timers. Transitions computed this tick are visible to movement
//! and animation within the same tick; entry side effects such as timer
//! attachment take effect from this tick on.

use vstd::prelude::*;

use crate::animation::{anim_index, hit_react_tick, spec_anim_index, spec_hit_cue,
    spec_hit_timer_after, HitCue};
use crate::behavior::{Behavior, EnemyMachine};
use crate::dialogue::{flee_dialogue_tick, follow_dialogue_tick, spec_flee_fires,
    spec_flee_timer_after, spec_follow_fires, spec_follow_timer_after, spec_hello_node,
    spec_why_node, DialogueCue, DIALOGUE_TIER};
use crate::geometry::{dist_sq, in_bounds, spec_dist_sq, Point};
use crate::movement::{flee_step, follow_step, spec_approach, spec_retreat, spec_step_len,
    DT_LIMIT};
use crate::actors::Enemy;
use crate::timers::HitTimer;

verus! {

/// Everything one frame step of an enemy hands back to the engine layer:
/// the new position, the animation index for its visual attachment, the
/// hit-reaction cue, and the dialogue cues of any intent timer that fired.
#[derive(Clone, Debug)]
pub struct EnemyFrame {
    pub pos: Point,
    pub anim: u8,
    pub hit: HitCue,
    pub follow_cue: Option<DialogueCue>,
    pub flee_cue: Option<DialogueCue>,
}

/// One frame step for one enemy. The machine is evaluated against the
/// squared distance to the player and the enemy's current fear and health;
/// the enemy then moves per its new state; the animation index is mapped
/// from the new state under the hit-reaction override; and the dialogue
/// timers accumulate this tick's elapsed time.
pub fn enemy_tick(
    m: &mut EnemyMachine,
    enemy: &Enemy,
    pos: Point,
    player_pos: Point,
    hit_slot: &mut Option<HitTimer>,
    dt_ms: u64,
    compleation: u64,
    node_active: bool,
) -> (out: EnemyFrame)
    requires
        old(m).wf(),
        in_bounds(pos),
        in_bounds(player_pos),
        dt_ms <= DT_LIMIT,
    ensures
        final(m).wf(),
        ({
            let stepped = old(m).spec_step(
                spec_dist_sq(pos, player_pos) as u64,
                enemy.fear,
                enemy.hp,
            );
            &&& *final(m) == (EnemyMachine {
                player: stepped.player,
                behavior: stepped.behavior,
                follow_timer: spec_follow_timer_after(stepped.follow_timer, dt_ms),
                flee_timer: spec_flee_timer_after(stepped.flee_timer, dt_ms),
                just_died: stepped.just_died,
            })
            &&& stepped.behavior matches Behavior::Follow { speed, .. } ==> (
            out.pos.x as int,
            out.pos.y as int,
            ) == spec_approach(pos, player_pos, spec_step_len(speed, dt_ms))
            &&& stepped.behavior matches Behavior::Flee { speed, .. } ==> (
            out.pos.x as int,
            out.pos.y as int,
            ) == spec_retreat(pos, player_pos, spec_step_len(speed, dt_ms))
            &&& (stepped.behavior is Idle || stepped.behavior is Dead) ==> out.pos == pos
            &&& out.anim == spec_anim_index(
                stepped.behavior,
                spec_hit_timer_after(*old(hit_slot), dt_ms) is Some,
            )
            &&& out.follow_cue is Some <==> spec_follow_fires(stepped.follow_timer, dt_ms)
            &&& out.flee_cue is Some <==> spec_flee_fires(stepped.flee_timer, dt_ms)
        }),
        *final(hit_slot) == spec_hit_timer_after(*old(hit_slot), dt_ms),
        out.hit == spec_hit_cue(*old(hit_slot), dt_ms),
        out.follow_cue matches Some(c) ==> {
            &&& c.stop_current == node_active
            &&& c.node@ == spec_hello_node((compleation / DIALOGUE_TIER) as nat)
            &&& c.speaker@ == enemy.name@
        },
        out.flee_cue matches Some(c) ==> {
            &&& c.stop_current == node_active
            &&& c.node@ == spec_why_node((compleation / DIALOGUE_TIER) as nat)
            &&& c.speaker@ == enemy.name@
        },
{
    let d2 = dist_sq(pos, player_pos);
    m.evaluate(d2, enemy.fear, enemy.hp);
    let new_pos = match m.behavior {
        Behavior::Follow { speed, .. } => follow_step(pos, player_pos, speed, dt_ms),
        Behavior::Flee { speed, .. } => flee_step(pos, player_pos, speed, dt_ms),
        _ => pos,
    };
    let hit = hit_react_tick(hit_slot, dt_ms);
    let hit_active = match hit_slot {
        Some(_) => true,
        None => false,
    };
    let anim = anim_index(&m.behavior, hit_active);
    let follow_cue = follow_dialogue_tick(m, dt_ms, &enemy.name, compleation, node_active);
    let flee_cue = flee_dialogue_tick(m, dt_ms, &enemy.name, compleation, node_active);
    EnemyFrame { pos: new_pos, anim, hit, follow_cue, flee_cue }
}

} // verus!

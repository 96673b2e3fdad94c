use gamecore::actors::Enemy;
use gamecore::animation::{
    anim_index, attack_anim_cue, hit_react_tick, register_hit, AttackAnimCue, ANIM_DEAD,
    ANIM_HIT, ANIM_IDLE, ANIM_MOVE,
};
use gamecore::behavior::{Behavior, EnemyMachine};
use gamecore::frame::enemy_tick;
use gamecore::geometry::Point;
use gamecore::timers::HitTimer;

fn enemy(hp: i64, fear: i64) -> Enemy {
    Enemy { inventory: Vec::new(), hp, attack: 1, fear, name: String::from("Grub") }
}

#[test]
fn behavior_maps_to_animation_indices() {
    assert_eq!(anim_index(&Behavior::Idle, false), ANIM_IDLE);
    assert_eq!(anim_index(&Behavior::Follow { target: 1, speed: 15_000 }, false), ANIM_MOVE);
    assert_eq!(anim_index(&Behavior::Flee { target: 1, speed: 25_000 }, false), ANIM_MOVE);
    assert_eq!(anim_index(&Behavior::Dead, false), ANIM_DEAD);
}

#[test]
fn hit_reaction_overrides_every_state() {
    assert_eq!(anim_index(&Behavior::Idle, true), ANIM_HIT);
    assert_eq!(anim_index(&Behavior::Follow { target: 1, speed: 15_000 }, true), ANIM_HIT);
    assert_eq!(anim_index(&Behavior::Dead, true), ANIM_HIT);
}

#[test]
fn hit_reaction_runs_begin_to_expiry() {
    let mut slot = None;
    register_hit(&mut slot);
    assert_eq!(slot, Some(HitTimer::new()));
    let cue = hit_react_tick(&mut slot, 100);
    assert!(cue.begin, "first tick shows the hit animation");
    assert!(!cue.expire);
    let cue = hit_react_tick(&mut slot, 100);
    assert!(!cue.begin);
    assert!(!cue.expire);
    let cue = hit_react_tick(&mut slot, 100);
    assert!(cue.expire, "expiry halts the animation");
    assert!(slot.is_none(), "the expired timer is dropped");
    let cue = hit_react_tick(&mut slot, 100);
    assert!(!cue.begin && !cue.expire);
}

#[test]
fn a_new_hit_restarts_the_reaction() {
    let mut slot = None;
    register_hit(&mut slot);
    hit_react_tick(&mut slot, 200);
    register_hit(&mut slot);
    assert_eq!(slot.unwrap().countdown.remaining_ms, 300);
}

#[test]
fn attack_animation_starts_or_replays_never_queues() {
    assert_eq!(attack_anim_cue(false), AttackAnimCue::Begin);
    assert_eq!(attack_anim_cue(true), AttackAnimCue::Replay);
}

#[test]
fn one_frame_moves_a_following_enemy_and_maps_its_animation() {
    let mut m = EnemyMachine::new(7);
    let e = enemy(10, 5);
    let mut hit_slot = None;
    let pos = Point { x: 30_000, y: 0 };
    let player_pos = Point { x: 0, y: 0 };
    let out = enemy_tick(&mut m, &e, pos, player_pos, &mut hit_slot, 100, 0, false);
    assert_eq!(m.behavior, Behavior::Follow { target: 7, speed: 15_000 });
    assert_eq!(out.pos, Point { x: 28_500, y: 0 }, "approached by 1.5 units");
    assert_eq!(out.anim, ANIM_MOVE, "the new state's animation shows the same tick");
    assert!(out.follow_cue.is_none());
    assert!(out.flee_cue.is_none());
}

#[test]
fn one_frame_of_a_dead_enemy_stays_put() {
    let mut m = EnemyMachine::new(7);
    let e = enemy(0, 5);
    let mut hit_slot = None;
    let pos = Point { x: 30_000, y: 0 };
    let player_pos = Point { x: 0, y: 0 };
    let out = enemy_tick(&mut m, &e, pos, player_pos, &mut hit_slot, 100, 0, false);
    assert_eq!(m.behavior, Behavior::Dead);
    assert_eq!(out.pos, pos);
    assert_eq!(out.anim, ANIM_DEAD);
}

#[test]
fn hit_override_shows_in_the_frame_output() {
    let mut m = EnemyMachine::new(7);
    let e = enemy(10, 5);
    let mut hit_slot = None;
    register_hit(&mut hit_slot);
    let pos = Point { x: 30_000, y: 0 };
    let player_pos = Point { x: 0, y: 0 };
    let out = enemy_tick(&mut m, &e, pos, player_pos, &mut hit_slot, 100, 0, false);
    assert_eq!(out.anim, ANIM_HIT, "an active hit timer forces the hit animation");
    assert!(out.hit.begin);
}

#[test]
fn frame_fires_follow_dialogue_after_half_second() {
    let mut m = EnemyMachine::new(7);
    let e = enemy(10, 5);
    let mut hit_slot = None;
    let pos = Point { x: 30_000, y: 0 };
    let player_pos = Point { x: 0, y: 0 };
    let out = enemy_tick(&mut m, &e, pos, player_pos, &mut hit_slot, 400, 26, false);
    assert!(out.follow_cue.is_none());
    let out = enemy_tick(&mut m, &e, out.pos, player_pos, &mut hit_slot, 100, 26, true);
    let cue = out.follow_cue.expect("0.5 s accumulated while following");
    assert_eq!(cue.node, "HelloLevel1");
    assert_eq!(cue.speaker, "Grub");
    assert!(cue.stop_current);
}

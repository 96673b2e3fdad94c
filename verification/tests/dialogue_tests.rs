use gamecore::behavior::EnemyMachine;
use gamecore::dialogue::{
    decimal_string, dialogue_level, flee_dialogue_tick, flee_node_name, follow_dialogue_tick,
    follow_node_name,
};
use gamecore::timers::Countdown;

const PLAYER: u64 = 7;
const D50: u64 = 50_000 * 50_000;
const D61: u64 = 61_000 * 61_000;

#[test]
fn decimal_rendering_is_exact() {
    assert_eq!(decimal_string(0), "0");
    assert_eq!(decimal_string(7), "7");
    assert_eq!(decimal_string(10), "10");
    assert_eq!(decimal_string(25), "25");
    assert_eq!(decimal_string(120), "120");
    assert_eq!(decimal_string(98765), "98765");
    assert_eq!(decimal_string(u64::MAX), "18446744073709551615");
}

#[test]
fn dialogue_tier_is_progression_over_twenty_five() {
    assert_eq!(dialogue_level(0), 0);
    assert_eq!(dialogue_level(24), 0);
    assert_eq!(dialogue_level(25), 1);
    assert_eq!(dialogue_level(50), 2);
    assert_eq!(dialogue_level(51), 2);
}

#[test]
fn node_names_carry_the_tier() {
    assert_eq!(follow_node_name(0), "HelloLevel0");
    assert_eq!(follow_node_name(50), "HelloLevel2");
    assert_eq!(flee_node_name(0), "WhyLevel0");
    assert_eq!(flee_node_name(25), "WhyLevel1");
}

#[test]
fn countdown_finishes_exactly_once() {
    let mut c = Countdown::new(500);
    assert!(!c.tick(200));
    assert_eq!(c.remaining_ms, 300);
    assert!(!c.tick(299));
    assert_eq!(c.remaining_ms, 1);
    assert!(c.tick(1), "finishes on the tick its time runs out");
    assert_eq!(c.remaining_ms, 0);
    assert!(!c.tick(100), "never reports finishing again");
}

#[test]
fn countdown_overshoot_still_fires_once() {
    let mut c = Countdown::new(500);
    assert!(c.tick(10_000));
    assert!(!c.tick(10_000));
}

#[test]
fn follow_dialogue_fires_after_half_second() {
    let mut m = EnemyMachine::new(PLAYER);
    m.evaluate(D50, 5, 100); // enter Follow
    let name = String::from("Grub");
    assert!(follow_dialogue_tick(&mut m, 300, &name, 50, false).is_none());
    let cue = follow_dialogue_tick(&mut m, 200, &name, 50, false)
        .expect("the intent fires once 0.5 s have accumulated");
    assert_eq!(cue.node, "HelloLevel2");
    assert_eq!(cue.speaker, "Grub");
    assert!(!cue.stop_current);
    assert!(m.follow_timer.is_none(), "a fired timer is removed");
    // staying in Follow afterwards: nothing fires again
    m.evaluate(D50, 5, 100);
    assert!(follow_dialogue_tick(&mut m, 1_000, &name, 50, false).is_none());
}

#[test]
fn exiting_follow_before_half_second_cancels_the_dialogue() {
    let mut m = EnemyMachine::new(PLAYER);
    m.evaluate(D50, 5, 100); // enter Follow
    let name = String::from("Grub");
    assert!(follow_dialogue_tick(&mut m, 400, &name, 0, false).is_none());
    m.evaluate(D61, 5, 100); // player leaves before 0.5 s elapses
    assert!(m.follow_timer.is_none(), "the pending dialogue is cancelled");
    assert!(follow_dialogue_tick(&mut m, 1_000, &name, 0, false).is_none());
}

#[test]
fn reentering_follow_restarts_a_fresh_countdown() {
    let mut m = EnemyMachine::new(PLAYER);
    m.evaluate(D50, 5, 100); // enter Follow
    let name = String::from("Grub");
    assert!(follow_dialogue_tick(&mut m, 400, &name, 0, false).is_none());
    m.evaluate(D61, 5, 100); // exit
    m.evaluate(D50, 5, 100); // re-enter
    let t = m.follow_timer.expect("re-entry attaches a fresh timer");
    assert_eq!(t.countdown.remaining_ms, 500);
    // the fresh countdown needs the full half second again
    assert!(follow_dialogue_tick(&mut m, 400, &name, 0, false).is_none());
    assert!(follow_dialogue_tick(&mut m, 100, &name, 0, false).is_some());
}

#[test]
fn flee_dialogue_fires_after_a_full_second() {
    let mut m = EnemyMachine::new(PLAYER);
    m.evaluate(D50, 60, 100); // enter Flee
    let name = String::from("Grub");
    assert!(flee_dialogue_tick(&mut m, 500, &name, 25, false).is_none());
    assert!(flee_dialogue_tick(&mut m, 499, &name, 25, false).is_none());
    let cue = flee_dialogue_tick(&mut m, 1, &name, 25, false).expect("fires at 1.0 s");
    assert_eq!(cue.node, "WhyLevel1");
    assert_eq!(cue.speaker, "Grub");
    assert!(m.flee_timer.is_none());
}

#[test]
fn an_active_node_is_stopped_before_starting() {
    let mut m = EnemyMachine::new(PLAYER);
    m.evaluate(D50, 5, 100);
    let name = String::from("Grub");
    let cue = follow_dialogue_tick(&mut m, 500, &name, 0, true).unwrap();
    assert!(cue.stop_current, "last trigger wins: stop the active node first");
}

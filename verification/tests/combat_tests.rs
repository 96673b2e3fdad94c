use gamecore::actors::{Enemy, Player};
use gamecore::combat::{apply_damage, attack_hits, resolve_hit, CombatTuning, Contact};
use gamecore::timers::HIT_REACT_MS;

fn enemy(hp: i64, fear: i64) -> Enemy {
    Enemy { inventory: Vec::new(), hp, attack: 1, fear, name: String::from("Grub") }
}

fn player(skill: i64) -> Player {
    Player { inventory: Vec::new(), hp: 10, mp: 5, sword_skill: skill, run_skill: 0, compleation: 0 }
}

#[test]
fn one_press_damages_each_overlapping_enemy_once() {
    // the physics layer reports three manifolds for the same pair; the
    // press still lands exactly one hit
    let player_box: u64 = 1;
    let enemy_id: u64 = 9;
    let contacts = vec![
        Contact { a: player_box, b: enemy_id },
        Contact { a: enemy_id, b: player_box },
        Contact { a: player_box, b: enemy_id },
    ];
    let live = vec![enemy_id];
    let hits = attack_hits(true, &contacts, player_box, &live);
    assert_eq!(hits, vec![enemy_id]);

    let mut e = enemy(10, 0);
    for _ in &hits {
        apply_damage(&mut e, 2);
    }
    assert_eq!(e.hp, 8); // reduced by exactly 2
    assert_eq!(e.fear, 20); // raised by exactly 20
}

#[test]
fn no_press_means_no_hits() {
    let contacts = vec![Contact { a: 1, b: 9 }];
    let live = vec![9];
    let hits = attack_hits(false, &contacts, 1, &live);
    assert!(hits.is_empty());
}

#[test]
fn unrelated_contacts_do_not_hit() {
    let contacts = vec![Contact { a: 2, b: 9 }, Contact { a: 9, b: 3 }];
    let live = vec![9];
    let hits = attack_hits(true, &contacts, 1, &live);
    assert!(hits.is_empty());
}

#[test]
fn several_enemies_each_hit_once() {
    let contacts = vec![
        Contact { a: 1, b: 9 },
        Contact { a: 11, b: 1 },
        Contact { a: 1, b: 9 },
        Contact { a: 1, b: 11 },
    ];
    let live = vec![9, 10, 11];
    let hits = attack_hits(true, &contacts, 1, &live);
    assert_eq!(hits, vec![9, 11]);
}

#[test]
fn enemies_not_in_the_live_list_are_ignored() {
    // a dead enemy's hit-region is excluded from the scan
    let contacts = vec![Contact { a: 1, b: 9 }, Contact { a: 1, b: 12 }];
    let live = vec![12];
    let hits = attack_hits(true, &contacts, 1, &live);
    assert_eq!(hits, vec![12]);
}

#[test]
fn apply_damage_exact_arithmetic() {
    let mut e = enemy(7, 30);
    apply_damage(&mut e, 3);
    assert_eq!(e.hp, 4);
    assert_eq!(e.fear, 60);
    apply_damage(&mut e, 5);
    assert_eq!(e.hp, -1); // health may pass zero; death resolves next tick
    assert_eq!(e.fear, 110);
    assert_eq!(e.name, "Grub");
}

#[test]
fn resolve_hit_applies_damage_and_restarts_hit_timer() {
    let mut e = enemy(10, 0);
    let mut p = player(2);
    let mut slot = None;
    resolve_hit(&mut e, &mut slot, &mut p, &CombatTuning { skill_growth_per_hit: 0 });
    assert_eq!(e.hp, 8);
    assert_eq!(e.fear, 20);
    assert_eq!(p.sword_skill, 2); // core rules: skill untouched
    let t = slot.expect("a landed hit attaches the hit-reaction timer");
    assert_eq!(t.countdown.duration_ms, HIT_REACT_MS);
    assert_eq!(t.countdown.remaining_ms, HIT_REACT_MS);
}

#[test]
fn resolve_hit_with_skill_growth_tuning() {
    let mut e = enemy(10, 0);
    let mut p = player(2);
    let mut slot = None;
    let tuning = CombatTuning { skill_growth_per_hit: 1 };
    resolve_hit(&mut e, &mut slot, &mut p, &tuning);
    assert_eq!(p.sword_skill, 3);
    // damage still used the skill as it stood when the hit landed
    assert_eq!(e.hp, 8);
    assert_eq!(e.fear, 20);
}

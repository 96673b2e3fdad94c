//! The combat pipeline: on a primary-action press, the contact pairs the
//! physics engine reported this tick are scanned for pairs that link the
//! player's attack hit-region with a live enemy's hit-region; each such
//! enemy takes damage exactly once, however many contact manifolds the
//! physics layer reported for the pair.
//!
//! Health reaching zero is not resolved here: death surfaces only through
//! the behavior state machine's predicate on the next evaluation.

use vstd::prelude::*;

use crate::actors::{Enemy, Player};
use crate::animation::register_hit;
use crate::timers::HitTimer;

verus! {

/// One contact pair reported by the physics engine for this tick, by
/// entity id; the order of the two sides carries no meaning.
#[derive(Clone, Copy, Debug, PartialEq, Eq, Structural)]
pub struct Contact {
    pub a: u64,
    pub b: u64,
}

/// Whether this contact links the attacker's hit-region with this enemy,
/// in either order.
pub open spec fn spec_contact_links(c: Contact, attacker: u64, enemy: u64) -> bool {
    (c.a == attacker && c.b == enemy) || (c.b == attacker && c.a == enemy)
}

/// Whether any contact of the tick links the attacker with this enemy.
pub open spec fn spec_any_contact_links(contacts: Seq<Contact>, attacker: u64, enemy: u64) -> bool {
    exists|i: int| 0 <= i < contacts.len() && spec_contact_links(contacts[i], attacker, enemy)
}

/// The enemies an attack lands on, deduplicated by enemy id: the live
/// enemies, in their given order, that some contact links to the attacker,
/// each at most once.
pub open spec fn spec_hits(contacts: Seq<Contact>, attacker: u64, enemies: Seq<u64>) -> Seq<u64>
    decreases enemies.len(),
{
    if enemies.len() == 0 {
        Seq::empty()
    } else {
        let rest = spec_hits(contacts, attacker, enemies.drop_last());
        if spec_any_contact_links(contacts, attacker, enemies.last()) && !rest.contains(
            enemies.last(),
        ) {
            rest.push(enemies.last())
        } else {
            rest
        }
    }
}

/// Law: the hit list holds an enemy exactly when it is live and some
/// contact links it to the attacker, and holds it exactly once.
pub proof fn lemma_hits_characterization(contacts: Seq<Contact>, attacker: u64, enemies: Seq<u64>)
    ensures
        forall|e: u64|
            #[trigger] spec_hits(contacts, attacker, enemies).contains(e) <==> (enemies.contains(e)
                && spec_any_contact_links(contacts, attacker, e)),
        forall|i: int, j: int|
            0 <= i < j < spec_hits(contacts, attacker, enemies).len() ==> spec_hits(
                contacts,
                attacker,
                enemies,
            )[i] != spec_hits(contacts, attacker, enemies)[j],
    decreases enemies.len(),
{
    let hits = spec_hits(contacts, attacker, enemies);
    if enemies.len() == 0 {
        assert(forall|e: u64| !(#[trigger] hits.contains(e)));
        assert(forall|e: u64| !(#[trigger] enemies.contains(e)));
    } else {
        let prefix = enemies.drop_last();
        let last = enemies.last();
        let rest = spec_hits(contacts, attacker, prefix);
        lemma_hits_characterization(contacts, attacker, prefix);
        assert(forall|e: u64| #[trigger] enemies.contains(e) <==> prefix.contains(e) || e == last)
            by {
            assert(forall|e: u64| #[trigger]
                prefix.contains(e) ==> enemies.contains(e)) by {
                assert(forall|i: int|
                    0 <= i < prefix.len() ==> prefix[i] == #[trigger] enemies[i]);
            }
            assert(enemies.contains(last)) by {
                assert(enemies[enemies.len() - 1] == last);
            }
            assert(forall|e: u64| #[trigger]
                enemies.contains(e) ==> prefix.contains(e) || e == last) by {
                assert forall|e: u64| #[trigger] enemies.contains(e) implies prefix.contains(e)
                    || e == last by {
                    let i = choose|i: int| 0 <= i < enemies.len() && enemies[i] == e;
                    if i < enemies.len() - 1 {
                        assert(prefix[i] == e);
                    }
                }
            }
        }
        if spec_any_contact_links(contacts, attacker, last) && !rest.contains(last) {
            assert(hits == rest.push(last));
            assert forall|e: u64| #[trigger] hits.contains(e) implies rest.contains(e) || e
                == last by {
                let i = choose|i: int| 0 <= i < hits.len() && hits[i] == e;
                if i < hits.len() - 1 {
                    assert(rest[i] == e);
                }
            }
            assert forall|e: u64| rest.contains(e) || e == last implies #[trigger] hits.contains(
                e,
            ) by {
                if rest.contains(e) {
                    let i = choose|i: int| 0 <= i < rest.len() && rest[i] == e;
                    assert(hits[i] == e);
                } else {
                    assert(hits[hits.len() - 1] == e);
                }
            }
        } else {
            assert(hits == rest);
        }
    }
}

/// Law: the hit list cares only for which pairs are linked, not for how
/// many manifolds reported them: two contact feeds that link the attacker
/// to the same enemies produce the identical hit list.
pub proof fn lemma_hits_ignore_duplicate_contacts(
    c1: Seq<Contact>,
    c2: Seq<Contact>,
    attacker: u64,
    enemies: Seq<u64>,
)
    requires
        forall|e: u64|
            spec_any_contact_links(c1, attacker, e) == spec_any_contact_links(c2, attacker, e),
    ensures
        spec_hits(c1, attacker, enemies) == spec_hits(c2, attacker, enemies),
    decreases enemies.len(),
{
    if enemies.len() > 0 {
        lemma_hits_ignore_duplicate_contacts(c1, c2, attacker, enemies.drop_last());
    }
}

/// Whether any contact of this tick links the attacker with this enemy.
pub fn any_contact_links(contacts: &Vec<Contact>, attacker: u64, enemy: u64) -> (r: bool)
    ensures
        r == spec_any_contact_links(contacts@, attacker, enemy),
{
    let mut i: usize = 0;
    while i < contacts.len()
        invariant
            0 <= i <= contacts@.len(),
            forall|j: int| 0 <= j < i ==> !spec_contact_links(#[trigger] contacts@[j], attacker, enemy),
        decreases contacts@.len() - i,
    {
        let c = contacts[i];
        if (c.a == attacker && c.b == enemy) || (c.b == attacker && c.a == enemy) {
            return true;
        }
        i = i + 1;
    }
    false
}

fn ids_contain(ids: &Vec<u64>, x: u64) -> (r: bool)
    ensures
        r == ids@.contains(x),
{
    let mut i: usize = 0;
    while i < ids.len()
        invariant
            0 <= i <= ids@.len(),
            forall|j: int| 0 <= j < i ==> ids@[j] != x,
        decreases ids@.len() - i,
    {
        if ids[i] == x {
            return true;
        }
        i = i + 1;
    }
    false
}

/// Resolve one primary-action press: the live enemies that this tick's
/// contacts link to the player's attack hit-region, deduplicated by id so
/// a single press never applies damage twice to one enemy. Without a press
/// edge nothing is hit.
pub fn attack_hits(
    pressed: bool,
    contacts: &Vec<Contact>,
    attacker: u64,
    live_enemies: &Vec<u64>,
) -> (hits: Vec<u64>)
    ensures
        pressed ==> hits@ == spec_hits(contacts@, attacker, live_enemies@),
        !pressed ==> hits@ == Seq::<u64>::empty(),
{
    let mut hits: Vec<u64> = Vec::new();
    if !pressed {
        return hits;
    }
    let mut idx: usize = 0;
    while idx < live_enemies.len()
        invariant
            0 <= idx <= live_enemies@.len(),
            hits@ == spec_hits(contacts@, attacker, live_enemies@.subrange(0, idx as int)),
        decreases live_enemies@.len() - idx,
    {
        let e = live_enemies[idx];
        if any_contact_links(contacts, attacker, e) && !ids_contain(&hits, e) {
            hits.push(e);
        }
        idx = idx + 1;
        proof {
            let pre = live_enemies@.subrange(0, idx - 1);
            let cur = live_enemies@.subrange(0, idx as int);
            assert(cur.drop_last() =~= pre);
            assert(cur.last() == live_enemies@[idx - 1]);
        }
    }
    proof {
        assert(live_enemies@.subrange(0, live_enemies@.len() as int) =~= live_enemies@);
    }
    hits
}

/// Apply one combat event to its target: health drops by the player's
/// skill and fear climbs by ten times it; the bounds only keep the
/// arithmetic within the machine's integers.
pub fn apply_damage(enemy: &mut Enemy, skill: i64)
    requires
        i64::MIN <= old(enemy).hp - skill <= i64::MAX,
        i64::MIN <= skill * 10 <= i64::MAX,
        i64::MIN <= old(enemy).fear + skill * 10 <= i64::MAX,
    ensures
        final(enemy).hp == old(enemy).hp - skill,
        final(enemy).fear == old(enemy).fear + skill * 10,
        final(enemy).inventory == old(enemy).inventory,
        final(enemy).attack == old(enemy).attack,
        final(enemy).name == old(enemy).name,
{
    enemy.hp = enemy.hp - skill;
    enemy.fear = enemy.fear + skill * 10;
}

/// The one tunable of the damage pipeline: by how much a landed hit grows
/// the player's sword skill. The core rules leave skill untouched here
/// (zero); a variant lets every hit train it a little.
#[derive(Clone, Copy, Debug, PartialEq, Eq, Structural)]
pub struct CombatTuning {
    pub skill_growth_per_hit: i64,
}

/// Resolve one combat event against its target enemy: damage and fear from
/// the player's current skill, a fresh hit-reaction timer on the enemy's
/// visual attachment, and the tunable skill growth on the player. Health
/// reaching zero is left for the behavior machine's next evaluation.
pub fn resolve_hit(
    enemy: &mut Enemy,
    hit_slot: &mut Option<HitTimer>,
    player: &mut Player,
    tuning: &CombatTuning,
)
    requires
        i64::MIN <= old(enemy).hp - old(player).sword_skill <= i64::MAX,
        i64::MIN <= old(player).sword_skill * 10 <= i64::MAX,
        i64::MIN <= old(enemy).fear + old(player).sword_skill * 10 <= i64::MAX,
        i64::MIN <= old(player).sword_skill + tuning.skill_growth_per_hit <= i64::MAX,
    ensures
        final(enemy).hp == old(enemy).hp - old(player).sword_skill,
        final(enemy).fear == old(enemy).fear + old(player).sword_skill * 10,
        final(enemy).inventory == old(enemy).inventory,
        final(enemy).attack == old(enemy).attack,
        final(enemy).name == old(enemy).name,
        *final(hit_slot) == Some(HitTimer::spec_fresh()),
        final(player).sword_skill == old(player).sword_skill + tuning.skill_growth_per_hit,
        final(player).inventory == old(player).inventory,
        final(player).hp == old(player).hp,
        final(player).mp == old(player).mp,
        final(player).run_skill == old(player).run_skill,
        final(player).compleation == old(player).compleation,
{
    apply_damage(enemy, player.sword_skill);
    register_hit(hit_slot);
    player.sword_skill = player.sword_skill + tuning.skill_growth_per_hit;
}

} // verus!

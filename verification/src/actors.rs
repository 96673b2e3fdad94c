//! The entity state store: the player's and the enemies' gameplay
//! attributes, the item types, item pickup into the inventory, the
//! progression counter, and the player's own per-tick decisions (velocity
//! from held keys, pausing).
//!
//! Attributes are authored by the level loader when an actor spawns; this
//! module owns what happens to them afterwards.

use vstd::prelude::*;

use crate::behavior::EnemyMachine;
use crate::geometry::{dist_sq, in_bounds, spec_dist_sq, Point};

verus! {

/// Speed the player moves at while a direction key is held: 100 world units
/// per second, in milliunits.
pub const PLAYER_SPEED: i64 = 100_000;

/// Pickup radius: 20 world units, squared, in square milliunits. An item
/// strictly closer than this can be picked up.
pub const PICKUP_RADIUS_SQ: u64 = 400_000_000;

/// The coarse mode the whole game is in.
#[derive(Clone, Copy, Debug, PartialEq, Eq, Hash, Structural)]
pub enum GameState {
    LoadingScreen,
    MainMenu,
    InGame,
    Paused,
}

impl Default for GameState {
    fn default() -> (s: GameState)
        ensures
            s == GameState::LoadingScreen,
    {
        GameState::LoadingScreen
    }
}

/// What an item can be; picked-up items of any type stack in the inventory.
#[derive(Clone, Copy, Debug, PartialEq, Eq, Structural)]
pub enum ItemType {
    Key,
    Coins,
    Scroll,
    Bandage,
    Sword,
    Soul,
}

#[derive(Clone, Copy, Debug, PartialEq, Eq, Structural)]
pub enum ChestState {
    Open,
    Closed,
}

#[derive(Clone, Copy, Debug, PartialEq, Eq, Structural)]
pub enum DoorState {
    Open,
    Closed,
}

/// An item lying in the world: its type, and how many of it the stack
/// holds.
#[derive(Clone, Copy, Debug, PartialEq, Eq, Structural)]
pub struct Item {
    pub itype: ItemType,
    pub count: i32,
}

#[derive(Clone, Copy, Debug, PartialEq, Eq, Structural)]
pub struct Chest {
    pub state: ChestState,
}

#[derive(Clone, Copy, Debug, PartialEq, Eq, Structural)]
pub struct Door {
    pub state: DoorState,
}

/// An item together with where it lies.
#[derive(Clone, Copy, Debug, PartialEq, Eq, Structural)]
pub struct WorldItem {
    pub pos: Point,
    pub item: Item,
}

/// The player's authored and evolving attributes. The inventory is an
/// ordered, append-only sequence of item types, duplicates allowed;
/// `compleation` is the progression counter, raised only when an enemy's
/// death is first observed.
#[derive(Clone, Debug)]
pub struct Player {
    pub inventory: Vec<ItemType>,
    pub hp: i64,
    pub mp: i64,
    pub sword_skill: i64,
    pub run_skill: i64,
    pub compleation: u64,
}

/// An enemy's authored and evolving attributes; the name is substituted
/// into dialogue.
#[derive(Clone, Debug)]
pub struct Enemy {
    pub inventory: Vec<ItemType>,
    pub hp: i64,
    pub attack: i64,
    pub fear: i64,
    pub name: String,
}

/// The item types a pickup of `item` appends: `count` copies of its type,
/// or none when the authored count is not positive.
pub open spec fn spec_pickup_seq(item: Item) -> Seq<ItemType> {
    if item.count <= 0 {
        Seq::empty()
    } else {
        Seq::new(item.count as nat, |i: int| item.itype)
    }
}

/// Everything a sweep over `items` appends to the inventory: the pickup
/// sequences of the items in range, in order.
pub open spec fn spec_loot(player_pos: Point, items: Seq<WorldItem>) -> Seq<ItemType>
    decreases items.len(),
{
    if items.len() == 0 {
        Seq::empty()
    } else {
        spec_loot(player_pos, items.drop_last()) + (if spec_dist_sq(items.last().pos, player_pos)
            < PICKUP_RADIUS_SQ {
            spec_pickup_seq(items.last().item)
        } else {
            Seq::empty()
        })
    }
}

impl Player {
    /// Append one picked-up item stack to the inventory: `count` copies of
    /// its type, in order; nothing else about the player changes.
    pub fn store_item(&mut self, item: &Item)
        ensures
            final(self).inventory@ == old(self).inventory@ + spec_pickup_seq(*item),
            final(self).hp == old(self).hp,
            final(self).mp == old(self).mp,
            final(self).sword_skill == old(self).sword_skill,
            final(self).run_skill == old(self).run_skill,
            final(self).compleation == old(self).compleation,
    {
        let ghost start = self.inventory@;
        if item.count <= 0 {
            proof {
                assert(self.inventory@ =~= start + spec_pickup_seq(*item));
            }
            return ;
        }
        let count = item.count;
        let mut i: i32 = 0;
        while i < count
            invariant
                0 <= i <= count,
                0 < count,
                self.inventory@ == start + Seq::new(i as nat, |j: int| item.itype),
                self.hp == old(self).hp,
                self.mp == old(self).mp,
                self.sword_skill == old(self).sword_skill,
                self.run_skill == old(self).run_skill,
                self.compleation == old(self).compleation,
            decreases count - i,
        {
            self.inventory.push(item.itype);
            i = i + 1;
            proof {
                assert(self.inventory@ =~= start + Seq::new(i as nat, |j: int| item.itype));
            }
        }
        proof {
            assert(self.inventory@ =~= start + spec_pickup_seq(*item));
        }
    }

    /// One pickup sweep: every item strictly within the pickup radius of
    /// the player is taken into the inventory (its whole stack) and marked
    /// for despawning; the rest stay. The result says, item by item, which
    /// were taken.
    pub fn pick_up_items(&mut self, player_pos: Point, items: &Vec<WorldItem>) -> (taken: Vec<
        bool,
    >)
        requires
            in_bounds(player_pos),
            forall|i: int| 0 <= i < items@.len() ==> in_bounds(#[trigger] items@[i].pos),
        ensures
            taken@.len() == items@.len(),
            forall|i: int|
                0 <= i < items@.len() ==> taken@[i] == (spec_dist_sq(
                    #[trigger] items@[i].pos,
                    player_pos,
                ) < PICKUP_RADIUS_SQ),
            final(self).inventory@ == old(self).inventory@ + spec_loot(player_pos, items@),
            final(self).hp == old(self).hp,
            final(self).mp == old(self).mp,
            final(self).sword_skill == old(self).sword_skill,
            final(self).run_skill == old(self).run_skill,
            final(self).compleation == old(self).compleation,
    {
        let ghost start = self.inventory@;
        let mut taken: Vec<bool> = Vec::new();
        let mut idx: usize = 0;
        while idx < items.len()
            invariant
                0 <= idx <= items@.len(),
                in_bounds(player_pos),
                forall|i: int| 0 <= i < items@.len() ==> in_bounds(#[trigger] items@[i].pos),
                taken@.len() == idx,
                forall|i: int|
                    0 <= i < idx ==> taken@[i] == (spec_dist_sq(
                        #[trigger] items@[i].pos,
                        player_pos,
                    ) < PICKUP_RADIUS_SQ),
                self.inventory@ == start + spec_loot(player_pos, items@.subrange(0, idx as int)),
                self.hp == old(self).hp,
                self.mp == old(self).mp,
                self.sword_skill == old(self).sword_skill,
                self.run_skill == old(self).run_skill,
                self.compleation == old(self).compleation,
            decreases items@.len() - idx,
        {
            let entry = &items[idx];
            let d2 = dist_sq(entry.pos, player_pos);
            let near = d2 < PICKUP_RADIUS_SQ;
            if near {
                self.store_item(&entry.item);
            }
            taken.push(near);
            idx = idx + 1;
            proof {
                let pre = items@.subrange(0, idx - 1);
                let cur = items@.subrange(0, idx as int);
                assert(cur.drop_last() =~= pre);
                assert(cur.last() == items@[idx - 1]);
            }
        }
        proof {
            assert(items@.subrange(0, items@.len() as int) =~= items@);
        }
        taken
    }
}

/// Consume an enemy's one-shot "just died" flag: the first time a death is
/// observed the progression counter climbs by exactly one; the flag is
/// cleared, so the same death never counts again.
pub fn observe_death(player: &mut Player, m: &mut EnemyMachine) -> (counted: bool)
    requires
        old(player).compleation < u64::MAX,
        old(m).wf(),
    ensures
        counted == old(m).just_died,
        *final(m) == (EnemyMachine {
            player: old(m).player,
            behavior: old(m).behavior,
            follow_timer: old(m).follow_timer,
            flee_timer: old(m).flee_timer,
            just_died: false,
        }),
        final(m).wf(),
        final(player).compleation == old(player).compleation + (if counted {
            1int
        } else {
            0int
        }),
        final(player).inventory == old(player).inventory,
        final(player).hp == old(player).hp,
        final(player).mp == old(player).mp,
        final(player).sword_skill == old(player).sword_skill,
        final(player).run_skill == old(player).run_skill,
{
    if m.just_died {
        m.just_died = false;
        player.compleation = player.compleation + 1;
        true
    } else {
        false
    }
}

/// The player's velocity in milliunits per second, as set by the held
/// direction keys. A held key overwrites its axis; on a conflict the later
/// write wins (right over left, down over up); with neither key held the
/// axis keeps its old velocity and damping is left to the physics engine.
pub open spec fn spec_player_velocity(
    vx: i64,
    vy: i64,
    left: bool,
    right: bool,
    up: bool,
    down: bool,
) -> (i64, i64) {
    (
        if right {
            PLAYER_SPEED
        } else if left {
            (-PLAYER_SPEED) as i64
        } else {
            vx
        },
        if down {
            (-PLAYER_SPEED) as i64
        } else if up {
            PLAYER_SPEED
        } else {
            vy
        },
    )
}

pub fn player_velocity(vx: i64, vy: i64, left: bool, right: bool, up: bool, down: bool) -> (v: (
    i64,
    i64,
))
    ensures
        v == spec_player_velocity(vx, vy, left, right, up, down),
{
    let mut x = vx;
    let mut y = vy;
    if left {
        x = -PLAYER_SPEED;
    }
    if right {
        x = PLAYER_SPEED;
    }
    if up {
        y = PLAYER_SPEED;
    }
    if down {
        y = -PLAYER_SPEED;
    }
    (x, y)
}

/// The game-state decision of the per-tick input pass: pressing escape
/// pauses, anything else leaves the state alone.
pub fn pause_transition(state: GameState, escape_pressed: bool) -> (next: GameState)
    ensures
        next == (if escape_pressed {
            GameState::Paused
        } else {
            state
        }),
{
    if escape_pressed {
        GameState::Paused
    } else {
        state
    }
}

} // verus!

//! The dialogue trigger layer: the per-enemy one-shot timers attached on
//! entering `Follow` or `Flee` fire contextual narrative nodes, keyed by
//! the progression counter's tier; the enemy's display name rides along to
//! be bound into the dialogue engine's variable store before the node
//! starts.

use vstd::prelude::*;

use crate::behavior::EnemyMachine;
use crate::timers::{FleeDialogueTimer, FollowDialogueTimer};

verus! {

/// Kills per dialogue tier: the node index is the progression counter
/// divided by this.
pub const DIALOGUE_TIER: u64 = 25;

/// The decimal digit characters.
pub open spec fn spec_digit_char(d: int) -> char
    recommends
        0 <= d < 10,
{
    if d == 0 {
        '0'
    } else if d == 1 {
        '1'
    } else if d == 2 {
        '2'
    } else if d == 3 {
        '3'
    } else if d == 4 {
        '4'
    } else if d == 5 {
        '5'
    } else if d == 6 {
        '6'
    } else if d == 7 {
        '7'
    } else if d == 8 {
        '8'
    } else {
        '9'
    }
}

/// The usual decimal rendering of `n`: most significant digit first, no
/// leading zeroes (a lone zero for zero).
pub open spec fn spec_decimal(n: nat) -> Seq<char>
    decreases n,
{
    if n < 10 {
        seq![spec_digit_char(n as int)]
    } else {
        spec_decimal(n / 10) + seq![spec_digit_char((n % 10) as int)]
    }
}

/// The follow-entry node name: `HelloLevel{N}`.
pub open spec fn spec_hello_node(level: nat) -> Seq<char> {
    "HelloLevel"@ + spec_decimal(level)
}

/// The flee-entry node name: `WhyLevel{N}`.
pub open spec fn spec_why_node(level: nat) -> Seq<char> {
    "WhyLevel"@ + spec_decimal(level)
}

fn digit_str(d: u64) -> (s: &'static str)
    requires
        d < 10,
    ensures
        s@ == seq![spec_digit_char(d as int)],
{
    proof {
        reveal_strlit("0");
        reveal_strlit("1");
        reveal_strlit("2");
        reveal_strlit("3");
        reveal_strlit("4");
        reveal_strlit("5");
        reveal_strlit("6");
        reveal_strlit("7");
        reveal_strlit("8");
        reveal_strlit("9");
    }
    let s = match d {
        0 => "0",
        1 => "1",
        2 => "2",
        3 => "3",
        4 => "4",
        5 => "5",
        6 => "6",
        7 => "7",
        8 => "8",
        _ => "9",
    };
    proof {
        assert(s@ =~= seq![spec_digit_char(d as int)]);
    }
    s
}

/// Render `n` in decimal, exactly as [`spec_decimal`] says.
pub fn decimal_string(n: u64) -> (s: String)
    ensures
        s@ == spec_decimal(n as nat),
    decreases n,
{
    if n < 10 {
        String::from_str(digit_str(n))
    } else {
        let mut s = decimal_string(n / 10);
        s.append(digit_str(n % 10));
        proof {
            assert(s@ =~= spec_decimal(n as nat));
        }
        s
    }
}

/// The dialogue tier the progression counter has reached.
pub fn dialogue_level(compleation: u64) -> (level: u64)
    ensures
        level == compleation / DIALOGUE_TIER,
{
    compleation / DIALOGUE_TIER
}

/// The node fired when a follow-dialogue timer completes.
pub fn follow_node_name(compleation: u64) -> (s: String)
    ensures
        s@ == spec_hello_node((compleation / DIALOGUE_TIER) as nat),
{
    let mut s = String::from_str("HelloLevel");
    let tail = decimal_string(compleation / DIALOGUE_TIER);
    s.append(tail.as_str());
    s
}

/// The node fired when a flee-dialogue timer completes.
pub fn flee_node_name(compleation: u64) -> (s: String)
    ensures
        s@ == spec_why_node((compleation / DIALOGUE_TIER) as nat),
{
    let mut s = String::from_str("WhyLevel");
    let tail = decimal_string(compleation / DIALOGUE_TIER);
    s.append(tail.as_str());
    s
}

/// The follow-dialogue timer slot after one tick: gone once its time runs
/// out (it fires exactly then), ticked down otherwise.
pub open spec fn spec_follow_timer_after(
    slot: Option<FollowDialogueTimer>,
    dt_ms: u64,
) -> Option<FollowDialogueTimer> {
    match slot {
        None => None,
        Some(t) => if t.countdown.spec_just_finishes(dt_ms) {
            None
        } else {
            Some(FollowDialogueTimer { countdown: t.countdown.spec_tick(dt_ms) })
        },
    }
}

/// Whether the follow-dialogue timer completes on this very tick.
pub open spec fn spec_follow_fires(slot: Option<FollowDialogueTimer>, dt_ms: u64) -> bool {
    slot matches Some(t) && t.countdown.spec_just_finishes(dt_ms)
}

/// The flee-dialogue timer slot after one tick.
pub open spec fn spec_flee_timer_after(
    slot: Option<FleeDialogueTimer>,
    dt_ms: u64,
) -> Option<FleeDialogueTimer> {
    match slot {
        None => None,
        Some(t) => if t.countdown.spec_just_finishes(dt_ms) {
            None
        } else {
            Some(FleeDialogueTimer { countdown: t.countdown.spec_tick(dt_ms) })
        },
    }
}

/// Whether the flee-dialogue timer completes on this very tick.
pub open spec fn spec_flee_fires(slot: Option<FleeDialogueTimer>, dt_ms: u64) -> bool {
    slot matches Some(t) && t.countdown.spec_just_finishes(dt_ms)
}

/// What the dialogue engine is asked to do when an intent timer fires.
/// No two nodes ever run at once: when one is active it is stopped first,
/// last trigger wins.
#[derive(Clone, Debug)]
pub struct DialogueCue {
    /// A node is currently active and must be stopped before starting.
    pub stop_current: bool,
    /// The node to start.
    pub node: String,
    /// The value to bind to the name variable before starting.
    pub speaker: String,
}

/// Advance the enemy's follow-dialogue timer by this tick's elapsed time.
/// On the tick the half second completes, the timer is dropped and the cue
/// names the `HelloLevel{N}` node of the current progression tier, with
/// the enemy's display name to bind; on every other tick there is no cue.
pub fn follow_dialogue_tick(
    m: &mut EnemyMachine,
    dt_ms: u64,
    enemy_name: &String,
    compleation: u64,
    node_active: bool,
) -> (cue: Option<DialogueCue>)
    requires
        old(m).wf(),
    ensures
        final(m).player == old(m).player,
        final(m).behavior == old(m).behavior,
        final(m).flee_timer == old(m).flee_timer,
        final(m).just_died == old(m).just_died,
        final(m).wf(),
        final(m).follow_timer == spec_follow_timer_after(old(m).follow_timer, dt_ms),
        cue is Some <==> spec_follow_fires(old(m).follow_timer, dt_ms),
        cue matches Some(c) ==> {
            &&& c.stop_current == node_active
            &&& c.node@ == spec_hello_node((compleation / DIALOGUE_TIER) as nat)
            &&& c.speaker@ == enemy_name@
        },
{
    match m.follow_timer {
        None => None,
        Some(t) => {
            let mut cd = t.countdown;
            let finished = cd.tick(dt_ms);
            if finished {
                m.follow_timer = None;
                let node = follow_node_name(compleation);
                let speaker = enemy_name.clone();
                Some(DialogueCue { stop_current: node_active, node, speaker })
            } else {
                m.follow_timer = Some(FollowDialogueTimer { countdown: cd });
                None
            }
        },
    }
}

/// Advance the enemy's flee-dialogue timer by this tick's elapsed time.
/// On the tick the full second completes, the timer is dropped and the cue
/// names the `WhyLevel{N}` node of the current progression tier, with the
/// enemy's display name to bind; on every other tick there is no cue.
pub fn flee_dialogue_tick(
    m: &mut EnemyMachine,
    dt_ms: u64,
    enemy_name: &String,
    compleation: u64,
    node_active: bool,
) -> (cue: Option<DialogueCue>)
    requires
        old(m).wf(),
    ensures
        final(m).player == old(m).player,
        final(m).behavior == old(m).behavior,
        final(m).follow_timer == old(m).follow_timer,
        final(m).just_died == old(m).just_died,
        final(m).wf(),
        final(m).flee_timer == spec_flee_timer_after(old(m).flee_timer, dt_ms),
        cue is Some <==> spec_flee_fires(old(m).flee_timer, dt_ms),
        cue matches Some(c) ==> {
            &&& c.stop_current == node_active
            &&& c.node@ == spec_why_node((compleation / DIALOGUE_TIER) as nat)
            &&& c.speaker@ == enemy_name@
        },
{
    match m.flee_timer {
        None => None,
        Some(t) => {
            let mut cd = t.countdown;
            let finished = cd.tick(dt_ms);
            if finished {
                m.flee_timer = None;
                let node = flee_node_name(compleation);
                let speaker = enemy_name.clone();
                Some(DialogueCue { stop_current: node_active, node, speaker })
            } else {
                m.flee_timer = Some(FleeDialogueTimer { countdown: cd });
                None
            }
        },
    }
}

} // verus!

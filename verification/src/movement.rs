//! Movement of enemies in `Follow` or `Flee`: each tick, the planar
//! direction from the enemy to its target, normalized and scaled by
//! `speed * elapsed`, is added to the position (follow) or subtracted from it
//! (flee) — the identical vector, sign-flipped, through one shared routine.
//!
//! With integer milliunit coordinates the normalized step is computed as
//! `|d| * step / dist` per axis, where `dist` is the floor square root of the
//! squared distance; an exactly overlapping target yields the zero vector,
//! so there is no divide-by-zero.

use vstd::arithmetic::div_mod::{
    lemma_div_is_ordered, lemma_div_multiples_vanish, lemma_div_pos_is_pos,
    lemma_multiply_divide_le,
};
use vstd::prelude::*;

use crate::geometry::{dist_sq, in_bounds, isqrt, spec_dist_sq, spec_sqrt_floor, Point};
use crate::geometry::{lemma_sqrt_floor_at_least, lemma_sqrt_floor_of_square};

verus! {

/// Largest speed the movement math accepts, in milliunits per second.
pub const SPEED_LIMIT: u64 = 1_000_000;

/// Largest elapsed time per tick the movement math accepts, in milliseconds.
pub const DT_LIMIT: u64 = 60_000;

/// Largest step length a tick can produce: `SPEED_LIMIT * DT_LIMIT / 1000`.
pub const STEP_LIMIT: u64 = 60_000_000;

pub open spec fn spec_abs(x: int) -> int {
    if x >= 0 {
        x
    } else {
        -x
    }
}

/// Distance covered in one tick, in milliunits: speed is per second, the
/// elapsed time in milliseconds.
pub open spec fn spec_step_len(speed: u64, dt_ms: u64) -> int {
    speed * dt_ms / 1000
}

/// The magnitude of one step's displacement along one axis: the axis gap
/// scaled by `step / dist`, rounded toward zero.
pub open spec fn spec_axis_mag(gap: int, step: int, dist: int) -> int {
    spec_abs(gap) * step / dist
}

/// The per-axis displacement of one movement step toward `t`: the direction
/// vector scaled to length `step` (rounded toward zero per axis), or the
/// zero vector when the target exactly overlaps.
pub open spec fn spec_move_delta(p: Point, t: Point, step: int) -> (int, int) {
    let dx = t.x - p.x;
    let dy = t.y - p.y;
    if dx == 0 && dy == 0 {
        (0, 0)
    } else {
        let dist = spec_sqrt_floor(spec_dist_sq(p, t) as nat) as int;
        (
            if dx >= 0 {
                spec_axis_mag(dx, step, dist)
            } else {
                -spec_axis_mag(dx, step, dist)
            },
            if dy >= 0 {
                spec_axis_mag(dy, step, dist)
            } else {
                -spec_axis_mag(dy, step, dist)
            },
        )
    }
}

/// Position after one follow step: the delta is added.
pub open spec fn spec_approach(p: Point, t: Point, step: int) -> (int, int) {
    let d = spec_move_delta(p, t, step);
    (p.x + d.0, p.y + d.1)
}

/// Position after one flee step: the same delta, subtracted.
pub open spec fn spec_retreat(p: Point, t: Point, step: int) -> (int, int) {
    let d = spec_move_delta(p, t, step);
    (p.x - d.0, p.y - d.1)
}

/// The squared distance dominates the square of each axis gap, so the floor
/// root is at least each axis gap, and is positive when the points differ.
proof fn lemma_axis_at_most_dist(p: Point, t: Point)
    requires
        in_bounds(p),
        in_bounds(t),
    ensures
        0 <= spec_dist_sq(p, t),
        spec_abs(t.x - p.x) <= spec_sqrt_floor(spec_dist_sq(p, t) as nat) as int,
        spec_abs(t.y - p.y) <= spec_sqrt_floor(spec_dist_sq(p, t) as nat) as int,
        t.x != p.x || t.y != p.y ==> 1 <= spec_sqrt_floor(spec_dist_sq(p, t) as nat) as int,
{
    let dx = t.x - p.x;
    let dy = t.y - p.y;
    let d2 = spec_dist_sq(p, t);
    assert(d2 == spec_abs(dx) * spec_abs(dx) + spec_abs(dy) * spec_abs(dy)) by (nonlinear_arith)
        requires
            d2 == (p.x - t.x) * (p.x - t.x) + (p.y - t.y) * (p.y - t.y),
            dx == t.x - p.x,
            dy == t.y - p.y,
            spec_abs(dx) == if dx >= 0 { dx } else { -dx },
            spec_abs(dy) == if dy >= 0 { dy } else { -dy },
    ;
    assert(spec_abs(dx) * spec_abs(dx) <= d2 && spec_abs(dy) * spec_abs(dy) <= d2 && 0 <= d2)
        by (nonlinear_arith)
        requires
            d2 == spec_abs(dx) * spec_abs(dx) + spec_abs(dy) * spec_abs(dy),
    ;
    lemma_sqrt_floor_at_least(d2 as nat, spec_abs(dx) as nat);
    lemma_sqrt_floor_at_least(d2 as nat, spec_abs(dy) as nat);
    if dx != 0 || dy != 0 {
        assert(1 <= d2) by (nonlinear_arith)
            requires
                d2 == spec_abs(dx) * spec_abs(dx) + spec_abs(dy) * spec_abs(dy),
                spec_abs(dx) >= 1 || spec_abs(dy) >= 1,
                spec_abs(dx) >= 0,
                spec_abs(dy) >= 0,
        ;
        lemma_sqrt_floor_at_least(d2 as nat, 1);
    }
}

/// The axis magnitude of a step is between zero and `step`, and while
/// `step <= dist` it never exceeds the axis gap itself.
proof fn lemma_axis_mag_bounds(gap: int, step: int, dist: int)
    requires
        0 <= step,
        1 <= dist,
        spec_abs(gap) <= dist,
    ensures
        0 <= spec_axis_mag(gap, step, dist) <= step,
        step <= dist ==> spec_axis_mag(gap, step, dist) <= spec_abs(gap),
{
    let a = spec_abs(gap);
    assert(0 <= a);
    lemma_div_pos_is_pos(a * step, dist);
    assert(a * step <= dist * step) by (nonlinear_arith)
        requires
            a <= dist,
            0 <= step,
    ;
    lemma_multiply_divide_le(a * step, dist, step);
    if step <= dist {
        assert(a * step <= dist * a) by (nonlinear_arith)
            requires
                step <= dist,
                0 <= a,
        ;
        lemma_multiply_divide_le(a * step, dist, a);
    }
}

/// Facts every movement step rests on: the delta points along the direction
/// to the target and each component is at most `step` in magnitude.
pub proof fn lemma_move_delta_bounds(p: Point, t: Point, step: int)
    requires
        in_bounds(p),
        in_bounds(t),
        0 <= step,
    ensures
        t.x >= p.x ==> 0 <= spec_move_delta(p, t, step).0 <= step,
        t.x <= p.x ==> -step <= spec_move_delta(p, t, step).0 <= 0,
        t.y >= p.y ==> 0 <= spec_move_delta(p, t, step).1 <= step,
        t.y <= p.y ==> -step <= spec_move_delta(p, t, step).1 <= 0,
{
    let dx = t.x - p.x;
    let dy = t.y - p.y;
    if dx == 0 && dy == 0 {
    } else {
        let dist = spec_sqrt_floor(spec_dist_sq(p, t) as nat) as int;
        lemma_axis_at_most_dist(p, t);
        lemma_axis_mag_bounds(dx, step, dist);
        lemma_axis_mag_bounds(dy, step, dist);
        if dx == 0 {
            assert(spec_abs(dx) * step == 0) by (nonlinear_arith)
                requires
                    spec_abs(dx) == 0,
            ;
            assert(spec_axis_mag(dx, step, dist) == 0) by {
                lemma_div_pos_is_pos(spec_abs(dx) * step, dist);
                lemma_multiply_divide_le(spec_abs(dx) * step, dist, 0);
            }
        }
        if dy == 0 {
            assert(spec_abs(dy) * step == 0) by (nonlinear_arith)
                requires
                    spec_abs(dy) == 0,
            ;
            assert(spec_axis_mag(dy, step, dist) == 0) by {
                lemma_div_pos_is_pos(spec_abs(dy) * step, dist);
                lemma_multiply_divide_le(spec_abs(dy) * step, dist, 0);
            }
        }
    }
}

/// Law: while the step length stays within the current distance (squared
/// comparison, so exact), a follow step never overshoots and never moves
/// away: each coordinate stays between its old value and the target's.
pub proof fn lemma_approach_no_overshoot(p: Point, t: Point, step: int)
    requires
        in_bounds(p),
        in_bounds(t),
        0 <= step,
        step * step <= spec_dist_sq(p, t),
    ensures
        t.x >= p.x ==> p.x <= spec_approach(p, t, step).0 <= t.x,
        t.x <= p.x ==> t.x <= spec_approach(p, t, step).0 <= p.x,
        t.y >= p.y ==> p.y <= spec_approach(p, t, step).1 <= t.y,
        t.y <= p.y ==> t.y <= spec_approach(p, t, step).1 <= p.y,
{
    let dx = t.x - p.x;
    let dy = t.y - p.y;
    if dx == 0 && dy == 0 {
    } else {
        let d2 = spec_dist_sq(p, t);
        let dist = spec_sqrt_floor(d2 as nat) as int;
        lemma_axis_at_most_dist(p, t);
        lemma_sqrt_floor_at_least(d2 as nat, step as nat);
        // step <= dist, so the magnitude on each axis stays within the gap.
        lemma_axis_mag_bounds(dx, step, dist);
        lemma_axis_mag_bounds(dy, step, dist);
        lemma_move_delta_bounds(p, t, step);
    }
}

/// Law: with the gap along a single axis, a follow step that stays within
/// the gap closes it by exactly the step length, and the other axis is
/// untouched.
pub proof fn lemma_approach_axis_exact(p: Point, t: Point, step: int)
    requires
        in_bounds(p),
        in_bounds(t),
        p.y == t.y,
        p.x != t.x,
        0 <= step <= spec_abs(t.x - p.x),
    ensures
        t.x > p.x ==> spec_approach(p, t, step).0 == p.x + step,
        t.x < p.x ==> spec_approach(p, t, step).0 == p.x - step,
        spec_approach(p, t, step).1 == p.y,
{
    let dx = t.x - p.x;
    let d2 = spec_dist_sq(p, t);
    let adx = spec_abs(dx);
    assert(d2 == adx * adx) by (nonlinear_arith)
        requires
            d2 == (p.x - t.x) * (p.x - t.x) + (p.y - t.y) * (p.y - t.y),
            p.y == t.y,
            dx == t.x - p.x,
            adx == if dx >= 0 { dx } else { -dx },
    ;
    lemma_sqrt_floor_of_square(adx as nat);
    let dist = spec_sqrt_floor(d2 as nat) as int;
    assert(dist == adx);
    lemma_div_multiples_vanish(step, adx);
    assert(adx * step == dist * step) by (nonlinear_arith)
        requires
            adx == dist,
    ;
    assert(spec_axis_mag(dx, step, dist) == step);
    assert(spec_abs(0) * step == 0) by (nonlinear_arith);
    assert(spec_axis_mag(0, step, dist) == 0) by {
        lemma_div_pos_is_pos(spec_abs(0) * step, dist);
        lemma_multiply_divide_le(spec_abs(0) * step, dist, 0);
    }
}

/// Law: a flee step moves each coordinate away from the target (or leaves
/// it unchanged where the axis gap is zero): the gap to the target never
/// shrinks on either axis.
pub proof fn lemma_retreat_moves_away(p: Point, t: Point, step: int)
    requires
        in_bounds(p),
        in_bounds(t),
        0 <= step,
    ensures
        t.x >= p.x ==> t.x - spec_retreat(p, t, step).0 >= t.x - p.x,
        t.x <= p.x ==> t.x - spec_retreat(p, t, step).0 <= t.x - p.x,
        t.y >= p.y ==> t.y - spec_retreat(p, t, step).1 >= t.y - p.y,
        t.y <= p.y ==> t.y - spec_retreat(p, t, step).1 <= t.y - p.y,
{
    lemma_move_delta_bounds(p, t, step);
}

/// Step length for one tick; bounded so every later product fits.
pub fn step_length(speed: u64, dt_ms: u64) -> (step: u64)
    requires
        speed <= SPEED_LIMIT,
        dt_ms <= DT_LIMIT,
    ensures
        step == spec_step_len(speed, dt_ms),
        step <= STEP_LIMIT,
{
    proof {
        assert(speed * dt_ms <= 60_000_000_000) by (nonlinear_arith)
            requires
                speed <= 1_000_000u64,
                dt_ms <= 60_000u64,
        ;
        lemma_div_is_ordered(speed * dt_ms, 60_000_000_000, 1000);
    }
    speed * dt_ms / 1000
}

/// The shared normalized step, as the signed per-axis displacement.
fn move_delta(p: Point, t: Point, step: u64) -> (m: (i64, i64))
    requires
        in_bounds(p),
        in_bounds(t),
        step <= STEP_LIMIT,
    ensures
        (m.0 as int, m.1 as int) == spec_move_delta(p, t, step as int),
        -(step as int) <= m.0 <= step as int,
        -(step as int) <= m.1 <= step as int,
{
    let dx = t.x - p.x;
    let dy = t.y - p.y;
    if dx == 0 && dy == 0 {
        return (0, 0);
    }
    let d2 = dist_sq(p, t);
    let dist = isqrt(d2);
    let adx: u64 = if dx >= 0 {
        dx as u64
    } else {
        (-dx) as u64
    };
    let ady: u64 = if dy >= 0 {
        dy as u64
    } else {
        (-dy) as u64
    };
    proof {
        lemma_axis_at_most_dist(p, t);
        assert(adx == spec_abs(t.x - p.x) && ady == spec_abs(t.y - p.y));
        assert(adx * step <= 180_000_000_000_000_000u64) by (nonlinear_arith)
            requires
                adx <= 3_000_000_000u64,
                step <= 60_000_000u64,
        ;
        assert(ady * step <= 180_000_000_000_000_000u64) by (nonlinear_arith)
            requires
                ady <= 3_000_000_000u64,
                step <= 60_000_000u64,
        ;
        lemma_axis_mag_bounds(t.x - p.x, step as int, dist as int);
        lemma_axis_mag_bounds(t.y - p.y, step as int, dist as int);
    }
    let mx = adx * step / dist;
    let my = ady * step / dist;
    let sx: i64 = if dx >= 0 {
        mx as i64
    } else {
        -(mx as i64)
    };
    let sy: i64 = if dy >= 0 {
        my as i64
    } else {
        -(my as i64)
    };
    (sx, sy)
}

/// One tick of `Follow` movement: approach the target along the straight
/// line, covering `speed * elapsed` milliunits (componentwise rounded
/// toward zero), with no steering and no pathfinding.
pub fn follow_step(p: Point, target: Point, speed: u64, dt_ms: u64) -> (q: Point)
    requires
        in_bounds(p),
        in_bounds(target),
        speed <= SPEED_LIMIT,
        dt_ms <= DT_LIMIT,
    ensures
        (q.x as int, q.y as int) == spec_approach(p, target, spec_step_len(speed, dt_ms)),
{
    let step = step_length(speed, dt_ms);
    let m = move_delta(p, target, step);
    Point { x: p.x + m.0, y: p.y + m.1 }
}

/// One tick of `Flee` movement: retreat from the target by the identical
/// vector, sign-flipped.
pub fn flee_step(p: Point, target: Point, speed: u64, dt_ms: u64) -> (q: Point)
    requires
        in_bounds(p),
        in_bounds(target),
        speed <= SPEED_LIMIT,
        dt_ms <= DT_LIMIT,
    ensures
        (q.x as int, q.y as int) == spec_retreat(p, target, spec_step_len(speed, dt_ms)),
{
    let step = step_length(speed, dt_ms);
    let m = move_delta(p, target, step);
    Point { x: p.x - m.0, y: p.y - m.1 }
}

} // verus!

//! Planar positions in milliunits, squared distances, and an integer square
//! root, floor-exact, for the movement math.
//!
//! All thresholds of the game are stated in world units; with coordinates
//! kept in milliunits, "distance at most 60 units" is exactly "squared
//! distance at most `60_000 * 60_000` square milliunits", so no rounding ever
//! enters a predicate.

use vstd::prelude::*;

verus! {

/// Largest coordinate magnitude, in milliunits, that the geometry accepts.
/// Chosen so that a squared distance always fits in a `u64`:
/// `(2 * COORD_LIMIT)^2 * 2 < u64::MAX`.
pub const COORD_LIMIT: i64 = 1_500_000_000;

/// A planar position (the depth axis is ignored throughout), in milliunits.
#[derive(Clone, Copy, Debug, PartialEq, Eq, Structural)]
pub struct Point {
    pub x: i64,
    pub y: i64,
}

/// Both coordinates within the magnitude the geometry accepts.
pub open spec fn in_bounds(p: Point) -> bool {
    -COORD_LIMIT <= p.x <= COORD_LIMIT && -COORD_LIMIT <= p.y <= COORD_LIMIT
}

/// Squared planar distance, as an unbounded integer.
pub open spec fn spec_dist_sq(a: Point, b: Point) -> int {
    (a.x - b.x) * (a.x - b.x) + (a.y - b.y) * (a.y - b.y)
}

/// The floor of the square root of `n`: the largest `r` with `r * r <= n`.
pub open spec fn spec_sqrt_floor(n: nat) -> nat
    decreases n,
{
    if n == 0 {
        0
    } else {
        let r = spec_sqrt_floor((n - 1) as nat);
        if (r + 1) * (r + 1) <= n {
            r + 1
        } else {
            r
        }
    }
}

/// `spec_sqrt_floor(n)` really is the floor of the square root of `n`.
pub proof fn lemma_sqrt_floor_bounds(n: nat)
    ensures
        spec_sqrt_floor(n) * spec_sqrt_floor(n) <= n,
        n < (spec_sqrt_floor(n) + 1) * (spec_sqrt_floor(n) + 1),
    decreases n,
{
    if n == 0 {
        assert(spec_sqrt_floor(n) == 0);
        assert(n < (spec_sqrt_floor(n) + 1) * (spec_sqrt_floor(n) + 1)) by (nonlinear_arith)
            requires
                n == 0nat,
                spec_sqrt_floor(n) == 0,
        ;
        assert(spec_sqrt_floor(n) * spec_sqrt_floor(n) <= n) by (nonlinear_arith)
            requires
                n == 0nat,
                spec_sqrt_floor(n) == 0,
        ;
    } else {
        lemma_sqrt_floor_bounds((n - 1) as nat);
        let r = spec_sqrt_floor((n - 1) as nat);
        let s = spec_sqrt_floor(n);
        if (r + 1) * (r + 1) <= n {
            assert(s == r + 1);
            // The root steps up to r + 1; n - 1 < (r + 1)^2 <= n forces
            // n == (r + 1)^2, which lies strictly below (r + 2)^2.
            assert(s * s <= n && n < (s + 1) * (s + 1)) by (nonlinear_arith)
                requires
                    s == r + 1,
                    (r + 1) * (r + 1) <= n,
                    n - 1 < (r + 1) * (r + 1),
            ;
        } else {
            assert(s == r);
            assert(s * s <= n && n < (s + 1) * (s + 1)) by (nonlinear_arith)
                requires
                    s == r,
                    r * r <= n - 1,
                    !((r + 1) * (r + 1) <= n),
            ;
        }
    }
}

/// Any `r` with `r * r <= n < (r + 1) * (r + 1)` is the floor root.
pub proof fn lemma_sqrt_floor_unique(n: nat, r: nat)
    requires
        r * r <= n,
        n < (r + 1) * (r + 1),
    ensures
        r == spec_sqrt_floor(n),
{
    let s = spec_sqrt_floor(n);
    lemma_sqrt_floor_bounds(n);
    if r < s {
        assert((r + 1) * (r + 1) <= s * s) by (nonlinear_arith)
            requires
                r + 1 <= s,
        ;
    }
    if s < r {
        assert((s + 1) * (s + 1) <= r * r) by (nonlinear_arith)
            requires
                s + 1 <= r,
        ;
    }
}

/// The floor root of a perfect square is its root.
pub proof fn lemma_sqrt_floor_of_square(a: nat)
    ensures
        spec_sqrt_floor(a * a) == a,
{
    assert(a * a < (a + 1) * (a + 1)) by (nonlinear_arith);
    lemma_sqrt_floor_unique(a * a, a);
}

/// The floor root is at least any `a` whose square stays at or below `n`.
pub proof fn lemma_sqrt_floor_at_least(n: nat, a: nat)
    requires
        a * a <= n,
    ensures
        a <= spec_sqrt_floor(n),
{
    let s = spec_sqrt_floor(n);
    lemma_sqrt_floor_bounds(n);
    if s < a {
        assert((s + 1) * (s + 1) <= a * a) by (nonlinear_arith)
            requires
                s + 1 <= a,
        ;
    }
}

/// Integer square root by bisection, exact to the floor.
pub fn isqrt(n: u64) -> (r: u64)
    ensures
        r == spec_sqrt_floor(n as nat),
{
    if n == 0 {
        return 0;
    }
    let mut lo: u64 = 0;
    let mut hi: u64 = 0x1_0000_0000;
    proof {
        assert((hi as int) * (hi as int) > n as int) by (nonlinear_arith)
            requires
                hi == 0x1_0000_0000u64,
                n <= u64::MAX,
        ;
    }
    while lo + 1 < hi
        invariant
            lo < hi <= 0x1_0000_0000u64,
            (lo as int) * (lo as int) <= n as int,
            (n as int) < (hi as int) * (hi as int),
        decreases hi - lo,
    {
        let mid = lo + (hi - lo) / 2;
        proof {
            assert(lo < mid < hi) by (nonlinear_arith)
                requires
                    mid == lo + (hi - lo) / 2,
                    lo + 1 < hi,
            ;
            assert((mid as int) * (mid as int) <= u64::MAX) by (nonlinear_arith)
                requires
                    mid < 0x1_0000_0000u64,
            ;
        }
        let sq = mid * mid;
        if sq <= n {
            lo = mid;
        } else {
            hi = mid;
        }
    }
    proof {
        lemma_sqrt_floor_unique(n as nat, lo as nat);
    }
    lo
}

/// Squared planar distance between two in-bounds points.
pub fn dist_sq(a: Point, b: Point) -> (d2: u64)
    requires
        in_bounds(a),
        in_bounds(b),
    ensures
        d2 == spec_dist_sq(a, b),
{
    let dx = a.x - b.x;
    let dy = a.y - b.y;
    let adx: u64 = if dx >= 0 {
        dx as u64
    } else {
        (-dx) as u64
    };
    let ady: u64 = if dy >= 0 {
        dy as u64
    } else {
        (-dy) as u64
    };
    proof {
        assert((adx as int) * (adx as int) == (dx as int) * (dx as int)) by (nonlinear_arith)
            requires
                adx == if dx >= 0 { dx as int } else { -(dx as int) },
        ;
        assert((ady as int) * (ady as int) == (dy as int) * (dy as int)) by (nonlinear_arith)
            requires
                ady == if dy >= 0 { dy as int } else { -(dy as int) },
        ;
        assert((adx as int) * (adx as int) + (ady as int) * (ady as int) <= u64::MAX)
            by (nonlinear_arith)
            requires
                adx <= 3_000_000_000u64,
                ady <= 3_000_000_000u64,
        ;
    }
    adx * adx + ady * ady
}

} // verus!

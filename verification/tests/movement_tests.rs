use gamecore::geometry::{dist_sq, isqrt, Point};
use gamecore::movement::{flee_step, follow_step, step_length};

#[test]
fn isqrt_exact_values() {
    assert_eq!(isqrt(0), 0);
    assert_eq!(isqrt(1), 1);
    assert_eq!(isqrt(2), 1);
    assert_eq!(isqrt(3), 1);
    assert_eq!(isqrt(4), 2);
    assert_eq!(isqrt(8), 2);
    assert_eq!(isqrt(9), 3);
    assert_eq!(isqrt(3_600_000_000), 60_000);
    assert_eq!(isqrt(3_599_999_999), 59_999);
    assert_eq!(isqrt(u64::MAX), 4_294_967_295);
}

#[test]
fn dist_sq_exact_values() {
    let a = Point { x: 0, y: 0 };
    let b = Point { x: 3_000, y: 4_000 };
    assert_eq!(dist_sq(a, b), 25_000_000); // a 3-4-5 triangle, 5 units
    assert_eq!(dist_sq(b, a), 25_000_000);
    let c = Point { x: -3_000, y: -4_000 };
    assert_eq!(dist_sq(a, c), 25_000_000);
    assert_eq!(dist_sq(a, a), 0);
}

#[test]
fn step_length_is_speed_times_elapsed() {
    // 15 units per second for 100 ms is 1.5 units
    assert_eq!(step_length(15_000, 100), 1_500);
    assert_eq!(step_length(15_000, 1_000), 15_000);
    assert_eq!(step_length(25_000, 40), 1_000);
    assert_eq!(step_length(0, 1_000), 0);
    assert_eq!(step_length(15_000, 0), 0);
}

#[test]
fn follow_moves_by_speed_times_dt_along_axis() {
    // an enemy in Follow with speed 15 and distance 30 along the x-axis
    // moves toward the player by 15 * dt each tick
    let target = Point { x: 30_000, y: 0 };
    let mut pos = Point { x: 0, y: 0 };
    pos = follow_step(pos, target, 15_000, 100);
    assert_eq!(pos, Point { x: 1_500, y: 0 });
    pos = follow_step(pos, target, 15_000, 100);
    assert_eq!(pos, Point { x: 3_000, y: 0 });
}

#[test]
fn follow_never_moves_away_until_distance_zero() {
    let target = Point { x: 30_000, y: 0 };
    let mut pos = Point { x: 0, y: 0 };
    let mut last_x = pos.x;
    for _ in 0..40 {
        pos = follow_step(pos, target, 15_000, 100);
        assert!(pos.x >= last_x, "never moves away");
        assert!(pos.x <= target.x, "never crosses the target going in");
        assert_eq!(pos.y, 0);
        last_x = pos.x;
    }
    // 30 units at 1.5 units per tick: arrived after 20 ticks, then stays
    assert_eq!(pos, target);
}

#[test]
fn overlapping_target_means_no_movement() {
    let p = Point { x: 123, y: -456 };
    assert_eq!(follow_step(p, p, 15_000, 100), p);
    assert_eq!(flee_step(p, p, 25_000, 100), p);
}

#[test]
fn flee_is_the_same_vector_sign_flipped() {
    let target = Point { x: 30_000, y: 0 };
    let pos = Point { x: 0, y: 0 };
    let followed = follow_step(pos, target, 15_000, 100);
    let fled = flee_step(pos, target, 15_000, 100);
    assert_eq!(followed.x, 1_500);
    assert_eq!(fled.x, -1_500);
    assert_eq!(followed.y, 0);
    assert_eq!(fled.y, 0);
}

#[test]
fn flee_moves_away_each_tick() {
    let target = Point { x: 10_000, y: 5_000 };
    let mut pos = Point { x: 4_000, y: 2_000 };
    let mut last_d2 = dist_sq(pos, target);
    for _ in 0..10 {
        pos = flee_step(pos, target, 25_000, 100);
        let d2 = dist_sq(pos, target);
        assert!(d2 >= last_d2, "the gap to the target never shrinks");
        last_d2 = d2;
    }
}

#[test]
fn diagonal_follow_step_stays_within_step_length() {
    let target = Point { x: 30_000, y: 40_000 };
    let pos = Point { x: 0, y: 0 };
    let q = follow_step(pos, target, 15_000, 1_000);
    // step length 15 units against a 50-unit gap: componentwise 9 and 12
    assert_eq!(q, Point { x: 9_000, y: 12_000 });
}

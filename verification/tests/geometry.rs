use starbase_core::geom::{
    clamp_coord, dist_sq_u64, isqrt, move_toward, rotation_sign, Vec2i, COORD_LIMIT,
};
use starbase_core::timer::{Timer, TimerMode};

#[test]
fn squared_distances_are_exact() {
    let a = Vec2i { x: 3_000, y: 4_000 };
    let o = Vec2i { x: 0, y: 0 };
    assert_eq!(dist_sq_u64(a, o), 25_000_000);
    assert_eq!(dist_sq_u64(a, a), 0);
    let b = Vec2i { x: -1_000, y: 1_000 };
    assert_eq!(dist_sq_u64(a, b), 16_000_000 + 9_000_000);
}

#[test]
fn integer_square_roots() {
    assert_eq!(isqrt(0), 0);
    assert_eq!(isqrt(1), 1);
    assert_eq!(isqrt(3), 1);
    assert_eq!(isqrt(4), 2);
    assert_eq!(isqrt(24), 4);
    assert_eq!(isqrt(25), 5);
    assert_eq!(isqrt(u64::MAX), 4_294_967_295);
}

#[test]
fn clamping_respects_the_world_bound() {
    assert_eq!(clamp_coord(COORD_LIMIT + 5), COORD_LIMIT);
    assert_eq!(clamp_coord(-COORD_LIMIT - 5), -COORD_LIMIT);
    assert_eq!(clamp_coord(123), 123);
}

#[test]
fn rotation_sign_follows_the_cross_product() {
    let north = Vec2i { x: 0, y: 1_000 };
    let west = Vec2i { x: -1_000, y: 0 };
    let east = Vec2i { x: 1_000, y: 0 };
    assert_eq!(rotation_sign(north, west), 1);
    assert_eq!(rotation_sign(north, east), -1);
}

#[test]
fn movement_steps_toward_the_target_without_overshoot() {
    let from = Vec2i { x: 0, y: 0 };
    let to = Vec2i { x: 10_000, y: 0 };
    let p = move_toward(from, to, 3_000);
    assert_eq!(p, Vec2i { x: 3_000, y: 0 });
    // A step longer than the distance stops at the target.
    let q = move_toward(from, to, 50_000);
    assert_eq!(q, to);
    // Diagonal movement splits the step by the direction.
    let d = move_toward(from, Vec2i { x: 3_000, y: 4_000 }, 1_000);
    assert_eq!(d, Vec2i { x: 600, y: 800 });
}

#[test]
fn once_timer_latches_until_reset() {
    let mut t = Timer::from_ms(1_000, TimerMode::Once);
    t.tick(400);
    assert!(!t.finished());
    t.tick(600);
    assert!(t.finished());
    assert!(t.just_finished());
    t.tick(100);
    assert!(t.finished());
    assert!(!t.just_finished());
    assert_eq!(t.elapsed_ms(), 1_000);
    t.reset();
    assert!(!t.finished());
    assert_eq!(t.elapsed_ms(), 0);
}

#[test]
fn repeating_timer_wraps_and_reports_each_completion() {
    let mut t = Timer::from_ms(1_000, TimerMode::Repeating);
    t.tick(999);
    assert!(!t.just_finished());
    t.tick(1);
    assert!(t.just_finished());
    assert_eq!(t.elapsed_ms(), 0);
    t.tick(2_500);
    assert!(t.just_finished());
    assert_eq!(t.elapsed_ms(), 500);
    t.tick(100);
    assert!(!t.just_finished());
    assert_eq!(t.elapsed_ms(), 600);
}

use tether_arena::geom::Vec2;
use tether_arena::spawn::{spawn_asteroid, SpawnScheduler};

fn fresh() -> SpawnScheduler {
    SpawnScheduler::new(Vec2 { x: 0, y: 0 })
}

#[test]
fn countdown_starts_at_three_seconds() {
    let s = fresh();
    assert_eq!(s.duration_micros, 3_000_000);
    assert_eq!(s.elapsed_micros, 0);
}

#[test]
fn countdown_accumulates_without_firing() {
    let mut s = fresh();
    assert!(!s.tick(1_000_000));
    assert_eq!(s.elapsed_micros, 1_000_000);
    assert!(!s.tick(1_999_999));
    assert_eq!(s.elapsed_micros, 2_999_999);
    assert_eq!(s.duration_micros, 3_000_000);
}

#[test]
fn countdown_fires_and_rescales() {
    let mut s = fresh();
    assert!(!s.tick(2_999_999));
    assert!(s.tick(1));
    assert_eq!(s.duration_micros, 2_880_000);
    assert_eq!(s.elapsed_micros, 0);
}

#[test]
fn ten_spawns_leave_just_under_two_seconds() {
    // Starting at 3.0 time-units, ten successive spawns rescale the duration
    // by 24/25 each time: 3.0 * 0.96^10 is about 1.9945, well above the
    // half-second floor.
    let mut s = fresh();
    for _ in 0..10 {
        assert!(s.tick(10_000_000));
    }
    assert_eq!(s.duration_micros, 1_994_496);
    assert!(s.duration_micros > 500_000);
}

#[test]
fn duration_is_monotone_and_floored() {
    let mut s = fresh();
    let mut last = s.duration_micros;
    for _ in 0..60 {
        assert!(s.tick(10_000_000));
        assert!(s.duration_micros <= last);
        assert!(s.duration_micros >= 500_000);
        last = s.duration_micros;
    }
    // The forty-fourth spawn lands on the floor; after that it stays there.
    assert_eq!(s.duration_micros, 500_000);
}

#[test]
fn floor_reached_at_forty_fourth_spawn() {
    let mut s = fresh();
    for _ in 0..43 {
        assert!(s.tick(10_000_000));
    }
    assert!(s.duration_micros > 500_000);
    assert!(s.tick(10_000_000));
    assert_eq!(s.duration_micros, 500_000);
}

#[test]
fn spawned_asteroid_axis_aligned() {
    // Largest x draw, centered y draw: the direction comes out (1000, 0);
    // smallest speed draw: one hundred units per second.
    let a = spawn_asteroid(Vec2 { x: 7, y: 9 }, u32::MAX, 2_147_483_648, 0).unwrap();
    assert_eq!(a.pos, Vec2 { x: 7, y: 9 });
    assert_eq!(a.vel, Vec2 { x: 100_000, y: 0 });
    assert_eq!(a.radius_milli, 12_000);
    assert!(a.alive);
}

#[test]
fn spawned_asteroid_fastest_and_largest() {
    let a = spawn_asteroid(Vec2 { x: 0, y: 0 }, 0, 2_147_483_648, u32::MAX).unwrap();
    // Smallest x draw points the other way; the largest speed draw gives one
    // hundred fifty units per second and the largest size.
    assert_eq!(a.vel, Vec2 { x: -150_000, y: 0 });
    assert_eq!(a.radius_milli, 14_000);
}

#[test]
fn speed_and_size_are_correlated() {
    // One draw feeds both speed and size; they move together.
    let a = spawn_asteroid(Vec2 { x: 0, y: 0 }, u32::MAX, 2_147_483_648, 3_000_000_000).unwrap();
    assert_eq!(a.vel, Vec2 { x: 134_924, y: 0 });
    assert_eq!(a.radius_milli, 13_396);
}

#[test]
fn degenerate_direction_draw_spawns_nothing() {
    // Both direction draws map to zero: no direction, no asteroid.
    let a = spawn_asteroid(Vec2 { x: 0, y: 0 }, 2_147_483_648, 2_147_483_648, 0);
    assert!(a.is_none());
}

#[test]
fn diagonal_direction_is_normalized() {
    // Both draws at the top map to (1000, 1000), length 1414: both velocity
    // components come out equal and near the drawn speed over root two.
    let a = spawn_asteroid(Vec2 { x: 0, y: 0 }, u32::MAX, u32::MAX, 0).unwrap();
    assert_eq!(a.vel.x, a.vel.y);
    let n2 = (a.vel.x as i128) * (a.vel.x as i128) + (a.vel.y as i128) * (a.vel.y as i128);
    // Squared speed within one percent of the drawn speed squared.
    let target = 100_000i128 * 100_000;
    assert!(n2 > target - target / 100);
    assert!(n2 < target + target / 100);
}

use tether_arena::asteroid::Asteroid;
use tether_arena::geom::{dist_sq, isqrt, unit_dir, vec_add, vec_sub, Vec2};
use tether_arena::health::HealthPool;
use tether_arena::score::score_text;
use tether_arena::tether::TetherProxy;

#[test]
fn integer_square_root_brackets() {
    assert_eq!(isqrt(0), 0);
    assert_eq!(isqrt(1), 1);
    assert_eq!(isqrt(3), 1);
    assert_eq!(isqrt(4), 2);
    assert_eq!(isqrt(999_999), 999);
    assert_eq!(isqrt(1_000_000), 1_000);
    assert_eq!(isqrt(2_000_000), 1_414);
}

#[test]
fn unit_direction_of_a_pythagorean_vector_is_exact() {
    let d = unit_dir(3, 4);
    assert_eq!(d, Vec2 { x: 600, y: 800 });
    assert_eq!(d.x * d.x + d.y * d.y, 1_000_000);
    let d = unit_dir(-300, 400);
    assert_eq!(d, Vec2 { x: -600, y: 800 });
}

#[test]
fn unit_direction_length_stays_near_one() {
    // Coarse vectors round hardest; the squared length still stays within
    // the quantization band the library proves.
    for (x, y) in [(1, 2), (7, -3), (999, 1000), (-50, 1), (2, 2)] {
        let d = unit_dir(x, y);
        let n2 = d.x * d.x + d.y * d.y;
        assert!(n2 <= 4_000_000, "squared length {} for ({}, {})", n2, x, y);
        assert!(n2 > 250_000, "squared length {} for ({}, {})", n2, x, y);
    }
    // At realistic stick and draw magnitudes the band is tight.
    for (x, y) in [(707, 707), (1000, -1), (-600, 800), (123, 456)] {
        let d = unit_dir(x, y);
        let n2 = d.x * d.x + d.y * d.y;
        assert!(n2 <= 1_010_000, "squared length {} for ({}, {})", n2, x, y);
        assert!(n2 > 990_000, "squared length {} for ({}, {})", n2, x, y);
    }
}

#[test]
fn vector_sums_and_distances_are_exact() {
    let a = Vec2 { x: 100_000_000_000, y: -3 };
    let b = Vec2 { x: -100_000_000_000, y: 1 };
    assert_eq!(vec_add(a, b), Vec2 { x: 0, y: -2 });
    assert_eq!(vec_sub(a, b), Vec2 { x: 200_000_000_000, y: -4 });
    assert_eq!(dist_sq(a, b), 200_000_000_000i128 * 200_000_000_000 + 16);
}

#[test]
fn asteroid_advances_by_velocity_times_time() {
    let a = Asteroid {
        pos: Vec2 { x: 0, y: 1_000 },
        vel: Vec2 { x: 100_000, y: -50_000 },
        radius_milli: 12_000,
        alive: true,
    };
    // One second: one hundred units along x, fifty back along y.
    let b = a.advanced(1_000_000);
    assert_eq!(b.pos, Vec2 { x: 100_000_000_000, y: -49_999_999_000 });
    assert_eq!(b.vel, a.vel);
    assert!(b.alive);
}

#[test]
fn tether_proxy_mirrors_the_live_pair() {
    let mut p = TetherProxy::new(Vec2 { x: 0, y: 0 }, Vec2 { x: 0, y: 0 });
    let a = Vec2 { x: 10_000, y: 20_000 };
    let b = Vec2 { x: -6_000, y: 4_000 };
    p.recompute(a, b);
    assert_eq!(p.midpoint_doubled(), Vec2 { x: 4_000, y: 24_000 });
    assert_eq!(p.length_sq(), 16_000i128 * 16_000 + 16_000i128 * 16_000);
    assert_eq!(p.direction(), Vec2 { x: -16_000, y: -16_000 });
    // The proxy mirrors whatever separation exists, including one well off
    // the joint's configured maximum.
    let far = Vec2 { x: 900_000_000_000, y: 0 };
    p.recompute(Vec2 { x: 0, y: 0 }, far);
    assert_eq!(p.length_sq(), 900_000_000_000i128 * 900_000_000_000);
}

#[test]
fn health_bar_width_tracks_the_fraction() {
    let h = HealthPool { milli: 1_000 };
    assert_eq!(h.bar_width_millipx(), 180_000);
    let h = HealthPool { milli: 800 };
    assert_eq!(h.bar_width_millipx(), 144_000);
    let h = HealthPool { milli: 0 };
    assert_eq!(h.bar_width_millipx(), 0);
}

#[test]
fn health_damage_is_clamped() {
    let h = HealthPool { milli: 1_000 };
    assert_eq!(h.damaged().milli, 800);
    let h = HealthPool { milli: 100 };
    assert_eq!(h.damaged().milli, 0);
    let h = HealthPool { milli: 0 };
    assert_eq!(h.damaged().milli, 0);
}

#[test]
fn score_display_is_zero_padded_to_two_digits() {
    assert_eq!(score_text(0), "00");
    assert_eq!(score_text(5), "05");
    assert_eq!(score_text(10), "10");
    assert_eq!(score_text(42), "42");
    assert_eq!(score_text(100), "100");
    assert_eq!(score_text(9_007), "9007");
}

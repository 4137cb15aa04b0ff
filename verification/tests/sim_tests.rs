use tether_arena::geom::Vec2;
use tether_arena::health::HealthPool;
use tether_arena::router::{ContactEvent, Shared};
use tether_arena::score::ScoreCounter;
use tether_arena::ship::{connect_gamepad, disconnect_gamepad, initial_ships, steer, thrust};
use tether_arena::sim::{banner_text, end_game_cleanup, frame, spawn_grid, World};
use tether_arena::state::GameState;

#[test]
fn world_starts_with_two_ships_and_eight_spawn_points() {
    let w = World::new();
    assert_eq!(w.ships.len(), 2);
    assert_eq!(w.ships[0].pos, Vec2 { x: 100_000_000_000, y: 0 });
    assert_eq!(w.ships[1].pos, Vec2 { x: -100_000_000_000, y: 0 });
    assert_eq!(w.spawners.len(), 8);
    assert!(w.asteroids.is_empty());
    assert_eq!(w.tether.proxy.end_a, w.ships[0].pos);
    assert_eq!(w.tether.proxy.end_b, w.ships[1].pos);
}

#[test]
fn spawn_grid_covers_the_boundary_of_the_three_by_three() {
    let g = spawn_grid();
    assert_eq!(g.len(), 8);
    let s = 200_000_000_000i64;
    for p in &g {
        assert!(p.x.abs() == s || p.x == 0);
        assert!(p.y.abs() == s || p.y == 0);
        assert!(!(p.x == 0 && p.y == 0));
    }
}

#[test]
fn quiet_frame_only_advances_countdowns() {
    let mut w = World::new();
    let mut shared = Shared::new();
    let events: Vec<ContactEvent> = Vec::new();
    let draws = vec![0u32; 24];
    let effects = frame(&mut w, &mut shared, 1_000_000, &events, &draws);
    assert!(effects.is_empty());
    assert!(w.asteroids.is_empty());
    for s in &w.spawners {
        assert_eq!(s.elapsed_micros, 1_000_000);
        assert_eq!(s.duration_micros, 3_000_000);
    }
    assert_eq!(shared.health.unwrap().milli, 1_000);
    assert_eq!(shared.state, GameState::Running);
}

#[test]
fn every_spawn_point_fires_after_three_seconds() {
    let mut w = World::new();
    let mut shared = Shared::new();
    let events: Vec<ContactEvent> = Vec::new();
    // Each firing spawner takes a fixed block of three draws; all aimed
    // along +x at the slowest speed.
    let mut draws: Vec<u32> = Vec::new();
    for _ in 0..8 {
        draws.push(u32::MAX);
        draws.push(2_147_483_648);
        draws.push(0);
    }
    let effects = frame(&mut w, &mut shared, 3_000_000, &events, &draws);
    assert!(effects.is_empty());
    assert_eq!(w.asteroids.len(), 8);
    let grid = spawn_grid();
    for (k, a) in w.asteroids.iter().enumerate() {
        assert_eq!(a.pos, grid[k]);
        assert_eq!(a.vel, Vec2 { x: 100_000, y: 0 });
        assert!(a.alive);
    }
    for s in &w.spawners {
        assert_eq!(s.duration_micros, 2_880_000);
        assert_eq!(s.elapsed_micros, 0);
    }
}

#[test]
fn frame_routes_damage_and_keeps_the_tether_current() {
    let mut w = World::new();
    let mut shared = Shared::new();
    let draws = vec![0u32; 24];
    // Drop one asteroid into the arena by hand and let it hit ship 0.
    w.asteroids.push(tether_arena::asteroid::Asteroid {
        pos: Vec2 { x: 0, y: 0 },
        vel: Vec2 { x: 1_000, y: 0 },
        radius_milli: 12_000,
        alive: true,
    });
    // Move a ship: the proxy must follow the live positions this frame.
    w.ships[0].pos = Vec2 { x: 50_000_000_000, y: 10 };
    let events = vec![ContactEvent { first: 3, second: 0 }];
    let effects = frame(&mut w, &mut shared, 1_000_000, &events, &draws);
    assert!(effects.is_empty());
    assert_eq!(shared.health.unwrap().milli, 800);
    assert_eq!(shared.state, GameState::Running);
    assert!(!w.asteroids[0].alive);
    // The asteroid moved before contact resolution, one second at one
    // milli-unit-per-second.
    assert_eq!(w.asteroids[0].pos, Vec2 { x: 1_000_000_000, y: 0 });
    assert_eq!(w.tether.proxy.end_a, Vec2 { x: 50_000_000_000, y: 10 });
    assert_eq!(w.tether.proxy.end_b, w.ships[1].pos);
}

#[test]
fn ended_game_freezes_the_whole_pipeline() {
    let mut w = World::new();
    w.asteroids.push(tether_arena::asteroid::Asteroid {
        pos: Vec2 { x: 5, y: 5 },
        vel: Vec2 { x: 9_999, y: 0 },
        radius_milli: 12_000,
        alive: true,
    });
    let mut shared = Shared {
        health: Some(HealthPool { milli: 0 }),
        scores: vec![ScoreCounter { value: 3 }],
        state: GameState::Ended,
    };
    let events = vec![ContactEvent { first: 3, second: 2 }];
    let draws = vec![u32::MAX; 24];
    let effects = frame(&mut w, &mut shared, 3_000_000, &events, &draws);
    assert!(effects.is_empty());
    assert_eq!(w.asteroids.len(), 1);
    assert_eq!(w.asteroids[0].pos, Vec2 { x: 5, y: 5 });
    assert!(w.asteroids[0].alive);
    assert_eq!(shared.scores[0].value, 3);
    for s in &w.spawners {
        assert_eq!(s.elapsed_micros, 0);
    }
}

#[test]
fn end_of_game_removes_the_health_display() {
    let mut shared = Shared {
        health: Some(HealthPool { milli: 0 }),
        scores: vec![ScoreCounter { value: 7 }],
        state: GameState::Ended,
    };
    end_game_cleanup(&mut shared);
    assert!(shared.health.is_none());
    assert_eq!(shared.scores[0].value, 7);
    assert_eq!(shared.state, GameState::Ended);
    assert_eq!(banner_text(), "GAME END");
}

#[test]
fn first_free_ship_claims_a_connected_controller() {
    let mut ships = initial_ships();
    connect_gamepad(&mut ships, 11);
    assert_eq!(ships[0].gamepad, Some(11));
    assert_eq!(ships[1].gamepad, None);
    connect_gamepad(&mut ships, 22);
    assert_eq!(ships[0].gamepad, Some(11));
    assert_eq!(ships[1].gamepad, Some(22));
    // No free ship: a third controller is left unassigned.
    connect_gamepad(&mut ships, 33);
    assert_eq!(ships[0].gamepad, Some(11));
    assert_eq!(ships[1].gamepad, Some(22));
}

#[test]
fn disconnect_clears_the_matching_assignment() {
    let mut ships = initial_ships();
    connect_gamepad(&mut ships, 11);
    connect_gamepad(&mut ships, 22);
    disconnect_gamepad(&mut ships, 11);
    assert_eq!(ships[0].gamepad, None);
    assert_eq!(ships[1].gamepad, Some(22));
    // The freed slot is the first to claim the next controller.
    connect_gamepad(&mut ships, 44);
    assert_eq!(ships[0].gamepad, Some(44));
}

#[test]
fn stick_inside_the_dead_zone_leaves_facing_alone() {
    let ships = initial_ships();
    let s = steer(ships[0], 50, 50);
    assert_eq!(s.facing, Vec2 { x: 0, y: 1000 });
    let s = steer(ships[0], 71, 71);
    assert_eq!(s.facing, Vec2 { x: 710, y: 710 });
    let s = steer(ships[0], -1000, 0);
    assert_eq!(s.facing, Vec2 { x: -1000, y: 0 });
}

#[test]
fn thrust_accelerates_along_the_facing_up_to_the_speed_limit() {
    let ships = initial_ships();
    let mut ship = steer(ships[0], 1000, 0);
    assert_eq!(ship.facing, Vec2 { x: 1000, y: 0 });
    ship = thrust(ship);
    // Twenty units per second gained along +x.
    assert_eq!(ship.vel, Vec2 { x: 20_000, y: 0 });
    for _ in 0..100 {
        ship = thrust(ship);
    }
    // Clamped at one thousand units per second.
    assert_eq!(ship.vel, Vec2 { x: 1_000_000, y: 0 });
}

#[test]
fn a_session_ends_after_five_strikes_and_then_freezes() {
    let mut w = World::new();
    let mut shared = Shared::new();
    let draws = vec![0u32; 24];
    for k in 0..5u64 {
        w.asteroids.push(tether_arena::asteroid::Asteroid {
            pos: Vec2 { x: 90_000_000_000, y: 0 },
            vel: Vec2 { x: 0, y: 0 },
            radius_milli: 12_000,
            alive: true,
        });
        let handle = 3 + k;
        let events = vec![ContactEvent { first: handle, second: 0 }];
        frame(&mut w, &mut shared, 1_000, &events, &draws);
        assert_eq!(shared.health.unwrap().milli, 1_000 - 200 * (k as u32 + 1));
    }
    assert_eq!(shared.state, GameState::Ended);
    // Every frame from here on is frozen: countdowns hold still.
    let elapsed_before = w.spawners[0].elapsed_micros;
    let no_events: Vec<ContactEvent> = Vec::new();
    frame(&mut w, &mut shared, 1_000_000, &no_events, &draws);
    assert_eq!(w.spawners[0].elapsed_micros, elapsed_before);
}

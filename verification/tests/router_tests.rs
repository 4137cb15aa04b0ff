use tether_arena::asteroid::Asteroid;
use tether_arena::geom::Vec2;
use tether_arena::health::HealthPool;
use tether_arena::router::{route_events, ContactEvent, Shared};
use tether_arena::score::ScoreCounter;
use tether_arena::state::GameState;

fn asteroid_at(x: i64, y: i64) -> Asteroid {
    Asteroid {
        pos: Vec2 { x, y },
        vel: Vec2 { x: 0, y: 0 },
        radius_milli: 12_000,
        alive: true,
    }
}

fn shared_with_health(milli: u32) -> Shared {
    Shared {
        health: Some(HealthPool { milli }),
        scores: vec![ScoreCounter { value: 0 }],
        state: GameState::Running,
    }
}

// Handles: ships are 0 and 1, the tether proxy is 2, and the asteroid in
// slot i carries handle 3 + i.

#[test]
fn single_damage_event_from_full_health() {
    let mut asteroids = vec![asteroid_at(0, 0)];
    let mut shared = shared_with_health(1_000);
    let events = vec![ContactEvent { first: 3, second: 0 }];
    let effects = route_events(&mut asteroids, &mut shared, &events);
    assert_eq!(shared.health.unwrap().milli, 800);
    assert_eq!(shared.state, GameState::Running);
    assert!(!asteroids[0].alive);
    assert_eq!(shared.scores[0].value, 0);
    assert!(effects.is_empty());
}

#[test]
fn damage_at_last_fifth_ends_the_game() {
    let mut asteroids = vec![asteroid_at(0, 0)];
    let mut shared = shared_with_health(200);
    let events = vec![ContactEvent { first: 0, second: 3 }];
    route_events(&mut asteroids, &mut shared, &events);
    assert_eq!(shared.health.unwrap().milli, 0);
    assert_eq!(shared.state, GameState::Ended);
}

#[test]
fn damage_after_the_end_changes_nothing_observable() {
    let mut asteroids = vec![asteroid_at(0, 0)];
    let mut shared = shared_with_health(200);
    let events = vec![ContactEvent { first: 3, second: 1 }];
    route_events(&mut asteroids, &mut shared, &events);
    assert_eq!(shared.health.unwrap().milli, 0);
    assert_eq!(shared.state, GameState::Ended);
    // A second damage event delivered afterwards: no further decrement, no
    // re-trigger.
    let mut more = vec![asteroid_at(5, 5)];
    let again = vec![ContactEvent { first: 3, second: 0 }];
    route_events(&mut more, &mut shared, &again);
    assert_eq!(shared.health.unwrap().milli, 0);
    assert_eq!(shared.state, GameState::Ended);
}

#[test]
fn five_hits_end_the_game_and_not_before() {
    let mut asteroids: Vec<Asteroid> = (0..5i64).map(|i| asteroid_at(i, 0)).collect();
    let mut shared = shared_with_health(1_000);
    for k in 0..5u32 {
        let events = vec![ContactEvent { first: 3 + k as u64, second: 0 }];
        route_events(&mut asteroids, &mut shared, &events);
        let h = shared.health.unwrap().milli;
        if k < 4 {
            assert_eq!(h, 1_000 - 200 * (k + 1));
            assert_eq!(shared.state, GameState::Running);
        } else {
            assert_eq!(h, 0);
            assert_eq!(shared.state, GameState::Ended);
        }
    }
}

#[test]
fn asteroid_asteroid_and_ship_ship_contacts_are_isolated() {
    let mut asteroids = vec![asteroid_at(0, 0), asteroid_at(1, 1)];
    let mut shared = shared_with_health(1_000);
    let events = vec![
        ContactEvent { first: 3, second: 4 }, // asteroid with asteroid
        ContactEvent { first: 0, second: 1 }, // ship with ship
        ContactEvent { first: 0, second: 2 }, // ship with tether
        ContactEvent { first: 99, second: 0 }, // unknown body with ship
    ];
    let effects = route_events(&mut asteroids, &mut shared, &events);
    assert_eq!(shared.health.unwrap().milli, 1_000);
    assert_eq!(shared.scores[0].value, 0);
    assert_eq!(shared.state, GameState::Running);
    assert!(asteroids[0].alive && asteroids[1].alive);
    assert!(effects.is_empty());
}

#[test]
fn score_event_broadcasts_to_every_display() {
    let mut asteroids = vec![asteroid_at(42, -7)];
    let mut shared = Shared {
        health: Some(HealthPool { milli: 1_000 }),
        scores: vec![ScoreCounter { value: 0 }, ScoreCounter { value: 0 }],
        state: GameState::Running,
    };
    let events = vec![ContactEvent { first: 3, second: 2 }];
    let effects = route_events(&mut asteroids, &mut shared, &events);
    assert_eq!(shared.scores[0].value, 1);
    assert_eq!(shared.scores[1].value, 1);
    assert_eq!(shared.health.unwrap().milli, 1_000);
    assert!(!asteroids[0].alive);
    assert_eq!(effects.len(), 1);
    assert_eq!(effects[0], Vec2 { x: 42, y: -7 });
}

#[test]
fn consumed_asteroid_contributes_at_most_one_outcome() {
    // The same asteroid raises two simultaneous contacts; the first consumes
    // it, so the second is ignored.
    let mut asteroids = vec![asteroid_at(0, 0)];
    let mut shared = shared_with_health(1_000);
    let events = vec![
        ContactEvent { first: 3, second: 0 },
        ContactEvent { first: 3, second: 2 },
    ];
    let effects = route_events(&mut asteroids, &mut shared, &events);
    assert_eq!(shared.health.unwrap().milli, 800);
    assert_eq!(shared.scores[0].value, 0);
    assert!(effects.is_empty());
}

#[test]
fn missing_health_pool_drops_the_damage_event() {
    let mut asteroids = vec![asteroid_at(0, 0)];
    let mut shared = Shared {
        health: None,
        scores: vec![ScoreCounter { value: 0 }],
        state: GameState::Running,
    };
    let events = vec![ContactEvent { first: 3, second: 0 }];
    route_events(&mut asteroids, &mut shared, &events);
    // Dropped whole: even the asteroid survives.
    assert!(asteroids[0].alive);
    assert!(shared.health.is_none());
    assert_eq!(shared.state, GameState::Running);
}

#[test]
fn events_resolve_in_arrival_order() {
    // Two asteroids, one damaging and one scoring: both land, in order.
    let mut asteroids = vec![asteroid_at(0, 0), asteroid_at(9, 9)];
    let mut shared = shared_with_health(1_000);
    let events = vec![
        ContactEvent { first: 4, second: 2 },
        ContactEvent { first: 3, second: 1 },
    ];
    let effects = route_events(&mut asteroids, &mut shared, &events);
    assert_eq!(shared.health.unwrap().milli, 800);
    assert_eq!(shared.scores[0].value, 1);
    assert!(!asteroids[0].alive && !asteroids[1].alive);
    assert_eq!(effects.len(), 1);
    assert_eq!(effects[0], Vec2 { x: 9, y: 9 });
}

#[test]
fn score_counter_saturates_at_the_machine_limit() {
    let top = ScoreCounter { value: u64::MAX };
    assert_eq!(top.incremented().value, u64::MAX);
    let near = ScoreCounter { value: u64::MAX - 1 };
    assert_eq!(near.incremented().value, u64::MAX);
}

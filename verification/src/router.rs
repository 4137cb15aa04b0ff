//! The collision router: consumes the frame's raw contact events in arrival
//! order, classifies each participant as asteroid, ship, tether proxy or
//! other, and dispatches exactly one outcome per event. A contact of one
//! live asteroid with a ship follows the damage path; with the tether proxy,
//! the score path; every other pairing is ignored. An asteroid is marked
//! consumed on its first successful classification, so it contributes at
//! most one outcome per frame even when it raises several simultaneous
//! contacts.

use vstd::prelude::*;
use vstd::pervasive::VecAdditionalExecFns;
use crate::asteroid::Asteroid;
use crate::geom::Vec2;
use crate::health::{HealthPool, spec_damaged};
use crate::score::{ScoreCounter, spec_all_incremented, spec_inc_sat, increment_all};
use crate::state::{GameState, spec_observe_health};

verus! {

/// Handle of the first ship.
pub const SHIP_A_HANDLE: u64 = 0;

/// Handle of the second ship.
pub const SHIP_B_HANDLE: u64 = 1;

/// Handle of the tether proxy.
pub const TETHER_HANDLE: u64 = 2;

/// The asteroid in arena slot `i` carries handle `ASTEROID_HANDLE_BASE + i`.
/// Slots are stable: a consumed asteroid leaves a tombstone, so handles are
/// never reused within a session.
pub const ASTEROID_HANDLE_BASE: u64 = 3;

/// One raw contact notification: the handles of two overlapping bodies, as
/// produced by the external contact-detection stage.
#[derive(Clone, Copy, PartialEq, Eq, Structural, Debug)]
pub struct ContactEvent {
    pub first: u64,
    pub second: u64,
}

/// The shared mutable singletons, owned by the top-level simulation loop
/// and passed by explicit mutable reference into the router each frame.
/// An absent health pool models the removed health display: damage events
/// are then dropped whole.
pub struct Shared {
    pub health: Option<HealthPool>,
    pub scores: Vec<ScoreCounter>,
    pub state: GameState,
}

/// Everything the router reads and writes, as one mathematical value: the
/// asteroid arena, the health fraction, the score values, the game state,
/// and the cosmetic impact-effect requests emitted so far.
#[verifier::ext_equal]
pub ghost struct RouteModel {
    pub asteroids: Seq<Asteroid>,
    pub health: Option<u32>,
    pub scores: Seq<u64>,
    pub state: GameState,
    pub effects: Seq<Vec2>,
}

/// The health fraction behind an optional pool.
pub open spec fn spec_health_view(h: Option<HealthPool>) -> Option<u32> {
    match h {
        Some(hp) => Some(hp.milli),
        None => None,
    }
}

/// The values shown by a row of score displays.
pub open spec fn spec_scores_view(s: Seq<ScoreCounter>) -> Seq<u64> {
    s.map_values(|c: ScoreCounter| c.value)
}

/// The router's model of an arena, the shared singletons and the effect
/// requests emitted so far.
pub open spec fn route_model(asteroids: Seq<Asteroid>, shared: Shared, effects: Seq<Vec2>) -> RouteModel {
    RouteModel {
        asteroids: asteroids,
        health: spec_health_view(shared.health),
        scores: spec_scores_view(shared.scores@),
        state: shared.state,
        effects: effects,
    }
}

/// `h` is a ship handle.
pub open spec fn spec_is_ship(h: u64) -> bool {
    h == SHIP_A_HANDLE || h == SHIP_B_HANDLE
}

/// `h` is the tether proxy's handle.
pub open spec fn spec_is_tether(h: u64) -> bool {
    h == TETHER_HANDLE
}

/// `h` names a live (not yet consumed) asteroid in the arena.
pub open spec fn spec_is_live_asteroid(asteroids: Seq<Asteroid>, h: u64) -> bool {
    h >= ASTEROID_HANDLE_BASE && h - ASTEROID_HANDLE_BASE < asteroids.len() && asteroids[h
        - ASTEROID_HANDLE_BASE].alive
}

/// The damage path for the live asteroid in slot `i`: the health pool loses
/// a fifth of full health, clamped at zero; the asteroid is consumed; the
/// game ends exactly when health reaches zero. With no health pool present
/// the event is dropped whole, a defensive no-op: even the asteroid stays.
pub open spec fn spec_damage_path(m: RouteModel, i: int) -> RouteModel {
    match m.health {
        None => m,
        Some(h) => {
            let h2 = spec_damaged(h);
            RouteModel {
                asteroids: m.asteroids.update(i, Asteroid { alive: false, ..m.asteroids[i] }),
                health: Some(h2),
                state: spec_observe_health(m.state, h2),
                ..m
            }
        },
    }
}

/// The score path for the live asteroid in slot `i`: a cosmetic impact
/// effect is requested at the asteroid's last known position, the asteroid
/// is consumed, and every active score display is incremented — broadcast
/// semantics, not a single shared counter.
pub open spec fn spec_score_path(m: RouteModel, i: int) -> RouteModel {
    RouteModel {
        asteroids: m.asteroids.update(i, Asteroid { alive: false, ..m.asteroids[i] }),
        scores: m.scores.map_values(|v: u64| spec_inc_sat(v)),
        effects: m.effects.push(m.asteroids[i].pos),
        ..m
    }
}

/// Dispatch for one classified event: the live asteroid in slot `i` against
/// the participant with handle `other`. A ship takes the damage path, the
/// tether proxy the score path, anything else is ignored.
pub open spec fn spec_dispatch(m: RouteModel, i: int, other: u64) -> RouteModel {
    if spec_is_ship(other) {
        spec_damage_path(m, i)
    } else if spec_is_tether(other) {
        spec_score_path(m, i)
    } else {
        m
    }
}

/// One contact event: it acts only when exactly one participant is a live
/// asteroid, and then dispatches on the other participant.
pub open spec fn spec_route_one(m: RouteModel, e: ContactEvent) -> RouteModel {
    let first_live = spec_is_live_asteroid(m.asteroids, e.first);
    let second_live = spec_is_live_asteroid(m.asteroids, e.second);
    if first_live && !second_live {
        spec_dispatch(m, e.first - ASTEROID_HANDLE_BASE, e.second)
    } else if !first_live && second_live {
        spec_dispatch(m, e.second - ASTEROID_HANDLE_BASE, e.first)
    } else {
        m
    }
}

/// A whole frame's events, processed independently and in arrival order.
pub open spec fn spec_route_all(m: RouteModel, evs: Seq<ContactEvent>) -> RouteModel
    decreases evs.len(),
{
    if evs.len() == 0 {
        m
    } else {
        spec_route_one(spec_route_all(m, evs.drop_last()), evs.last())
    }
}

/// The event pairs exactly one live asteroid with a ship: the damage path.
pub open spec fn spec_is_damage_event(asteroids: Seq<Asteroid>, e: ContactEvent) -> bool {
    (spec_is_live_asteroid(asteroids, e.first) && !spec_is_live_asteroid(asteroids, e.second)
        && spec_is_ship(e.second)) || (!spec_is_live_asteroid(asteroids, e.first)
        && spec_is_live_asteroid(asteroids, e.second) && spec_is_ship(e.first))
}

/// The event pairs exactly one live asteroid with the tether proxy: the
/// score path.
pub open spec fn spec_is_score_event(asteroids: Seq<Asteroid>, e: ContactEvent) -> bool {
    (spec_is_live_asteroid(asteroids, e.first) && !spec_is_live_asteroid(asteroids, e.second)
        && spec_is_tether(e.second)) || (!spec_is_live_asteroid(asteroids, e.first)
        && spec_is_live_asteroid(asteroids, e.second) && spec_is_tether(e.first))
}

/// Isolation: a contact event that does not pair exactly one live asteroid
/// with a ship or the tether proxy — asteroid–asteroid, ship–ship,
/// ship–tether, a consumed asteroid, or any unknown body — changes nothing:
/// not the health pool, not the score counters, not the game state, not the
/// arena, and it requests no effect.
pub proof fn lemma_contact_isolation(m: RouteModel, e: ContactEvent)
    requires
        !spec_is_damage_event(m.asteroids, e),
        !spec_is_score_event(m.asteroids, e),
    ensures
        spec_route_one(m, e) == m,
{
}

/// One damage-path event with the health pool present: health drops by the
/// fixed fraction (clamped at zero), the game ends exactly when the new
/// health is zero, and neither the score counters nor the effect requests
/// move.
pub proof fn lemma_damage_event_step(m: RouteModel, e: ContactEvent)
    requires
        spec_is_damage_event(m.asteroids, e),
        m.health is Some,
    ensures
        spec_route_one(m, e).health == Some(spec_damaged(m.health->0)),
        spec_route_one(m, e).state == spec_observe_health(m.state, spec_damaged(m.health->0)),
        spec_route_one(m, e).scores == m.scores,
        spec_route_one(m, e).effects == m.effects,
{
}

/// One score-path event: every active score display increments by one —
/// the outcome is broadcast to all displays, not to a single canonical
/// counter — and neither the health pool nor the game state moves.
pub proof fn lemma_score_event_broadcast(m: RouteModel, e: ContactEvent)
    requires
        spec_is_score_event(m.asteroids, e),
    ensures
        spec_route_one(m, e).scores.len() == m.scores.len(),
        forall|j: int|
            0 <= j < m.scores.len() ==> spec_route_one(m, e).scores[j] == spec_inc_sat(
                m.scores[j],
            ),
        spec_route_one(m, e).health == m.health,
        spec_route_one(m, e).state == m.state,
{
}

/// Health and state after `k` consecutive damage-path events starting from
/// full health in a running game.
pub open spec fn spec_after_k_damage(k: nat) -> (u32, GameState)
    decreases k,
{
    if k == 0 {
        (crate::health::FULL_HEALTH_MILLI, GameState::Running)
    } else {
        let prev = spec_after_k_damage((k - 1) as nat);
        let h2 = spec_damaged(prev.0);
        (h2, spec_observe_health(prev.1, h2))
    }
}

/// From full health, `k` consecutive damage-path events leave exactly
/// `max(0, 1 - k/5)` of full health, and the game has ended exactly when
/// the fifth event has landed — at the first moment health reaches zero,
/// and never before.
pub proof fn lemma_k_damage_events(k: nat)
    ensures
        spec_after_k_damage(k).0 as int == if k < 5 {
            1000 - 200 * k
        } else {
            0int
        },
        spec_after_k_damage(k).1 == (if k < 5 {
            GameState::Running
        } else {
            GameState::Ended
        }),
    decreases k,
{
    if k > 0 {
        lemma_k_damage_events((k - 1) as nat);
    }
}

/// The damage-path sequence agrees with the health pool's own account of
/// `k` consecutive damage events.
pub proof fn lemma_damage_sequence_matches_health(k: nat)
    ensures
        spec_after_k_damage(k).0 == crate::health::health_after(k),
    decreases k,
{
    if k > 0 {
        lemma_damage_sequence_matches_health((k - 1) as nat);
    }
}

/// Classify a handle against the arena: the slot of the live asteroid it
/// names, or nothing for everything else.
fn live_slot(asteroids: &Vec<Asteroid>, h: u64) -> (r: Option<usize>)
    ensures
        r is Some <==> spec_is_live_asteroid(asteroids@, h),
        r is Some ==> r->0 as int == h - ASTEROID_HANDLE_BASE && r->0 < asteroids@.len(),
{
    if h < ASTEROID_HANDLE_BASE {
        return None;
    }
    let off = h - ASTEROID_HANDLE_BASE;
    if off < asteroids.len() as u64 {
        let i = off as usize;
        if asteroids[i].alive {
            Some(i)
        } else {
            None
        }
    } else {
        None
    }
}

/// Apply the outcome for one classified event: the live asteroid in slot
/// `i` against the participant with handle `other`.
fn dispatch(
    asteroids: &mut Vec<Asteroid>,
    shared: &mut Shared,
    effects: &mut Vec<Vec2>,
    i: usize,
    other: u64,
)
    requires
        i < old(asteroids)@.len(),
    ensures
        route_model(final(asteroids)@, *final(shared), final(effects)@) == spec_dispatch(
            route_model(old(asteroids)@, *old(shared), old(effects)@),
            i as int,
            other,
        ),
        final(asteroids)@.len() == old(asteroids)@.len(),
{
    let ghost m0 = route_model(asteroids@, *shared, effects@);
    if other == SHIP_A_HANDLE || other == SHIP_B_HANDLE {
        if let Some(hp) = shared.health {
            let h2 = hp.damaged();
            shared.health = Some(h2);
            let dead = asteroids[i].consumed();
            asteroids.set(i, dead);
            shared.state = shared.state.observe_health(h2.milli);
            proof {
                assert(route_model(asteroids@, *shared, effects@) =~= spec_dispatch(
                    m0,
                    i as int,
                    other,
                ));
            }
        }
    } else if other == TETHER_HANDLE {
        let pos = asteroids[i].pos;
        effects.push(pos);
        let dead = asteroids[i].consumed();
        asteroids.set(i, dead);
        increment_all(&mut shared.scores);
        proof {
            assert(spec_scores_view(spec_all_incremented(old(shared).scores@)) =~= m0
                .scores.map_values(|v: u64| spec_inc_sat(v)));
            assert(route_model(asteroids@, *shared, effects@) =~= spec_dispatch(
                m0,
                i as int,
                other,
            ));
        }
    }
}

/// Consume one frame's contact events, in arrival order. Returns the
/// positions at which cosmetic impact effects were requested (fire and
/// forget; no core state). Damage and score land in `shared`; consumed
/// asteroids become tombstones in the arena.
pub fn route_events(
    asteroids: &mut Vec<Asteroid>,
    shared: &mut Shared,
    events: &Vec<ContactEvent>,
) -> (effects: Vec<Vec2>)
    ensures
        route_model(final(asteroids)@, *final(shared), effects@) == spec_route_all(
            route_model(old(asteroids)@, *old(shared), Seq::empty()),
            events@,
        ),
        final(asteroids)@.len() == old(asteroids)@.len(),
{
    let ghost m0 = route_model(asteroids@, *shared, Seq::empty());
    let mut effects: Vec<Vec2> = Vec::new();
    let mut k: usize = 0;
    while k < events.len()
        invariant
            k <= events.len(),
            asteroids@.len() == old(asteroids)@.len(),
            m0 == route_model(old(asteroids)@, *old(shared), Seq::empty()),
            route_model(asteroids@, *shared, effects@) == spec_route_all(
                m0,
                events@.take(k as int),
            ),
        decreases events.len() - k,
    {
        let ghost m_before = route_model(asteroids@, *shared, effects@);
        let e = events[k];
        proof {
            assert(events@.take(k + 1).drop_last() =~= events@.take(k as int));
            assert(events@.take(k + 1).last() == e);
        }
        let first_slot = live_slot(asteroids, e.first);
        let second_slot = live_slot(asteroids, e.second);
        match (first_slot, second_slot) {
            (Some(i), None) => {
                dispatch(asteroids, shared, &mut effects, i, e.second);
            },
            (None, Some(i)) => {
                dispatch(asteroids, shared, &mut effects, i, e.first);
            },
            _ => {},
        }
        proof {
            assert(route_model(asteroids@, *shared, effects@) == spec_route_one(m_before, e));
        }
        k = k + 1;
    }
    proof {
        assert(events@.take(events@.len() as int) =~= events@);
    }
    effects
}

} // verus!

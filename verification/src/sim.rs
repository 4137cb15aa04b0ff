//! The per-frame simulation pipeline. Each frame runs, in order: pure
//! kinematic integration of the asteroids (ships and the tether joint are
//! integrated by the external physics solver, which hands their positions
//! back), tether-proxy recomputation, contact routing, and the spawn
//! countdowns. Once the game has ended the whole pipeline freezes: nothing
//! advances, nothing spawns, nothing is routed.

use vstd::prelude::*;
use vstd::pervasive::VecAdditionalExecFns;
use crate::asteroid::{Asteroid, MAX_FRAME_MICROS};
use crate::geom::Vec2;
use crate::health::HealthPool;
use crate::router::{
    ContactEvent, RouteModel, Shared, route_model, route_events, spec_health_view,
    spec_scores_view, spec_route_all,
};
use crate::score::ScoreCounter;
use crate::ship::{Ship, initial_ships};
use crate::spawn::{SpawnScheduler, spec_decayed, spec_spawned, INITIAL_DURATION_MICROS};
use crate::state::GameState;
use crate::tether::Tether;

verus! {

/// Spacing of the spawn grid, in nano-units (two hundred world units).
pub const SPAWN_GRID_STEP_NANOS: i64 = 200_000_000_000;

/// The whole arena: the two ships, the tether proxy between them, the eight
/// spawn points, and the asteroid arena indexed by stable slots.
pub struct World {
    pub ships: Vec<Ship>,
    pub tether: Tether,
    pub spawners: Vec<SpawnScheduler>,
    pub asteroids: Vec<Asteroid>,
}

impl World {
    /// Exactly two well-formed ships, and every countdown on the decay law.
    pub open spec fn wf(self) -> bool {
        self.ships@.len() == 2 && (forall|i: int| 0 <= i < 2 ==> self.ships@[i].wf()) && (forall|
            j: int,
        | 0 <= j < self.spawners@.len() ==> self.spawners@[j].wf())
    }
}

/// The eight spawn points: every position of a three-by-three grid, two
/// hundred units apart, except its center.
pub fn spawn_grid() -> (points: Vec<Vec2>)
    ensures
        points@.len() == 8,
        points@[0] == (Vec2 {
            x: (-SPAWN_GRID_STEP_NANOS) as i64,
            y: (-SPAWN_GRID_STEP_NANOS) as i64,
        }),
        points@[1] == (Vec2 { x: (-SPAWN_GRID_STEP_NANOS) as i64, y: 0 }),
        points@[2] == (Vec2 { x: (-SPAWN_GRID_STEP_NANOS) as i64, y: SPAWN_GRID_STEP_NANOS }),
        points@[3] == (Vec2 { x: 0, y: (-SPAWN_GRID_STEP_NANOS) as i64 }),
        points@[4] == (Vec2 { x: 0, y: SPAWN_GRID_STEP_NANOS }),
        points@[5] == (Vec2 { x: SPAWN_GRID_STEP_NANOS, y: (-SPAWN_GRID_STEP_NANOS) as i64 }),
        points@[6] == (Vec2 { x: SPAWN_GRID_STEP_NANOS, y: 0 }),
        points@[7] == (Vec2 { x: SPAWN_GRID_STEP_NANOS, y: SPAWN_GRID_STEP_NANOS }),
{
    let mut points: Vec<Vec2> = Vec::new();
    points.push(Vec2 { x: -SPAWN_GRID_STEP_NANOS, y: -SPAWN_GRID_STEP_NANOS });
    points.push(Vec2 { x: -SPAWN_GRID_STEP_NANOS, y: 0 });
    points.push(Vec2 { x: -SPAWN_GRID_STEP_NANOS, y: SPAWN_GRID_STEP_NANOS });
    points.push(Vec2 { x: 0, y: -SPAWN_GRID_STEP_NANOS });
    points.push(Vec2 { x: 0, y: SPAWN_GRID_STEP_NANOS });
    points.push(Vec2 { x: SPAWN_GRID_STEP_NANOS, y: -SPAWN_GRID_STEP_NANOS });
    points.push(Vec2 { x: SPAWN_GRID_STEP_NANOS, y: 0 });
    points.push(Vec2 { x: SPAWN_GRID_STEP_NANOS, y: SPAWN_GRID_STEP_NANOS });
    points
}

/// One fresh three-second countdown per spawn point. All spawn points start
/// from the same duration and decay at the same rate, but tick and fire
/// independently of one another.
pub fn initial_spawners() -> (spawners: Vec<SpawnScheduler>)
    ensures
        spawners@.len() == 8,
        forall|j: int| 0 <= j < 8 ==> spawners@[j].wf(),
        forall|j: int|
            0 <= j < 8 ==> spawners@[j].duration_micros == INITIAL_DURATION_MICROS
                && spawners@[j].elapsed_micros == 0 && spawners@[j].spawn_count@ == 0,
{
    let grid = spawn_grid();
    let mut spawners: Vec<SpawnScheduler> = Vec::new();
    let mut i: usize = 0;
    while i < grid.len()
        invariant
            i <= grid.len(),
            spawners@.len() == i,
            forall|j: int|
                0 <= j < i ==> spawners@[j].wf() && spawners@[j].duration_micros
                    == INITIAL_DURATION_MICROS && spawners@[j].elapsed_micros == 0
                    && spawners@[j].spawn_count@ == 0,
        decreases grid.len() - i,
    {
        spawners.push(SpawnScheduler::new(grid[i]));
        i = i + 1;
    }
    spawners
}

impl Shared {
    /// The shared singletons at game start: a full health pool, one score
    /// display reading zero, and a running game.
    pub fn new() -> (s: Shared)
        ensures
            s.health == Some(HealthPool { milli: crate::health::FULL_HEALTH_MILLI }),
            s.scores@.len() == 1 && s.scores@[0].value == 0,
            s.state == GameState::Running,
    {
        let mut scores: Vec<ScoreCounter> = Vec::new();
        scores.push(ScoreCounter::new());
        Shared { health: Some(HealthPool::new()), scores, state: GameState::Running }
    }
}

impl World {
    /// The arena at game start: two fresh ships, the tether proxy laid
    /// between them, eight fresh spawn points, and no asteroids.
    pub fn new() -> (w: World)
        ensures
            w.wf(),
            w.ships@ == initial_ships_seq(),
            w.tether.proxy.end_a == w.ships@[0].pos && w.tether.proxy.end_b == w.ships@[1].pos,
            w.spawners@.len() == 8,
            w.asteroids@.len() == 0,
    {
        let ships = initial_ships();
        let tether = Tether::new(
            crate::ship::PlayerId(0),
            crate::ship::PlayerId(1),
            ships[0].pos,
            ships[1].pos,
        );
        let spawners = initial_spawners();
        let asteroids: Vec<Asteroid> = Vec::new();
        let w = World { ships, tether, spawners, asteroids };
        proof {
            assert(w.ships@ =~= initial_ships_seq());
        }
        w
    }
}

/// The two ships at game start, as a sequence.
pub open spec fn initial_ships_seq() -> Seq<Ship> {
    seq![
        Ship {
            id: crate::ship::PlayerId(0),
            pos: Vec2 { x: crate::ship::SHIP_SPAWN_RADIUS_NANOS, y: 0 },
            vel: Vec2 { x: 0, y: 0 },
            facing: Vec2 { x: 0, y: 1000 },
            gamepad: None,
        },
        Ship {
            id: crate::ship::PlayerId(1),
            pos: Vec2 { x: (-crate::ship::SHIP_SPAWN_RADIUS_NANOS) as i64, y: 0 },
            vel: Vec2 { x: 0, y: 0 },
            facing: Vec2 { x: 0, y: 1000 },
            gamepad: None,
        },
    ]
}

/// The asteroid arena after one frame of pure kinematic integration: every
/// live asteroid advances by its velocity times the frame time; tombstones
/// stay put.
pub open spec fn spec_integrated(asts: Seq<Asteroid>, dt: u64) -> Seq<Asteroid> {
    asts.map_values(
        |a: Asteroid|
            if a.alive {
                a.spec_advanced(dt)
            } else {
                a
            },
    )
}

/// The spawner in slot `j` fires this frame.
pub open spec fn spec_fires(s: SpawnScheduler, dt: u64) -> bool {
    s.elapsed_micros + dt >= s.duration_micros
}

/// How one frame relates a spawner to its previous state: the countdown
/// absorbs the frame time; on firing, the duration is rescaled by 24/25
/// (floored at half a second) and the countdown restarts.
pub open spec fn spec_tick_rel(before: SpawnScheduler, after: SpawnScheduler, dt: u64) -> bool {
    after.pos == before.pos && if spec_fires(before, dt) {
        after.duration_micros == spec_decayed(before.duration_micros) && after.elapsed_micros == 0
            && after.spawn_count@ == before.spawn_count@ + 1
    } else {
        after.duration_micros == before.duration_micros && after.elapsed_micros
            == before.elapsed_micros + dt && after.spawn_count@ == before.spawn_count@
    }
}

/// The asteroids created by one frame's spawn pass, in spawner order: each
/// firing spawner consumes its three fixed draws from the frame's entropy
/// stream (the pair with no direction spawns nothing).
pub open spec fn spec_spawn_batch(spawners: Seq<SpawnScheduler>, dt: u64, draws: Seq<u32>) -> Seq<
    Asteroid,
>
    decreases spawners.len(),
{
    if spawners.len() == 0 {
        Seq::empty()
    } else {
        let pre = spec_spawn_batch(spawners.drop_last(), dt, draws);
        let j = spawners.len() - 1;
        let s = spawners.last();
        if spec_fires(s, dt) {
            match spec_spawned(s.pos, draws[3 * j], draws[3 * j + 1], draws[3 * j + 2]) {
                Some(a) => pre.push(a),
                None => pre,
            }
        } else {
            pre
        }
    }
}

/// The router's outcome for this frame: the frame's events routed against
/// the freshly integrated arena and the incoming shared singletons.
pub open spec fn spec_frame_routed(
    asteroids: Seq<Asteroid>,
    shared: Shared,
    dt: u64,
    events: Seq<ContactEvent>,
) -> RouteModel {
    spec_route_all(route_model(spec_integrated(asteroids, dt), shared, Seq::empty()), events)
}

/// Run one frame of the pipeline: integrate the asteroids, recompute the
/// tether proxy from the ships' current (externally integrated) positions,
/// route the frame's contact events, then tick every spawn countdown,
/// appending newly spawned asteroids to the arena. Returns the positions of
/// the frame's requested impact effects. On an ended game the simulation
/// clock is frozen: the frame does nothing at all.
pub fn frame(
    world: &mut World,
    shared: &mut Shared,
    dt: u64,
    events: &Vec<ContactEvent>,
    draws: &Vec<u32>,
) -> (effects: Vec<Vec2>)
    requires
        old(world).wf(),
        dt <= MAX_FRAME_MICROS,
        draws@.len() >= 3 * old(world).spawners@.len(),
    ensures
        final(world).wf(),
        old(shared).state == GameState::Ended ==> final(world).ships@ == old(world).ships@
            && final(world).tether == old(world).tether && final(world).spawners@ == old(world).spawners@ && final(world).asteroids@ == old(world).asteroids@ && *final(shared) == *old(shared) && effects@.len() == 0,
        old(shared).state != GameState::Ended ==> {
            let routed = spec_frame_routed(old(world).asteroids@, *old(shared), dt, events@);
            final(world).ships@ == old(world).ships@ && final(world).tether.ship_a == old(world).tether.ship_a && final(world).tether.ship_b == old(world).tether.ship_b && final(world).tether.proxy.end_a == old(world).ships@[0].pos && final(world).tether.proxy.end_b == old(world).ships@[1].pos && final(world).asteroids@ == routed.asteroids + spec_spawn_batch(old(world).spawners@, dt, draws@)
                && spec_health_view(final(shared).health) == routed.health && spec_scores_view(
                final(shared).scores@,
            ) == routed.scores && final(shared).state == routed.state && effects@ == routed.effects
                && final(world).spawners@.len() == old(world).spawners@.len() && (forall|j: int|
                0 <= j < old(world).spawners@.len() ==> spec_tick_rel(
                    old(world).spawners@[j],
                    final(world).spawners@[j],
                    dt,
                ))
        },
{
    if shared.state == GameState::Ended {
        return Vec::new();
    }
    // Physics integration of the asteroids: pure kinematics.
    let mut i: usize = 0;
    while i < world.asteroids.len()
        invariant
            i <= world.asteroids@.len(),
            world.asteroids@.len() == old(world).asteroids@.len(),
            dt <= MAX_FRAME_MICROS,
            world.ships@ == old(world).ships@,
            world.tether == old(world).tether,
            world.spawners@ == old(world).spawners@,
            *shared == *old(shared),
            forall|j: int|
                0 <= j < i ==> world.asteroids@[j] == spec_integrated(old(world).asteroids@, dt)[j],
            forall|j: int|
                i <= j < world.asteroids@.len() ==> world.asteroids@[j] == old(world).asteroids@[j],
        decreases world.asteroids@.len() - i,
    {
        let a = world.asteroids[i];
        if a.alive {
            let advanced = a.advanced(dt);
            world.asteroids.set(i, advanced);
        } else {
            world.asteroids.set(i, a);
        }
        i = i + 1;
    }
    proof {
        assert(world.asteroids@ =~= spec_integrated(old(world).asteroids@, dt));
    }
    // The tether proxy mirrors the ships' live positions.
    let pa = world.ships[0].pos;
    let pb = world.ships[1].pos;
    world.tether.recompute(pa, pb);
    // Contact routing.
    let effects = route_events(&mut world.asteroids, shared, events);
    let ghost routed = spec_frame_routed(old(world).asteroids@, *old(shared), dt, events@);
    proof {
        assert(routed.asteroids + spec_spawn_batch(old(world).spawners@.take(0), dt, draws@)
            =~= routed.asteroids);
    }
    // Spawn countdowns, each against the same frame time.
    let mut j: usize = 0;
    while j < world.spawners.len()
        invariant
            j <= world.spawners@.len(),
            world.spawners@.len() == old(world).spawners@.len(),
            draws@.len() >= 3 * old(world).spawners@.len(),
            dt <= MAX_FRAME_MICROS,
            world.ships@ == old(world).ships@,
            world.tether.ship_a == old(world).tether.ship_a,
            world.tether.ship_b == old(world).tether.ship_b,
            world.tether.proxy.end_a == old(world).ships@[0].pos,
            world.tether.proxy.end_b == old(world).ships@[1].pos,
            effects@ == routed.effects,
            spec_health_view(shared.health) == routed.health,
            spec_scores_view(shared.scores@) == routed.scores,
            shared.state == routed.state,
            forall|p: int|
                0 <= p < j ==> spec_tick_rel(old(world).spawners@[p], world.spawners@[p], dt),
            forall|p: int|
                j <= p < world.spawners@.len() ==> world.spawners@[p] == old(world).spawners@[p],
            forall|p: int| 0 <= p < world.spawners@.len() ==> world.spawners@[p].wf(),
            world.asteroids@ == routed.asteroids + spec_spawn_batch(
                old(world).spawners@.take(j as int),
                dt,
                draws@,
            ),
        decreases world.spawners@.len() - j,
    {
        proof {
            assert(old(world).spawners@.take(j + 1).drop_last() =~= old(world).spawners@.take(
                j as int,
            ));
            assert(old(world).spawners@.take(j + 1).last() == old(world).spawners@[j as int]);
        }
        let mut s = world.spawners[j];
        let fired = s.tick(dt);
        world.spawners.set(j, s);
        if fired {
            proof {
                assert(draws.len() == draws@.len());
                assert(3 * (j as int) + 2 < draws@.len());
            }
            let base = 3 * j;
            match crate::spawn::spawn_asteroid(s.pos, draws[base], draws[base + 1], draws[base
                + 2]) {
                Some(a) => {
                    world.asteroids.push(a);
                },
                None => {},
            }
        }
        proof {
            assert(world.asteroids@ =~= routed.asteroids + spec_spawn_batch(
                old(world).spawners@.take(j as int + 1),
                dt,
                draws@,
            ));
        }
        j = j + 1;
    }
    proof {
        assert(old(world).spawners@.take(old(world).spawners@.len() as int) =~= old(world).spawners@);
    }
    effects
}

/// What entering the ended state does beside freezing the clock: the health
/// display is removed — so any damage event delivered afterwards is dropped
/// whole — while scores and the terminal state stay.
pub fn end_game_cleanup(shared: &mut Shared)
    ensures
        final(shared).health is None,
        final(shared).scores@ == old(shared).scores@,
        final(shared).state == old(shared).state,
{
    shared.health = None;
}

/// The banner shown when the game ends.
pub fn banner_text() -> (s: &'static str)
    ensures
        s@ == "GAME END"@,
{
    "GAME END"
}

} // verus!

//! Ships and their controller input. Exactly two ships exist, created once
//! at game start. Each holds a position, a velocity, a facing, a fixed
//! velocity-damping coefficient (applied by the external integrator), and
//! an optional controller assignment. Stick input steers the facing past a
//! dead-zone; a held thrust button accelerates along the facing, clamped to
//! a maximum speed.

use vstd::prelude::*;
use vstd::pervasive::VecAdditionalExecFns;
use crate::geom::{Vec2, abs_val, dir_len, in_arena, rescale, scaled_component};

verus! {

/// Ships start on a circle of this radius around the origin, in nano-units
/// (one hundred world units).
pub const SHIP_SPAWN_RADIUS_NANOS: i64 = 100_000_000_000;

/// The fixed velocity-damping coefficient, in thousandths per second,
/// applied by the external physics integrator.
pub const SHIP_DAMPING_MILLI: u64 = 2_000;

/// Thrust adds this much velocity along the facing each tick it is held,
/// in milli-units per second (twenty units per second).
pub const THRUST_ACCEL_MILLI: i64 = 20;

/// A ship's speed never exceeds this, in milli-units per second
/// (a thousand units per second).
pub const MAX_SHIP_SPEED_MILLI: i64 = 1_000_000;

/// Stick input below this squared magnitude (a tenth, in thousandths,
/// squared) leaves the facing unchanged.
pub const STICK_DEADZONE_SQ_MILLI: i64 = 10_000;

/// A ship's identity: 0 or 1.
#[derive(Clone, Copy, PartialEq, Eq, Structural, Debug)]
pub struct PlayerId(pub u8);

/// One ship. Position in nano-units, velocity in milli-units per second,
/// facing as a direction vector in thousandths.
#[derive(Clone, Copy, PartialEq, Eq, Structural, Debug)]
pub struct Ship {
    pub id: PlayerId,
    pub pos: Vec2,
    pub vel: Vec2,
    pub facing: Vec2,
    pub gamepad: Option<u64>,
}

impl Ship {
    /// Positions stay in the arena, speed components stay clamped, and the
    /// facing stays a unit direction in thousandths.
    pub open spec fn wf(self) -> bool {
        in_arena(self.pos) && abs_val(self.vel.x as int) <= MAX_SHIP_SPEED_MILLI
            && abs_val(self.vel.y as int) <= MAX_SHIP_SPEED_MILLI && abs_val(self.facing.x as int)
            <= 1000 && abs_val(self.facing.y as int) <= 1000
    }
}

/// The two ships at game start: at rest on opposite sides of the origin,
/// one hundred units out, facing up, with no controller assigned.
pub fn initial_ships() -> (ships: Vec<Ship>)
    ensures
        ships@.len() == 2,
        ships@[0] == (Ship {
            id: PlayerId(0),
            pos: Vec2 { x: SHIP_SPAWN_RADIUS_NANOS, y: 0 },
            vel: Vec2 { x: 0, y: 0 },
            facing: Vec2 { x: 0, y: 1000 },
            gamepad: None,
        }),
        ships@[1] == (Ship {
            id: PlayerId(1),
            pos: Vec2 { x: (-SHIP_SPAWN_RADIUS_NANOS) as i64, y: 0 },
            vel: Vec2 { x: 0, y: 0 },
            facing: Vec2 { x: 0, y: 1000 },
            gamepad: None,
        }),
        forall|i: int| 0 <= i < 2 ==> ships@[i].wf(),
{
    let mut ships: Vec<Ship> = Vec::new();
    ships.push(
        Ship {
            id: PlayerId(0),
            pos: Vec2 { x: SHIP_SPAWN_RADIUS_NANOS, y: 0 },
            vel: Vec2 { x: 0, y: 0 },
            facing: Vec2 { x: 0, y: 1000 },
            gamepad: None,
        },
    );
    ships.push(
        Ship {
            id: PlayerId(1),
            pos: Vec2 { x: -SHIP_SPAWN_RADIUS_NANOS, y: 0 },
            vel: Vec2 { x: 0, y: 0 },
            facing: Vec2 { x: 0, y: 1000 },
            gamepad: None,
        },
    );
    ships
}

/// Ship `i` was the first with no controller, and it alone claimed `pad`.
pub open spec fn claims_first_free(before: Seq<Ship>, after: Seq<Ship>, pad: u64, i: int) -> bool {
    0 <= i < before.len() && before[i].gamepad is None && (forall|j: int|
        0 <= j < i ==> before[j].gamepad is Some) && after == before.update(
        i,
        Ship { gamepad: Some(pad), ..before[i] },
    )
}

/// On controller connect, the first ship with no assigned controller claims
/// it; with none free, nothing changes.
pub fn connect_gamepad(ships: &mut Vec<Ship>, pad: u64)
    ensures
        (forall|j: int| 0 <= j < old(ships)@.len() ==> old(ships)@[j].gamepad is Some) ==> (final(
            ships)@ == old(ships)@),
        (exists|j: int| 0 <= j < old(ships)@.len() && old(ships)@[j].gamepad is None) ==> (exists|
            i: int|
            claims_first_free(old(ships)@, final(ships)@, pad, i)),
{
    let mut i: usize = 0;
    while i < ships.len()
        invariant
            i <= ships.len(),
            ships@ == old(ships)@,
            forall|j: int| 0 <= j < i ==> ships@[j].gamepad is Some,
        decreases ships.len() - i,
    {
        if ships[i].gamepad.is_none() {
            let claimed = Ship { gamepad: Some(pad), ..ships[i] };
            ships.set(i, claimed);
            proof {
                assert(claims_first_free(old(ships)@, ships@, pad, i as int));
            }
            return ;
        }
        i = i + 1;
    }
}

/// On controller disconnect, every ship whose assignment matches the pad
/// clears it.
pub fn disconnect_gamepad(ships: &mut Vec<Ship>, pad: u64)
    ensures
        final(ships)@ == old(ships)@.map_values(
            |s: Ship|
                if s.gamepad == Some(pad) {
                    Ship { gamepad: None, ..s }
                } else {
                    s
                },
        ),
{
    let ghost cleared = old(ships)@.map_values(
        |s: Ship|
            if s.gamepad == Some(pad) {
                Ship { gamepad: None, ..s }
            } else {
                s
            },
    );
    let mut i: usize = 0;
    while i < ships.len()
        invariant
            i <= ships.len(),
            ships.len() == old(ships).len(),
            forall|j: int| 0 <= j < i ==> ships@[j] == cleared[j],
            forall|j: int| i <= j < ships.len() ==> ships@[j] == old(ships)@[j],
            cleared == old(ships)@.map_values(
                |s: Ship|
                    if s.gamepad == Some(pad) {
                        Ship { gamepad: None, ..s }
                    } else {
                        s
                    },
            ),
        decreases ships.len() - i,
    {
        let s = ships[i];
        if s.gamepad == Some(pad) {
            ships.set(i, Ship { gamepad: None, ..s });
        } else {
            ships.set(i, s);
        }
        i = i + 1;
    }
    proof {
        assert(ships@ =~= cleared);
    }
}

/// The ship after one frame of stick input: past the dead-zone the facing
/// turns to the stick direction (normalized to thousandths); inside it the
/// facing is unchanged.
pub open spec fn spec_steered(s: Ship, sx: int, sy: int) -> Ship {
    if sx * sx + sy * sy > STICK_DEADZONE_SQ_MILLI {
        Ship {
            facing: Vec2 {
                x: scaled_component(sx, dir_len(sx, sy), 1000) as i64,
                y: scaled_component(sy, dir_len(sx, sy), 1000) as i64,
            },
            ..s
        }
    } else {
        s
    }
}

/// Steer the ship by one frame of stick input, in thousandths of full
/// deflection on each axis.
pub fn steer(ship: Ship, sx: i64, sy: i64) -> (s: Ship)
    requires
        -1000 <= sx <= 1000,
        -1000 <= sy <= 1000,
    ensures
        s == spec_steered(ship, sx as int, sy as int),
        ship.wf() ==> s.wf(),
{
    proof {
        assert(0 <= sx * sx <= 1_000_000 && 0 <= sy * sy <= 1_000_000 && (sx * sx + sy * sy
            > 10_000 ==> !(sx == 0 && sy == 0))) by (nonlinear_arith)
            requires
                -1000 <= sx <= 1000,
                -1000 <= sy <= 1000,
        ;
    }
    if sx * sx + sy * sy > STICK_DEADZONE_SQ_MILLI {
        let f = crate::geom::unit_dir(sx, sy);
        Ship { facing: f, ..ship }
    } else {
        ship
    }
}

/// A velocity clamped to the maximum ship speed: left alone while its
/// squared magnitude is within the limit, otherwise rescaled onto it.
pub open spec fn spec_clamped_vel(v: Vec2) -> Vec2 {
    if v.x * v.x + v.y * v.y <= MAX_SHIP_SPEED_MILLI * MAX_SHIP_SPEED_MILLI {
        v
    } else {
        Vec2 {
            x: scaled_component(v.x as int, dir_len(v.x as int, v.y as int), 1_000_000) as i64,
            y: scaled_component(v.y as int, dir_len(v.x as int, v.y as int), 1_000_000) as i64,
        }
    }
}

/// The ship after one tick of held thrust: velocity gains twenty units per
/// second along the facing, then is clamped to the maximum speed.
pub open spec fn spec_thrusted(s: Ship) -> Ship {
    Ship {
        vel: spec_clamped_vel(
            Vec2 {
                x: (s.vel.x + s.facing.x * THRUST_ACCEL_MILLI) as i64,
                y: (s.vel.y + s.facing.y * THRUST_ACCEL_MILLI) as i64,
            },
        ),
        ..s
    }
}

/// Apply one tick of held thrust.
pub fn thrust(ship: Ship) -> (s: Ship)
    requires
        ship.wf(),
    ensures
        s == spec_thrusted(ship),
        s.wf(),
{
    proof {
        assert(ship.facing.x * THRUST_ACCEL_MILLI == ship.facing.x * 20
            && ship.facing.y * THRUST_ACCEL_MILLI == ship.facing.y * 20
            && -20_000 <= ship.facing.x * 20 <= 20_000
            && -20_000 <= ship.facing.y * 20 <= 20_000) by (nonlinear_arith)
            requires
                -1000 <= ship.facing.x <= 1000,
                -1000 <= ship.facing.y <= 1000,
        ;
    }
    let vx: i64 = ship.vel.x + ship.facing.x * THRUST_ACCEL_MILLI;
    let vy: i64 = ship.vel.y + ship.facing.y * THRUST_ACCEL_MILLI;
    let clamped = clamp_speed(Vec2 { x: vx, y: vy });
    Ship { vel: clamped, ..ship }
}

/// Clamp a velocity to the maximum ship speed.
fn clamp_speed(v: Vec2) -> (r: Vec2)
    requires
        -1_020_000 <= v.x <= 1_020_000,
        -1_020_000 <= v.y <= 1_020_000,
    ensures
        r == spec_clamped_vel(v),
        abs_val(r.x as int) <= MAX_SHIP_SPEED_MILLI,
        abs_val(r.y as int) <= MAX_SHIP_SPEED_MILLI,
{
    proof {
        assert(0 <= v.x * v.x <= 1_040_400_000_000 && 0 <= v.y * v.y <= 1_040_400_000_000 && (v.x
            * v.x + v.y * v.y > 1_000_000_000_000 ==> !(v.x == 0 && v.y == 0)) && (v.x * v.x + v.y
            * v.y <= 1_000_000_000_000 ==> -1_000_000 <= v.x <= 1_000_000 && -1_000_000 <= v.y
            <= 1_000_000)) by (nonlinear_arith)
            requires
                -1_020_000 <= v.x <= 1_020_000,
                -1_020_000 <= v.y <= 1_020_000,
        ;
    }
    if v.x * v.x + v.y * v.y <= MAX_SHIP_SPEED_MILLI * MAX_SHIP_SPEED_MILLI {
        v
    } else {
        rescale(v.x, v.y, 1_000_000)
    }
}

} // verus!

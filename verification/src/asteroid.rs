//! Asteroids: sensor-only moving hazards. An asteroid never pushes or is
//! pushed; its motion is pure integration of a constant velocity. It is
//! created by a spawn scheduler and destroyed at most once by the collision
//! router, which marks it consumed on its first successful classification.

use vstd::prelude::*;
use crate::geom::{Vec2, clamp_coord, in_arena, saturate_coord};

verus! {

/// Longest frame time the simulation accepts, in microseconds (ten seconds).
pub const MAX_FRAME_MICROS: u64 = 10_000_000;

/// A moving hazard. Position in nano-units, velocity in milli-units per
/// second, radius in milli-units. `alive` is cleared when the collision
/// router consumes the asteroid; a cleared record is a tombstone that keeps
/// handles of later asteroids stable.
#[derive(Clone, Copy, PartialEq, Eq, Structural, Debug)]
pub struct Asteroid {
    pub pos: Vec2,
    pub vel: Vec2,
    pub radius_milli: u64,
    pub alive: bool,
}

impl Asteroid {
    /// The asteroid one tick later: the position advances by exactly
    /// `velocity * dt` (saturating at the arena span); velocity, radius and
    /// liveness are untouched. No drag, no collision response.
    pub open spec fn spec_advanced(self, dt: u64) -> Asteroid {
        Asteroid {
            pos: Vec2 {
                x: clamp_coord(self.pos.x + self.vel.x * dt) as i64,
                y: clamp_coord(self.pos.y + self.vel.y * dt) as i64,
            },
            ..self
        }
    }

    /// Advance the position by one frame of elapsed time.
    pub fn advanced(self, dt: u64) -> (a: Asteroid)
        requires
            dt <= MAX_FRAME_MICROS,
        ensures
            a == self.spec_advanced(dt),
            in_arena(a.pos),
    {
        proof {
            assert(-92_233_720_368_547_758_080_000_000
                <= self.vel.x as int * dt as int
                <= 92_233_720_368_547_758_080_000_000) by (nonlinear_arith)
                requires
                    -9_223_372_036_854_775_808 <= self.vel.x as int <= 9_223_372_036_854_775_807,
                    0 <= dt <= 10_000_000,
            ;
            assert(-92_233_720_368_547_758_080_000_000
                <= self.vel.y as int * dt as int
                <= 92_233_720_368_547_758_080_000_000) by (nonlinear_arith)
                requires
                    -9_223_372_036_854_775_808 <= self.vel.y as int <= 9_223_372_036_854_775_807,
                    0 <= dt <= 10_000_000,
            ;
        }
        let nx: i64 = saturate_coord(self.pos.x as i128 + self.vel.x as i128 * dt as i128);
        let ny: i64 = saturate_coord(self.pos.y as i128 + self.vel.y as i128 * dt as i128);
        Asteroid { pos: Vec2 { x: nx, y: ny }, ..self }
    }

    /// The same asteroid, marked consumed.
    pub fn consumed(self) -> (a: Asteroid)
        ensures
            a == (Asteroid { alive: false, ..self }),
    {
        Asteroid { alive: false, ..self }
    }
}

} // verus!

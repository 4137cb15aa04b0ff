//! Spawn scheduling: one adaptive countdown per fixed spawn point. Each
//! countdown decreases by the elapsed frame time; when it runs out, a new
//! asteroid is created at the spawn point and the countdown's duration is
//! rescaled by 24/25 and floored at half a second, so the spawn cadence
//! accelerates smoothly and never stalls below the floor. Spawn points share
//! no state: all decay at the same rate but with independent phase.

use vstd::prelude::*;
use vstd::arithmetic::div_mod::{lemma_div_is_ordered, lemma_div_pos_is_pos};
use vstd::arithmetic::power::pow;
use crate::asteroid::{Asteroid, MAX_FRAME_MICROS};
use crate::geom::{Vec2, dir_len, unit_component, unit_dir};

verus! {

/// A fresh countdown runs for three seconds.
pub const INITIAL_DURATION_MICROS: u64 = 3_000_000;

/// No countdown duration ever drops below half a second.
pub const FLOOR_DURATION_MICROS: u64 = 500_000;

/// After each spawn the duration is rescaled by 24/25 (a factor of 0.96).
pub const DECAY_NUMER: u64 = 24;

/// Denominator of the rescale factor.
pub const DECAY_DENOM: u64 = 25;

/// Largest value of a raw 32-bit uniform draw.
pub const DRAW_MAX: u64 = 4_294_967_295;

/// Slowest asteroid speed, in milli-units per second.
pub const MIN_SPEED_MILLI: u64 = 100_000;

/// The speed draw spans this much above the minimum, in milli-units per second.
pub const SPEED_SPAN_MILLI: u64 = 50_000;

/// Smallest visual size, in milli-units.
pub const MIN_SIZE_MILLI: u64 = 30_000;

/// The size draw spans this much above the minimum, in milli-units.
pub const SIZE_SPAN_MILLI: u64 = 5_000;

/// The countdown duration after one rescale: 24/25 of it, rounded down,
/// floored at half a second.
pub open spec fn spec_decayed(d: u64) -> u64 {
    if (d * DECAY_NUMER) / (DECAY_DENOM as int) < FLOOR_DURATION_MICROS {
        FLOOR_DURATION_MICROS
    } else {
        ((d * DECAY_NUMER) / (DECAY_DENOM as int)) as u64
    }
}

/// The countdown duration after `n` spawns, starting from three seconds.
pub open spec fn duration_after(n: nat) -> u64
    decreases n,
{
    if n == 0 {
        INITIAL_DURATION_MICROS
    } else {
        spec_decayed(duration_after((n - 1) as nat))
    }
}

/// The duration never leaves the band between the half-second floor and the
/// initial three seconds, however many spawns have happened.
pub proof fn lemma_duration_bounds(n: nat)
    ensures
        FLOOR_DURATION_MICROS <= duration_after(n) <= INITIAL_DURATION_MICROS,
    decreases n,
{
    if n > 0 {
        lemma_duration_bounds((n - 1) as nat);
        let d = duration_after((n - 1) as nat);
        lemma_div_is_ordered(d * DECAY_NUMER, 72_000_000, DECAY_DENOM as int);
    }
}

/// The countdown duration is monotonically non-increasing in the number of
/// spawns: every spawn tightens (or holds) the cadence.
pub proof fn lemma_duration_monotone(n: nat)
    ensures
        duration_after(n + 1) <= duration_after(n),
{
    let d = duration_after(n);
    lemma_duration_bounds(n);
    lemma_div_is_ordered(d * DECAY_NUMER, d * DECAY_DENOM, DECAY_DENOM as int);
    assert((d * DECAY_DENOM) / (DECAY_DENOM as int) == d) by (nonlinear_arith);
}

/// Above the floor, each rescale is exactly a factor of 24/25 up to one
/// microsecond of rounding: twenty-five times the new duration never
/// exceeds twenty-four times the old one, and falls short of it by less
/// than one rescaled unit. Together with the floor and monotonicity this
/// pins the duration after `n` spawns to the geometric decay law.
pub proof fn lemma_decay_exact_ratio(d: u64)
    requires
        spec_decayed(d) > FLOOR_DURATION_MICROS,
    ensures
        25 * spec_decayed(d) <= 24 * d,
        24 * d < 25 * (spec_decayed(d) + 1),
{
    vstd::arithmetic::div_mod::lemma_fundamental_div_mod(24 * d, 25);
    vstd::arithmetic::div_mod::lemma_mod_bound(24 * d, 25);
    assert(d * DECAY_NUMER == 24 * d) by (nonlinear_arith);
    assert(25 * ((24 * d) / 25) == (24 * d) - (24 * d) % 25) by (nonlinear_arith)
        requires
            24 * d == 25 * ((24 * d) / 25) + (24 * d) % 25,
    ;
}

/// Once the countdown duration has reached the floor it stays there: the
/// rescale of the floor falls below it and is clamped right back.
pub proof fn lemma_floor_is_absorbing(n: nat)
    requires
        duration_after(n) == FLOOR_DURATION_MICROS,
    ensures
        duration_after(n + 1) == FLOOR_DURATION_MICROS,
{
    lemma_div_is_ordered(
        FLOOR_DURATION_MICROS * DECAY_NUMER,
        12_000_000,
        DECAY_DENOM as int,
    );
}

/// While the duration is still above the floor it tracks the exact
/// geometric sequence `3s * (24/25)^n`: scaled by `25^n` it never exceeds
/// `3s * 24^n`, and it falls short of it by less than `n` microseconds.
pub proof fn lemma_duration_tracks_geometric(n: nat)
    requires
        duration_after(n) > FLOOR_DURATION_MICROS,
    ensures
        duration_after(n) * pow(25, n) <= 3_000_000 * pow(24, n),
        3_000_000 * pow(24, n) <= (duration_after(n) + n) * pow(25, n),
    decreases n,
{
    if n > 0 {
        let m = (n - 1) as nat;
        let d = duration_after(m);
        let d2 = duration_after(n);
        lemma_duration_monotone(m);
        lemma_duration_bounds(m);
        assert(d > FLOOR_DURATION_MICROS);
        lemma_duration_tracks_geometric(m);
        // The rescale was not clamped, so it is the plain division.
        assert(d2 == (d * DECAY_NUMER) / (DECAY_DENOM as int));
        vstd::arithmetic::div_mod::lemma_fundamental_div_mod(24 * (d as int), 25);
        vstd::arithmetic::div_mod::lemma_mod_bound(24 * (d as int), 25);
        assert(d * DECAY_NUMER == 24 * d) by (nonlinear_arith);
        assert(25 * d2 <= 24 * d && 24 * d < 25 * d2 + 25) by (nonlinear_arith)
            requires
                24 * (d as int) == 25 * ((24 * (d as int)) / 25) + (24 * (d as int)) % 25,
                0 <= (24 * (d as int)) % 25 < 25,
                d2 == (24 * (d as int)) / 25,
        ;
        vstd::arithmetic::power::lemma_pow_positive(25, m);
        vstd::arithmetic::power::lemma_pow_positive(24, m);
        vstd::arithmetic::power::lemma_pow1(25);
        vstd::arithmetic::power::lemma_pow1(24);
        vstd::arithmetic::power::lemma_pow_adds(25, m, 1);
        vstd::arithmetic::power::lemma_pow_adds(24, m, 1);
        assert(pow(25, n) == 25 * pow(25, m) && pow(24, n) == 24 * pow(24, m))
            by (nonlinear_arith)
            requires
                pow(25, n) == pow(25, m) * pow(25, 1),
                pow(24, n) == pow(24, m) * pow(24, 1),
                pow(25, 1) == 25,
                pow(24, 1) == 24,
        ;
        assert(d2 * pow(25, n) <= 3_000_000 * pow(24, n)) by (nonlinear_arith)
            requires
                25 * d2 <= 24 * d,
                d * pow(25, m) <= 3_000_000 * pow(24, m),
                pow(25, n) == 25 * pow(25, m),
                pow(24, n) == 24 * pow(24, m),
                pow(25, m) > 0,
                pow(24, m) > 0,
                d2 >= 0,
        ;
        assert(3_000_000 * pow(24, n) <= (d2 + n) * pow(25, n)) by (nonlinear_arith)
            requires
                24 * d < 25 * d2 + 25,
                3_000_000 * pow(24, m) <= (d + m) * pow(25, m),
                pow(25, n) == 25 * pow(25, m),
                pow(24, n) == 24 * pow(24, m),
                pow(25, m) > 0,
                pow(24, m) > 0,
                n == m + 1,
                d >= 0,
        ;
    } else {
        vstd::arithmetic::power::lemma_pow0(25);
        vstd::arithmetic::power::lemma_pow0(24);
    }
}

/// One spawn point and its adaptive countdown. The position is fixed in
/// nano-units; `elapsed_micros` accumulates frame time toward
/// `duration_micros`; the ghost spawn count ties the current duration to
/// the decay law.
#[derive(Clone, Copy)]
pub struct SpawnScheduler {
    pub pos: Vec2,
    pub duration_micros: u64,
    pub elapsed_micros: u64,
    pub spawn_count: Ghost<nat>,
}

impl SpawnScheduler {
    /// The duration always equals the decay law applied `spawn_count` times,
    /// and the countdown has not yet run out.
    pub open spec fn wf(self) -> bool {
        self.duration_micros == duration_after(self.spawn_count@)
            && self.elapsed_micros < self.duration_micros
    }

    /// A fresh spawn point at `pos` with a full three-second countdown.
    pub fn new(pos: Vec2) -> (s: SpawnScheduler)
        ensures
            s.wf(),
            s.pos == pos,
            s.spawn_count@ == 0,
            s.duration_micros == INITIAL_DURATION_MICROS,
            s.elapsed_micros == 0,
    {
        SpawnScheduler {
            pos,
            duration_micros: INITIAL_DURATION_MICROS,
            elapsed_micros: 0,
            spawn_count: Ghost(0),
        }
    }

    /// Advance the countdown by one frame of elapsed time. When it runs
    /// out, the scheduler reports a spawn: the duration is rescaled by
    /// 24/25, floored at half a second, and the countdown restarts from
    /// zero against the new duration.
    pub fn tick(&mut self, dt: u64) -> (fired: bool)
        requires
            old(self).wf(),
            dt <= MAX_FRAME_MICROS,
        ensures
            final(self).wf(),
            final(self).pos == old(self).pos,
            fired == (old(self).elapsed_micros + dt >= old(self).duration_micros),
            fired ==> final(self).spawn_count@ == old(self).spawn_count@ + 1
                && final(self).duration_micros == spec_decayed(old(self).duration_micros)
                && final(self).elapsed_micros == 0,
            !fired ==> final(self).spawn_count@ == old(self).spawn_count@
                && final(self).duration_micros == old(self).duration_micros
                && final(self).elapsed_micros == old(self).elapsed_micros + dt,
    {
        proof {
            lemma_duration_bounds(self.spawn_count@);
        }
        let run = self.elapsed_micros + dt;
        if run >= self.duration_micros {
            let scaled = self.duration_micros * DECAY_NUMER / DECAY_DENOM;
            let next = if scaled < FLOOR_DURATION_MICROS {
                FLOOR_DURATION_MICROS
            } else {
                scaled
            };
            self.duration_micros = next;
            self.elapsed_micros = 0;
            proof {
                lemma_div_pos_is_pos(self.duration_micros as int, DECAY_DENOM as int);
            }
            self.spawn_count = Ghost(self.spawn_count@ + 1);
            true
        } else {
            self.elapsed_micros = run;
            false
        }
    }
}

/// A raw 32-bit draw mapped to a signed fraction of the unit interval, in
/// thousandths: zero maps to -1, the largest draw to +1.
pub open spec fn spec_signed_milli(u: u32) -> int {
    (u * 2000) / (DRAW_MAX as int) - 1000
}

/// A raw draw mapped to an asteroid speed, uniform over [100, 150]
/// units per second, in milli-units per second.
pub open spec fn spec_speed_milli(u: u32) -> u64 {
    (MIN_SPEED_MILLI + (u * SPEED_SPAN_MILLI) / (DRAW_MAX as int)) as u64
}

/// The same draw mapped to the visual size, uniform over [30, 35] units,
/// in milli-units. Size and speed come from one draw: they are correlated
/// by construction, not drawn independently.
pub open spec fn spec_size_milli(u: u32) -> u64 {
    (MIN_SIZE_MILLI + (u * SIZE_SPAN_MILLI) / (DRAW_MAX as int)) as u64
}

/// The collider radius derived from the visual size: two fifths of it
/// (half the size, scaled by four fifths), rounded down.
pub open spec fn spec_radius_milli(u: u32) -> u64 {
    ((spec_size_milli(u) * 2) / 5int) as u64
}

/// One velocity component: the direction component (in thousandths) times
/// the speed, scaled back down, rounded toward zero.
pub open spec fn spec_vel_component(d: int, speed: u64) -> int {
    if d >= 0 {
        (d * speed) / 1000
    } else {
        -(((-d) * speed) / 1000)
    }
}

/// The asteroid spawned at `pos` from three raw uniform draws: two for the
/// direction (normalized onto the unit circle), one for both speed and
/// size. The draw pair that maps to the zero vector has no direction and
/// spawns nothing.
pub open spec fn spec_spawned(pos: Vec2, ux: u32, uy: u32, us: u32) -> Option<Asteroid> {
    let x = spec_signed_milli(ux);
    let y = spec_signed_milli(uy);
    if x == 0 && y == 0 {
        None
    } else {
        let l = dir_len(x, y);
        let speed = spec_speed_milli(us);
        Some(
            Asteroid {
                pos: pos,
                vel: Vec2 {
                    x: spec_vel_component(unit_component(x, l), speed) as i64,
                    y: spec_vel_component(unit_component(y, l), speed) as i64,
                },
                radius_milli: spec_radius_milli(us),
                alive: true,
            },
        )
    }
}

/// Map one raw draw to a signed fraction in thousandths.
fn signed_milli(u: u32) -> (s: i64)
    ensures
        s == spec_signed_milli(u),
        -1000 <= s <= 1000,
{
    ((u as u64 * 2000 / DRAW_MAX) as i64) - 1000
}

/// One velocity component from a direction component and a speed.
fn vel_component(d: i64, speed: u64) -> (v: i64)
    requires
        -1_000_000_000 <= d <= 1_000_000_000,
        speed <= 150_000,
    ensures
        v == spec_vel_component(d as int, speed),
{
    proof {
        assert(0 <= (if d >= 0 { d as int } else { -(d as int) }) * speed
            <= 150_000_000_000_000) by (nonlinear_arith)
            requires
                -1_000_000_000 <= d <= 1_000_000_000,
                0 <= speed <= 150_000,
        ;
    }
    if d >= 0 {
        ((d as u64) * speed / 1000) as i64
    } else {
        -((((-d) as u64) * speed / 1000) as i64)
    }
}

/// Create the asteroid for one spawn: direction from two draws, speed and
/// size (correlated) from a third. Returns nothing for the degenerate draw
/// pair with no direction, a defensive no-op.
pub fn spawn_asteroid(pos: Vec2, ux: u32, uy: u32, us: u32) -> (a: Option<Asteroid>)
    ensures
        a == spec_spawned(pos, ux, uy, us),
{
    let x = signed_milli(ux);
    let y = signed_milli(uy);
    if x == 0 && y == 0 {
        return None;
    }
    let d = unit_dir(x, y);
    let speed: u64 = MIN_SPEED_MILLI + ((us as u64) * SPEED_SPAN_MILLI / DRAW_MAX);
    let size: u64 = MIN_SIZE_MILLI + ((us as u64) * SIZE_SPAN_MILLI / DRAW_MAX);
    let vx = vel_component(d.x, speed);
    let vy = vel_component(d.y, speed);
    Some(
        Asteroid {
            pos,
            vel: Vec2 { x: vx, y: vy },
            radius_milli: size * 2 / 5,
            alive: true,
        },
    )
}

} // verus!

//! The tether between the two ships and its collidable proxy. The proxy is
//! a positional, shape-only surface: its centerline is always the segment
//! between the two linked ships' current positions, recomputed every frame.
//! It never integrates on its own, and it mirrors whatever separation the
//! ships currently have — not the distance joint's configured limit, which
//! is a separate subsystem enforced by the external physics solver.

use vstd::prelude::*;
use crate::geom::{Vec2, in_arena, spec_dist_sq, dist_sq};
use crate::ship::PlayerId;

verus! {

/// The physics joint's configured maximum ship separation, in nano-units
/// (two hundred world units). The proxy never reads it; it is handed to the
/// external constraint solver.
pub const TETHER_JOINT_MAX_NANOS: i64 = 200_000_000_000;

/// Visual width of the tether segment, in milli-units (ten world units).
pub const TETHER_WIDTH_MILLI: u64 = 10_000;

/// The collidable strip is this fraction of the visual width, in
/// thousandths (seven tenths).
pub const TETHER_COLLIDER_WIDTH_FRACTION_MILLI: u64 = 700;

/// The tether's collidable proxy, stored as its two endpoints.
#[derive(Clone, Copy, PartialEq, Eq, Structural, Debug)]
pub struct TetherProxy {
    pub end_a: Vec2,
    pub end_b: Vec2,
}

impl TetherProxy {
    /// Twice the midpoint of the centerline, kept doubled so it is exact.
    pub open spec fn spec_midpoint_doubled(self) -> (int, int) {
        (self.end_a.x + self.end_b.x, self.end_a.y + self.end_b.y)
    }

    /// The squared length of the centerline.
    pub open spec fn spec_length_sq(self) -> int {
        spec_dist_sq(self.end_a, self.end_b)
    }

    /// The direction along the centerline, from end `a` to end `b` — the
    /// proxy's orientation, measured consistently as the vector from the
    /// first linked ship to the second.
    pub open spec fn spec_direction(self) -> (int, int) {
        (self.end_b.x - self.end_a.x, self.end_b.y - self.end_a.y)
    }

    /// A proxy freshly laid along the segment between two ship positions.
    pub fn new(ship_a: Vec2, ship_b: Vec2) -> (p: TetherProxy)
        ensures
            p.end_a == ship_a,
            p.end_b == ship_b,
    {
        TetherProxy { end_a: ship_a, end_b: ship_b }
    }

    /// Recompute the proxy from the ships' current positions. This runs
    /// every frame, after physics integration, so contact detection against
    /// the proxy stays geometrically accurate as the ships move: the shape
    /// is resized, not merely repositioned.
    pub fn recompute(&mut self, ship_a: Vec2, ship_b: Vec2)
        ensures
            final(self).end_a == ship_a,
            final(self).end_b == ship_b,
    {
        self.end_a = ship_a;
        self.end_b = ship_b;
    }

    /// Twice the midpoint of the centerline, exact.
    pub fn midpoint_doubled(&self) -> (m: Vec2)
        requires
            in_arena(self.end_a),
            in_arena(self.end_b),
        ensures
            (m.x as int, m.y as int) == self.spec_midpoint_doubled(),
    {
        Vec2 { x: self.end_a.x + self.end_b.x, y: self.end_a.y + self.end_b.y }
    }

    /// The squared length of the centerline, exact.
    pub fn length_sq(&self) -> (l: i128)
        requires
            in_arena(self.end_a),
            in_arena(self.end_b),
        ensures
            l == self.spec_length_sq(),
    {
        dist_sq(self.end_a, self.end_b)
    }

    /// The direction along the centerline, from end `a` to end `b`.
    pub fn direction(&self) -> (d: Vec2)
        requires
            in_arena(self.end_a),
            in_arena(self.end_b),
        ensures
            (d.x as int, d.y as int) == self.spec_direction(),
    {
        Vec2 { x: self.end_b.x - self.end_a.x, y: self.end_b.y - self.end_a.y }
    }
}

/// The tether itself: it links exactly the two ship identities and owns the
/// one collidable proxy laid between them. Its transform is a pure function
/// of the two ships' current positions, recomputed every frame — it never
/// integrates on its own.
#[derive(Clone, Copy, PartialEq, Eq, Structural, Debug)]
pub struct Tether {
    pub ship_a: PlayerId,
    pub ship_b: PlayerId,
    pub proxy: TetherProxy,
}

impl Tether {
    /// A tether freshly linking two ships at their current positions.
    pub fn new(ship_a: PlayerId, ship_b: PlayerId, pos_a: Vec2, pos_b: Vec2) -> (t: Tether)
        ensures
            t.ship_a == ship_a,
            t.ship_b == ship_b,
            t.proxy.end_a == pos_a,
            t.proxy.end_b == pos_b,
    {
        Tether { ship_a, ship_b, proxy: TetherProxy::new(pos_a, pos_b) }
    }

    /// Refresh the proxy from the linked ships' current positions; the
    /// linked identities never change.
    pub fn recompute(&mut self, pos_a: Vec2, pos_b: Vec2)
        ensures
            final(self).ship_a == old(self).ship_a,
            final(self).ship_b == old(self).ship_b,
            final(self).proxy.end_a == pos_a,
            final(self).proxy.end_b == pos_b,
    {
        self.proxy.recompute(pos_a, pos_b);
    }
}

/// The proxy always mirrors the live pair: after a recompute from ship
/// positions `a` and `b`, its squared length equals the ships' live squared
/// separation and its doubled midpoint equals the sum of their positions —
/// for arbitrary positions, in particular whenever the live separation
/// differs from the joint's configured limit, which appears nowhere here.
pub proof fn lemma_tether_mirrors_ships(p: TetherProxy, a: Vec2, b: Vec2)
    requires
        p.end_a == a,
        p.end_b == b,
    ensures
        p.spec_length_sq() == spec_dist_sq(a, b),
        p.spec_midpoint_doubled() == (a.x + b.x, a.y + b.y),
        p.spec_direction() == (b.x - a.x, b.y - a.y),
{
}

} // verus!

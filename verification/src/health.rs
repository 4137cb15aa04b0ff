//! The shared health pool: a single scalar fraction in the unit interval,
//! stored in thousandths, decremented by a fixed fraction per damage event
//! and clamped on every update.

use vstd::prelude::*;

verus! {

/// Full health, in thousandths of the unit interval.
pub const FULL_HEALTH_MILLI: u32 = 1_000;

/// Each damage event removes this fixed fraction (a fifth) of full health.
pub const DAMAGE_MILLI: u32 = 200;

/// Width of the health display at full health, in pixel-equivalent units.
pub const HEALTH_BAR_MAX_WIDTH: u32 = 180;

/// What one damage event leaves of `h`: a fifth less, clamped at zero.
pub open spec fn spec_damaged(h: u32) -> u32 {
    if h >= DAMAGE_MILLI {
        (h - DAMAGE_MILLI) as u32
    } else {
        0
    }
}

/// The shared health singleton. Mutated only by the collision router.
#[derive(Clone, Copy, PartialEq, Eq, Structural, Debug)]
pub struct HealthPool {
    pub milli: u32,
}

impl HealthPool {
    /// The health fraction never leaves the unit interval.
    pub open spec fn wf(self) -> bool {
        self.milli <= FULL_HEALTH_MILLI
    }

    /// A fresh pool holds full health.
    pub fn new() -> (h: HealthPool)
        ensures
            h.milli == FULL_HEALTH_MILLI,
            h.wf(),
    {
        HealthPool { milli: FULL_HEALTH_MILLI }
    }

    /// The pool after one damage event.
    pub fn damaged(self) -> (h: HealthPool)
        ensures
            h.milli == spec_damaged(self.milli),
            self.wf() ==> h.wf(),
    {
        if self.milli >= DAMAGE_MILLI {
            HealthPool { milli: self.milli - DAMAGE_MILLI }
        } else {
            HealthPool { milli: 0 }
        }
    }

    /// Width of the health bar, in thousandths of a pixel-equivalent unit:
    /// proportional to the fraction, with the full bar 180 units wide.
    pub fn bar_width_millipx(&self) -> (w: u64)
        ensures
            w == HEALTH_BAR_MAX_WIDTH * self.milli,
    {
        (HEALTH_BAR_MAX_WIDTH as u64) * (self.milli as u64)
    }
}

/// Health left after `k` consecutive damage events from full health.
pub open spec fn health_after(k: nat) -> u32
    decreases k,
{
    if k == 0 {
        FULL_HEALTH_MILLI
    } else {
        spec_damaged(health_after((k - 1) as nat))
    }
}

/// After `k` consecutive damage events from full health the pool holds
/// exactly `max(0, 1 - k/5)` of full health: it reaches zero at the fifth
/// event and never drops below zero.
pub proof fn lemma_health_after_k(k: nat)
    ensures
        health_after(k) as int == if k < 5 {
            FULL_HEALTH_MILLI - DAMAGE_MILLI * k
        } else {
            0int
        },
    decreases k,
{
    if k > 0 {
        lemma_health_after_k((k - 1) as nat);
    }
}

} // verus!

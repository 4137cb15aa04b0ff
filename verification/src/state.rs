//! The game state machine: two states, one irreversible transition.
//! The game starts running and ends, once and for all, when the health
//! pool reaches exactly zero inside the damage path.

use vstd::prelude::*;

verus! {

/// The whole-game state. `Running` is initial; `Ended` is terminal.
#[derive(Clone, Copy, PartialEq, Eq, Structural, Debug)]
pub enum GameState {
    Running,
    Ended,
}

/// The state after the collision router observes the health fraction `h`
/// (in thousandths): the game ends exactly when health reaches zero, and a
/// game that has ended stays ended.
pub open spec fn spec_observe_health(s: GameState, h: u32) -> GameState {
    if h == 0 {
        GameState::Ended
    } else {
        s
    }
}

impl GameState {
    /// The state after observing the health fraction `h`. One-way: once
    /// `Ended`, no observation returns to `Running`.
    pub fn observe_health(self, h: u32) -> (s: GameState)
        ensures
            s == spec_observe_health(self, h),
            self == GameState::Ended ==> s == GameState::Ended,
    {
        if h == 0 {
            GameState::Ended
        } else {
            self
        }
    }
}

/// The transition is one-way: no observation moves an ended game back to
/// `Running`, and a running game ends exactly when health is zero.
pub proof fn lemma_state_one_way(s: GameState, h: u32)
    ensures
        s == GameState::Ended ==> spec_observe_health(s, h) == GameState::Ended,
        spec_observe_health(s, h) == GameState::Running <==> s == GameState::Running && h != 0,
{
}

} // verus!

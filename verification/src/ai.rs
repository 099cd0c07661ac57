//! The built-in non-player controllers. Which action a non-player actor
//! actually picks each turn is a pluggable decision capability of the host;
//! the passive controller's trivial choice lives here.

use vstd::prelude::*;

use crate::action::Action;

verus! {

/// A controller that never does anything.
#[derive(Clone, Copy, PartialEq, Eq, Structural, Debug)]
pub struct PassiveAi;

impl PassiveAi {
    /// A passive controller.
    pub fn new() -> (ai: PassiveAi)
        ensures
            ai == (PassiveAi {  }),
    {
        PassiveAi {  }
    }

    /// The passive controller always passes.
    pub fn act(&self) -> (a: Action)
        ensures
            a == Action::Pass,
    {
        Action::Pass
    }
}

/// A controller that picks a random available action against a random valid
/// adjacent target. The pick itself reads the world and draws randomness, so
/// the host performs it and hands the scheduler the outcome.
#[derive(Clone, Copy, PartialEq, Eq, Structural, Debug)]
pub struct RandomAi;

impl RandomAi {
    /// A random controller.
    pub fn new() -> (ai: RandomAi)
        ensures
            ai == (RandomAi {  }),
    {
        RandomAi {  }
    }
}

} // verus!

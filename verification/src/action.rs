//! The closed set of concrete actions an actor can take. An action is
//! executed by the host (its outcome is reported back to the scheduler as an
//! [`crate::game_state::ActionResult`]); here live its data, its energy cost
//! and its targeting rules.

use vstd::prelude::*;

verus! {

/// Where an action is aimed: at the actor's own cell or one of the four
/// neighbouring cells.
#[derive(Clone, Copy, PartialEq, Eq, Structural, Debug)]
pub enum Target {
    Center,
    North,
    East,
    South,
    West,
}

/// What kind of object an action needs as its target.
#[derive(Clone, Copy, PartialEq, Eq, Structural, Debug)]
pub enum TargetCategory {
    NoTarget,
    Any,
    EmptyObject,
    BlockingObject,
}

/// A concrete action: either the no-op pass or a directed move of a given
/// strength.
#[derive(Clone, Copy, PartialEq, Eq, Structural, Debug)]
pub enum Action {
    Pass,
    Move { direction: Target, distance: i32 },
}

/// The energy an action costs once it completes.
pub open spec fn energy_cost_spec(a: Action) -> u32 {
    match a {
        Action::Pass => 0u32,
        Action::Move { .. } => 1u32,
    }
}

/// The target category an action asks its chooser for.
pub open spec fn target_category_spec(a: Action) -> TargetCategory {
    match a {
        Action::Pass => TargetCategory::NoTarget,
        Action::Move { .. } => TargetCategory::EmptyObject,
    }
}

impl Action {
    /// The energy this action costs; passing is free.
    pub fn get_energy_cost(&self) -> (c: u32)
        ensures
            c == energy_cost_spec(*self),
    {
        match self {
            Action::Pass => 0,
            Action::Move { .. } => 1,
        }
    }

    /// The target category this action asks for: a move needs an empty
    /// neighbouring object, passing needs none.
    pub fn get_target_category(&self) -> (t: TargetCategory)
        ensures
            t == target_category_spec(*self),
    {
        match self {
            Action::Pass => TargetCategory::NoTarget,
            Action::Move { .. } => TargetCategory::EmptyObject,
        }
    }

    /// Aim the action: a move takes the new direction, the pass ignores it.
    pub fn set_target(&mut self, target: Target)
        ensures
            *final(self) == match *old(self) {
                Action::Pass => Action::Pass,
                Action::Move { direction: _, distance } => Action::Move {
                    direction: target,
                    distance,
                },
            },
    {
        match self {
            Action::Pass => {},
            Action::Move { direction, .. } => {
                *direction = target;
            },
        }
    }
}

} // verus!

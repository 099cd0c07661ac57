//! Settings pertaining to the player: the action slots bound to input and
//! the queue of one pending action.

use vstd::prelude::*;

use crate::action::Action;

verus! {

/// The player object's slot in the object collection.
pub const PLAYER: usize = 0;

/// The player's bound actions and the pending action the scheduler will
/// consume next. New input may overwrite the pending action before the
/// scheduler has consumed it.
#[derive(Clone, Copy, PartialEq, Eq, Structural, Debug)]
pub struct PlayerCtrl {
    pub primary_action: Action,
    pub secondary_action: Action,
    pub quick1_action: Action,
    pub quick2_action: Action,
    pub next_action: Option<Action>,
}

impl PlayerCtrl {
    /// A fresh player control: every slot bound to the pass action, nothing
    /// pending.
    pub fn new() -> (p: PlayerCtrl)
        ensures
            p == (PlayerCtrl {
                primary_action: Action::Pass,
                secondary_action: Action::Pass,
                quick1_action: Action::Pass,
                quick2_action: Action::Pass,
                next_action: None::<Action>,
            }),
    {
        PlayerCtrl {
            primary_action: Action::Pass,
            secondary_action: Action::Pass,
            quick1_action: Action::Pass,
            quick2_action: Action::Pass,
            next_action: None,
        }
    }
}

} // verus!

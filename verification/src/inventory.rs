//! What an actor carries, and the actions that pertain to it.

use vstd::prelude::*;

use crate::action::Action;
use crate::object::Object;

verus! {

/// A list of carried items plus the actions pertaining to the inventory,
/// mostly dropping items.
#[derive(Debug, Clone, PartialEq)]
pub struct Inventory {
    /// The items contained in this inventory.
    pub items: Vec<Object>,
    /// The actions pertaining to this inventory.
    pub inv_actions: Vec<Action>,
}

impl Inventory {
    /// An empty inventory.
    pub fn new() -> (inv: Inventory)
        ensures
            inv.items@ == Seq::<Object>::empty(),
            inv.inv_actions@ == Seq::<Action>::empty(),
    {
        Inventory { items: Vec::new(), inv_actions: Vec::new() }
    }
}

} // verus!

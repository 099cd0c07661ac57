//! The shared actor collection: an index-addressable slot store. A slot can
//! be temporarily vacated while its actor is processed, so the processing
//! step can read the rest of the collection, and refilled afterwards; no two
//! actors are ever active within the same step.

use vstd::prelude::*;

use crate::object::Object;

verus! {

/// The slot store of all actors. Slot order is fixed: actors are considered
/// in cyclic index order and never reordered.
#[derive(Debug)]
pub struct GameObjects {
    obj_vec: Vec<Option<Object>>,
}

impl View for GameObjects {
    type V = Seq<Option<Object>>;

    closed spec fn view(&self) -> Seq<Option<Object>> {
        self.obj_vec@
    }
}

impl GameObjects {
    /// An empty collection.
    pub fn new() -> (g: GameObjects)
        ensures
            g@ == Seq::<Option<Object>>::empty(),
    {
        GameObjects { obj_vec: Vec::new() }
    }

    /// The number of slots, occupied or vacated.
    pub fn get_num_objects(&self) -> (n: usize)
        ensures
            n == self@.len(),
    {
        self.obj_vec.len()
    }

    /// Append an actor in a new slot at the end.
    pub fn push(&mut self, obj: Object)
        ensures
            final(self)@ == old(self)@.push(Some(obj)),
    {
        self.obj_vec.push(Some(obj));
    }

    /// Put the player into the first slot.
    pub fn set_player(&mut self, player: Object)
        requires
            old(self)@.len() > 0,
        ensures
            final(self)@ == old(self)@.update(0, Some(player)),
    {
        self.replace_slot(0, Some(player));
    }

    /// Read a slot.
    pub fn get(&self, index: usize) -> (r: &Option<Object>)
        requires
            index < self@.len(),
        ensures
            *r == self@[index as int],
    {
        &self.obj_vec[index]
    }

    /// Vacate a slot and hand its actor out; a slot outside the collection
    /// or already vacated yields nothing and changes nothing.
    pub fn extract(&mut self, index: usize) -> (r: Option<Object>)
        ensures
            index < old(self)@.len() ==> r == old(self)@[index as int] && final(self)@ == old(
                self,
            )@.update(index as int, None::<Object>),
            index >= old(self)@.len() ==> r is None && final(self)@ == old(self)@,
    {
        if index < self.obj_vec.len() {
            let r = self.obj_vec.remove(index);
            self.obj_vec.insert(index, None);
            proof {
                assert(final(self)@ =~= old(self)@.update(index as int, None::<Object>));
            }
            r
        } else {
            None
        }
    }

    /// Refill a slot with its processed actor.
    pub fn restore(&mut self, index: usize, obj: Object)
        requires
            index < old(self)@.len(),
        ensures
            final(self)@ == old(self)@.update(index as int, Some(obj)),
    {
        self.replace_slot(index, Some(obj));
    }

    /// Overwrite one slot.
    fn replace_slot(&mut self, index: usize, slot: Option<Object>)
        requires
            index < old(self)@.len(),
        ensures
            final(self)@ == old(self)@.update(index as int, slot),
    {
        self.obj_vec.remove(index);
        self.obj_vec.insert(index, slot);
        proof {
            assert(final(self)@ =~= old(self)@.update(index as int, slot));
        }
    }
}

} // verus!

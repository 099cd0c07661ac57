//! Plain values describing a player's input, as handed over by the host's
//! input layer: which trait slot the input addresses and an optional
//! direction.

use vstd::prelude::*;

use crate::action::Target;
use crate::genetics::SubTrait;

verus! {

/// An optional direction carried with an input.
#[derive(Clone, Copy, PartialEq, Eq, Structural, Debug)]
pub enum PlayActionParameter {
    Orientation(Target),
    Undirected,
}

/// One player input: the trait it addresses and its parameter.
#[derive(Clone, Copy, PartialEq, Eq, Structural, Debug)]
pub struct PlayAction {
    pub trait_id: SubTrait,
    pub param: PlayActionParameter,
}

} // verus!

//! The actor: its controller, its energy budget and the capabilities decoded
//! from its genome.

use vstd::prelude::*;

use crate::ai::PassiveAi;
use crate::ai::RandomAi;
use crate::genetics::Actuators;
use crate::genetics::Dna;
use crate::genetics::Processors;
use crate::genetics::Sensors;
use crate::player::PlayerCtrl;

verus! {

/// A non-player controller.
#[derive(Clone, Copy, PartialEq, Eq, Structural, Debug)]
pub enum AiControl {
    Passive(PassiveAi),
    Random(RandomAi),
}

/// Who steers an actor: the player's input or a non-player controller.
#[derive(Clone, Copy, PartialEq, Eq, Structural, Debug)]
pub enum Controller {
    Player(PlayerCtrl),
    Npc(AiControl),
}

/// An actor of the simulation. `energy` and `energy_storage` gate whether it
/// may act; `gene_stability` is the chance, in parts per thousand, that a
/// completed action leaves its genome unmutated.
#[derive(Clone, Debug, PartialEq)]
pub struct Object {
    pub name: String,
    pub control: Option<Controller>,
    pub energy: u32,
    pub energy_storage: u32,
    pub gene_stability: u32,
    pub sensors: Sensors,
    pub processors: Processors,
    pub actuators: Actuators,
    pub dna: Dna,
}

/// Whether an actor is steered by the player.
pub open spec fn is_player_spec(o: Object) -> bool {
    o.control matches Some(Controller::Player(_))
}

impl Object {
    /// A blank actor: no controller, no energy, a perfectly stable empty
    /// genome and empty capability bundles.
    pub fn new() -> (o: Object)
        ensures
            o.name@ == Seq::<char>::empty(),
            o.control is None,
            o.energy == 0,
            o.energy_storage == 0,
            o.gene_stability == 1000,
            o.sensors.actions@ == Seq::<crate::genetics::ActionPrototype>::empty(),
            o.sensors.sense_range == 0,
            o.processors.actions@ == Seq::<crate::genetics::ActionPrototype>::empty(),
            o.actuators.actions@ == Seq::<crate::genetics::ActionPrototype>::empty(),
            o.actuators.hp == 0,
            o.dna.raw@ == Seq::<u8>::empty(),
            o.dna.simplified@ == Seq::<crate::genetics::SuperTrait>::empty(),
    {
        Object {
            name: String::new(),
            control: None,
            energy: 0,
            energy_storage: 0,
            gene_stability: 1000,
            sensors: Sensors::new(),
            processors: Processors::new(),
            actuators: Actuators::new(),
            dna: Dna::new(),
        }
    }

    /// Whether this actor is steered by the player.
    pub fn is_player(&self) -> (b: bool)
        ensures
            b == is_player_spec(*self),
    {
        match &self.control {
            Some(Controller::Player(_)) => true,
            _ => false,
        }
    }

    /// Gain one unit of energy; only an actor below its storage cap
    /// metabolizes.
    pub fn metabolize(&mut self)
        requires
            old(self).energy < old(self).energy_storage,
        ensures
            *final(self) == (Object { energy: (old(self).energy + 1) as u32, ..*old(self) }),
    {
        self.energy = self.energy + 1;
    }

    /// Replace the genome and every capability bundle decoded from it.
    pub fn change_genome(
        &mut self,
        sensors: Sensors,
        processors: Processors,
        actuators: Actuators,
        dna: Dna,
    )
        ensures
            *final(self) == (Object { sensors, processors, actuators, dna, ..*old(self) }),
    {
        self.sensors = sensors;
        self.processors = processors;
        self.actuators = actuators;
        self.dna = dna;
    }
}

} // verus!

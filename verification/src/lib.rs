//! Genetic-encoding engine and turn-based action scheduler.
//!
//! Every actor's capabilities derive from a mutable byte-string genome.
//! Genes are variable-length, possibly overlapping runs inside the genome,
//! delimited by a zero sentinel byte; decoding accumulates trait occurrences
//! into three capability bundles. A round-robin scheduler gates actions on
//! energy, resolves their ranked outcomes and may mutate the genome in place.

pub mod action;
pub mod ai;
pub mod game_input;
pub mod game_objects;
pub mod game_state;
pub mod game_rng;
pub mod genetics;
pub mod genome_editor;
pub mod inventory;
pub mod object;
pub mod player;
pub mod timer;
pub mod util;

pub use util::generate_gray_code;
pub use util::modulus;

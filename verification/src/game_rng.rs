//! Seedable, reproducible random-value source for the engine. Randomness is
//! never ambient: a generator is constructed from an explicit seed and passed
//! to every function that needs it.

use vstd::prelude::*;

use rand::Rng;
use rand_core::SeedableRng;

verus! {

#[verifier::external_type_specification]
#[verifier::external_body]
pub struct ExIsaac64Rng(rand_isaac::Isaac64Rng);

/// A deterministic pseudo-random generator. The same seed always yields the
/// same stream of values.
pub struct GameRng {
    rng: rand_isaac::Isaac64Rng,
}

impl GameRng {
    /// Relies on `rand_core::SeedableRng::seed_from_u64` for
    /// `rand_isaac::Isaac64Rng`: builds a generator whose value stream is a
    /// function of the seed alone. Nothing is assumed about the values it
    /// will produce.
    #[verifier::external_body]
    pub fn new_from_u64_seed(seed: u64) -> GameRng {
        GameRng { rng: rand_isaac::Isaac64Rng::seed_from_u64(seed) }
    }

    /// Relies on `rand::Rng::gen_range` over `low..high`: returns a value of
    /// the half-open range, and panics only when the range is empty, which
    /// the precondition rules out. Which value comes back is left open.
    #[verifier::external_body]
    pub fn gen_range(&mut self, low: usize, high: usize) -> (r: usize)
        requires
            low < high,
        ensures
            low <= r < high,
    {
        self.rng.gen_range(low..high)
    }

    /// Draw a byte with exactly one bit set, each position equally likely.
    pub fn random_bit(&mut self) -> (b: u8)
        ensures
            exists|k: int| 0 <= k < 8 && b == (1u8 << k),
    {
        let k = self.gen_range(0, 8);
        let b = 1u8 << k;
        assert(b == (1u8 << (k as int)));
        b
    }

    /// Decide a random event whose chance of being true is `permille` parts
    /// per thousand: certain at 1000 or more, impossible at 0.
    pub fn flip_with_prob(&mut self, permille: u32) -> (b: bool)
        ensures
            permille == 0 ==> !b,
            permille >= 1000 ==> b,
    {
        let roll = self.gen_range(0, 1000);
        (roll as u32) < permille
    }
}

} // verus!

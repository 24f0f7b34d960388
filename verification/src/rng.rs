//! A reproducible pseudorandom number generator.
//!
//! In a multithreaded context, one generator should be handed to each logical
//! trace; constructing them deterministically from stable keys keeps a render
//! reproducible.

use vstd::prelude::*;

use crate::fixed::{Fx, SCALE};

verus! {

#[verifier::external_type_specification]
#[verifier::external_body]
pub struct ExMcg128Xsl64(rand_pcg::Mcg128Xsl64);

/// A seedable pseudorandom generator; nothing is assumed about the values it
/// produces beyond their range.
pub struct RandomNumberGenerator {
    internal: rand_pcg::Pcg64Mcg,
}

impl RandomNumberGenerator {
    /// Relies on rand_pcg's `Mcg128Xsl64::new`: builds the generator state
    /// from the seed.
    #[verifier::external_body]
    pub fn from_seed(seed: u32) -> RandomNumberGenerator {
        RandomNumberGenerator { internal: rand_pcg::Pcg64Mcg::new(seed as u128) }
    }

    /// Relies on rand_core's `Rng::next_u32` for `Mcg128Xsl64` (provided
    /// through its `TryRng` implementation): one pseudorandom 32-bit draw.
    /// The draw is arbitrary, so nothing is promised about the value.
    #[verifier::external_body]
    fn next_u32(&mut self) -> u32 {
        <rand_pcg::Pcg64Mcg as rand_core::Rng>::next_u32(&mut self.internal)
    }

    /// One pseudorandom scalar in the closed unit interval `[0, 1]`.
    pub fn next_float(&mut self) -> (r: Fx)
        ensures
            0 <= r@ <= SCALE,
    {
        let x: u32 = self.next_u32();
        proof {
            assert(0 <= (x as int) * (SCALE as int) <= 4294967295 * (SCALE as int))
                by (nonlinear_arith)
                requires
                    0 <= x as int <= 4294967295,
                    SCALE == 1048576,
            ;
        }
        let num: u64 = (x as u64) * (SCALE as u64);
        let raw: u64 = num / 4294967295u64;
        proof {
            vstd::arithmetic::div_mod::lemma_div_is_ordered(
                num as int,
                4294967295 * (SCALE as int),
                4294967295,
            );
            vstd::arithmetic::div_mod::lemma_div_multiples_vanish(SCALE as int, 4294967295);
        }
        Fx { raw: raw as i64 }
    }
}

} // verus!

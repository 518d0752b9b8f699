//! The renderer's random source: a seedable uniform generator. The outside
//! generator is trusted only to hand back bytes; nothing is assumed of their
//! values, and everything computed from them is verified for every value.

use vstd::prelude::*;
use rand::RngCore;
use rand::SeedableRng;
use crate::fx::FX_ONE;

verus! {

#[verifier::external_type_specification]
#[verifier::external_body]
pub struct ExStdRng(rand::rngs::StdRng);

/// Relies on rand's `StdRng::seed_from_u64` (`SeedableRng`): a deterministic
/// generator built from a 64-bit seed.
#[verifier::external_body]
pub fn rng_from_seed(seed: u64) -> rand::rngs::StdRng {
    rand::rngs::StdRng::seed_from_u64(seed)
}

/// Relies on rand's `StdRng::from_entropy` (`SeedableRng`): a generator
/// seeded from the operating system. The call aborts only if the operating
/// system's entropy source fails; no input can avoid that environmental
/// failure.
#[verifier::external_body]
pub fn rng_from_entropy() -> rand::rngs::StdRng {
    rand::rngs::StdRng::from_entropy()
}

/// Relies on rand's `RngCore::next_u64` for `StdRng`: the generator's next
/// raw output. Nothing is promised of the value.
#[verifier::external_body]
fn rng_next_u64(rng: &mut rand::rngs::StdRng) -> u64 {
    rng.next_u64()
}

/// The next number of the uniform stream as a fixed-point value in `[0, 1)`:
/// the low bits of the generator's raw output, whatever it was.
pub fn next_unit(rng: &mut rand::rngs::StdRng) -> (r: i64)
    ensures
        0 <= r < FX_ONE as int,
{
    let u: u64 = rng_next_u64(rng);
    (u % 65536) as i64
}

} // verus!

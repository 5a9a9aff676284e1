//! The pseudo-random source behind noise, jitter and watermark placement.

use vstd::prelude::*;
use rand::rngs::StdRng;

verus! {

/// `rand::rngs::StdRng`, the generator that is handed through to the draws.
/// Nothing is known of its state.
#[verifier::external_type_specification]
#[verifier::external_body]
pub struct ExStdRng(rand::rngs::StdRng);

/// Builds a generator from a seed with `rand::SeedableRng::seed_from_u64`.
/// Nothing is claimed of the generator.
#[verifier::external_body]
pub(crate) fn seeded_rng(seed: u64) -> (rng: StdRng) {
    rand::SeedableRng::seed_from_u64(seed)
}

/// Draws with `rand::Rng::random_range` from `0..bound`. The range must
/// not be empty, or the call would panic; the draw lies in it.
#[verifier::external_body]
pub(crate) fn draw_below(rng: &mut StdRng, bound: u32) -> (value: u32)
    requires
        bound > 0,
    ensures
        value < bound,
{
    rand::Rng::random_range(rng, 0..bound)
}

} // verus!

//! The random source behind exploration events: a seedable generator from the
//! `rand` crate, reached only through the trusted declarations below. Every
//! caller is verified against what is stated here and nothing more, so all
//! game rules hold whatever values the generator yields.

use vstd::prelude::*;
use rand::Rng;
use rand::SeedableRng;

verus! {

/// Declares `rand::rngs::StdRng` so that it can stand in fields and
/// signatures. Its state is opaque to the verifier.
#[verifier::external_type_specification]
#[verifier::external_body]
pub struct ExStdRng(rand::rngs::StdRng);

/// Relies on rand::SeedableRng::seed_from_u64: builds a generator from a
/// 64-bit seed. Nothing is claimed of the stream it will yield.
#[verifier::external_body]
pub(crate) fn seeded_rng(seed: u64) -> rand::rngs::StdRng {
    rand::rngs::StdRng::seed_from_u64(seed)
}

/// Relies on rand::Rng::gen_range on the inclusive range `lo..=hi`: the range
/// is non-empty (so the call does not panic) and the result lies within it.
/// Which value comes back is left open: callers must hold for every outcome.
#[verifier::external_body]
pub(crate) fn roll_in_range(rng: &mut rand::rngs::StdRng, lo: u8, hi: u8) -> (r: u8)
    requires
        lo <= hi,
    ensures
        lo <= r <= hi,
{
    rng.gen_range(lo..=hi)
}

} // verus!

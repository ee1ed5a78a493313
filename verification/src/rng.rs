//! The simulation's one source of randomness, behind a trusted wrapper.
//! Probabilities are handed to the simulation as integer thresholds measured
//! in `UNIT_SCALE`-ths of the unit interval, so the simulation itself never
//! touches floating point.

use rand::Rng;
use vstd::prelude::*;

verus! {

/// Number of equal slices the unit interval is divided into when a
/// probability is expressed as an integer threshold.
pub const UNIT_SCALE: u64 = 9007199254740992;

/// A uniformly random value in `[0, bound)`.
/// Relies on rand's `Rng::gen_range` over the half-open range `0..bound`,
/// which panics only on an empty range and otherwise returns a sample of the
/// range; no two calls need agree, so nothing more is assumed of the result.
#[verifier::external_body]
pub fn random_below(bound: u64) -> (r: u64)
    requires
        bound > 0,
    ensures
        r < bound,
{
    rand::thread_rng().gen_range(0..bound)
}

} // verus!

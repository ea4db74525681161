//! The source of random draws.

use rand::Rng;
use vstd::prelude::*;

verus! {

/// Relies on rand's `thread_rng().gen_range(0..bound)`: a uniform draw from
/// `0..bound`. `gen_range` panics on an empty range, hence `bound > 0`.
#[verifier::external_body]
pub(crate) fn random_below(bound: u64) -> (r: u64)
    requires
        bound > 0,
    ensures
        r < bound,
{
    rand::thread_rng().gen_range(0..bound)
}

} // verus!

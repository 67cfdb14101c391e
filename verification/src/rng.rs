//! The library's one source of randomness, wrapped so that verified code
//! can state what holds of every outcome.

use vstd::prelude::*;

verus! {

/// Relies on rand::Rng::gen_range over rand::thread_rng(): `gen_range(0..bound)`
/// returns a value uniformly distributed in `[0, bound)` and panics only on an
/// empty range, which the precondition rules out. Which value comes back is
/// not promised: callers must hold for every value below the bound.
#[verifier::external_body]
pub(crate) fn random_below(bound: u64) -> (r: u64)
    requires
        bound > 0,
    ensures
        r < bound,
{
    rand::Rng::gen_range(&mut rand::thread_rng(), 0..bound)
}

} // verus!

//! Where the games take their chance from.

use rand::Rng;
use vstd::prelude::*;

verus! {

/// `Rng::gen_range` on the thread's random generator, over the half-open
/// range from zero to `bound`: some number below the bound. The crate panics
/// on an empty range, hence the precondition.
#[verifier::external_body]
pub(crate) fn random_below(bound: usize) -> (n: usize)
    requires
        bound > 0,
    ensures
        n < bound,
{
    rand::thread_rng().gen_range(0..bound)
}

} // verus!

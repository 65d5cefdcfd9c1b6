//! The random rolls of the simulation, drawn from `rand`'s thread-local generator.

use rand::rngs::ThreadRng;
use rand::RngExt;
use vstd::prelude::*;

verus! {

#[verifier::external_type_specification]
#[verifier::external_body]
pub struct ExThreadRng(ThreadRng);

/// `rand::rng()`: a handle on the thread-local generator. Nothing is claimed
/// of it. Left unsaid: on the first call in a thread it seeds from the
/// system's generator and panics if that fails.
#[verifier::external_body]
pub(crate) fn thread_rng() -> ThreadRng {
    rand::rng()
}

/// `RngExt::random_range(0..n)` on that generator. Claimed: the result lies
/// in `0..n`, as `random_range` documents for a half-open range; which value
/// comes is left open. `n > 0`, since `random_range` panics on an empty range.
#[verifier::external_body]
pub(crate) fn roll_below(rng: &mut ThreadRng, n: u8) -> (r: u8)
    requires
        n > 0,
    ensures
        r < n,
{
    rng.random_range(0..n)
}

} // verus!

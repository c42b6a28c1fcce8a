//! The random number source of the automatic transition.

use vstd::prelude::*;

use rand::rngs::ThreadRng;
use rand::RngExt;

verus! {

/// The thread-local generator of `rand`.
#[verifier::external_type_specification]
#[verifier::external_body]
pub struct ExThreadRng(rand::rngs::ThreadRng);

/// `rand::rng`: a handle on the thread-local generator. Nothing is claimed
/// of its state. It panics only if the operating system's generator fails
/// when the thread's generator is first seeded, which no argument decides.
#[verifier::external_body]
pub(crate) fn thread_rng() -> ThreadRng {
    rand::rng()
}

/// `RngExt::random_range` on the half-open range `low..high`: a value in the
/// range (the call asserts that the range is not empty). Which value is not
/// claimed: it is random.
#[verifier::external_body]
pub(crate) fn random_index(rng: &mut ThreadRng, low: usize, high: usize) -> (r: usize)
    requires
        low < high,
    ensures
        low <= r < high,
{
    rng.random_range(low..high)
}

} // verus!

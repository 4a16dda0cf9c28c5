//! The source of uniform randomness.

use rand::distributions::Distribution;
use rand::distributions::Uniform;
use rand::rngs::ThreadRng;
use vstd::prelude::*;

verus! {

/// The thread-local random number generator of the `rand` crate,
/// `rand::rngs::ThreadRng`. Nothing is known of its state.
#[verifier::external_type_specification]
#[verifier::external_body]
pub struct ExThreadRng(ThreadRng);

/// `rand::thread_rng` hands out a handle on the generator of the current
/// thread, which the operating system seeds. Nothing is claimed of the
/// handle. The call takes no argument; it panics where the operating
/// system cannot seed the generator.
pub assume_specification[ rand::thread_rng ]() -> (rng: ThreadRng);

/// Draws one integer from `[low, high)` with `rand`'s
/// `Uniform::new(low, high)` and `Distribution::sample`. `Uniform::new`
/// panics unless `low < high`, hence the precondition. The only claim is
/// the one that the crate documents of every outcome: the sample lies in
/// the half-open range. Two draws with the same bounds may differ.
#[verifier::external_body]
pub(crate) fn sample_uniform(rng: &mut ThreadRng, low: u128, high: u128) -> (x: u128)
    requires
        low < high,
    ensures
        low <= x < high,
{
    Uniform::new(low, high).sample(rng)
}

} // verus!

//! The random source. Nothing here is proved: each item states what the
//! `rand` crate does, and the rest of the library is verified against that.

use rand::rngs::ThreadRng;
use rand::seq::SliceRandom;
use rand::Rng;
use vstd::prelude::*;

verus! {

/// `rand::rngs::ThreadRng`, the handle to the generator of the current
/// thread. Its state is not modelled.
#[verifier::external_type_specification]
#[verifier::external_body]
pub struct ExThreadRng(ThreadRng);

/// `rand::rng` hands out the generator of the current thread, which the
/// operating system has seeded. Nothing is claimed of the generator.
pub assume_specification[ rand::rng ]() -> (rng: ThreadRng)
;

/// `Rng::random_range` on the range `0..=upper`, which is never empty, so
/// the call does not panic. The number drawn lies in the range; which one
/// it is depends on the generator, and nothing more is claimed.
#[verifier::external_body]
pub(crate) fn random_up_to(rng: &mut ThreadRng, upper: u32) -> (drawn: u32)
    ensures
        drawn <= upper,
{
    rng.random_range(0..=upper)
}

/// `SliceRandom::shuffle` reorders the slice in place by swapping its
/// elements: afterwards it holds the same values, each as often as before.
/// The order depends on the generator, and nothing is claimed of it.
#[verifier::external_body]
pub(crate) fn shuffle(values: &mut Vec<u32>, rng: &mut ThreadRng)
    ensures
        final(values)@.to_multiset() == old(values)@.to_multiset(),
{
    values.shuffle(rng);
}

} // verus!

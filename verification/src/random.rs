//! The random source and the shuffle, both taken from `rand` and believed,
//! not proved.

use vstd::prelude::*;

verus! {

/// `rand::rngs::ThreadRng`, the random number generator that each thread
/// keeps for itself. Nothing inside it is visible to the proofs.
#[verifier::external_type_specification]
#[verifier::external_body]
pub struct ExThreadRng(rand::rngs::ThreadRng);

/// `rand::thread_rng` hands out the generator of the calling thread, which
/// the system seeds. Nothing is claimed of the generator.
///
/// `rand` panics here if the system cannot seed the generator; that depends
/// on the machine and on no argument.
pub assume_specification[ rand::thread_rng ]() -> (rng: rand::rngs::ThreadRng)
;

/// `rand::seq::SliceRandom::shuffle` on the items of a vector: it walks the
/// slice from the back and swaps each item with one at a random place at or
/// before it. Swaps neither add nor drop an item, so the contract claims
/// that the same items are there afterwards, each as often as before, and
/// claims nothing of their order.
#[verifier::external_body]
pub(crate) fn shuffle<T>(items: &mut Vec<T>, rng: &mut rand::rngs::ThreadRng)
    ensures
        final(items)@.to_multiset() == old(items)@.to_multiset(),
{
    rand::seq::SliceRandom::shuffle(items.as_mut_slice(), rng);
}

} // verus!

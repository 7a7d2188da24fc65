//! The random draws of the game, taken from the `rand` crate. Nothing is
//! proved of these items: their contracts are read off `rand`'s source.

use rand::seq::SliceRandom;
use vstd::prelude::*;

verus! {

/// `rand::rngs::ThreadRng`, the handle to the thread's generator. Opaque.
#[verifier::external_type_specification]
#[verifier::external_body]
pub struct ExThreadRng(rand::rngs::ThreadRng);

/// `rand::thread_rng` returns a handle to the generator of the calling
/// thread, which the system seeds on first use; it panics if the system
/// has no entropy to give. Nothing is claimed of the handle.
pub assume_specification[ rand::thread_rng ]() -> (rng: rand::rngs::ThreadRng);

/// `SliceRandom::choose` on a slice: `None` for an empty slice, else one
/// of its elements, at an index the generator picks. Which one is not
/// claimed.
#[verifier::external_body]
pub(crate) fn draw<T: Copy>(pool: &Vec<T>, rng: &mut rand::rngs::ThreadRng) -> (picked: Option<T>)
    ensures
        pool@.len() == 0 ==> picked is None,
        pool@.len() > 0 ==> picked is Some && pool@.contains(picked->0),
{
    pool.choose(rng).copied()
}

} // verus!

//! The source of randomness that the groups of an address are drawn from.

use rand::rngs::ThreadRng;
use rand::seq::SliceRandom;
use vstd::prelude::*;

verus! {

/// The generator of the calling thread, `rand::rngs::ThreadRng`. Nothing
/// is known of what it holds.
#[verifier::external_type_specification]
#[verifier::external_body]
pub struct ExThreadRng(rand::rngs::ThreadRng);

/// `rand::thread_rng` hands out the generator of the calling thread. Nothing
/// is claimed of it. The call takes no input; it panics if the operating
/// system has no randomness to seed the generator with.
pub assume_specification[ rand::thread_rng ]() -> (rng: ThreadRng)
;

/// Draws one of the items with `rand::seq::SliceRandom::choose`. What is
/// claimed is what holds of every draw: there is none from an empty list, and
/// from any other list the item that is drawn is one of the list.
#[verifier::external_body]
pub(crate) fn pick<'a, T>(items: &'a Vec<T>, rng: &mut ThreadRng) -> (picked: Option<&'a T>)
    ensures
        items@.len() == 0 ==> picked is None,
        items@.len() > 0 ==> picked is Some && items@.contains(*picked->0),
{
    items.choose(rng)
}

} // verus!

//! Randomness, as far as the track list needs it.

use rand::seq::SliceRandom;
use rand::Rng;
use vstd::prelude::*;

verus! {

/// `Rng::random_range` on the thread's generator, with the range `0..=upper`:
/// some index that is not above `upper`. Which one is up to chance.
#[verifier::external_body]
pub(crate) fn random_index(upper: usize) -> (index: usize)
    ensures
        index <= upper,
{
    rand::rng().random_range(0..=upper)
}

/// `SliceRandom::shuffle` on the thread's generator: the items are swapped
/// about in place, so afterwards the vector holds what it held before, each
/// item as often as before. In which order is up to chance.
#[verifier::external_body]
pub(crate) fn shuffle(items: &mut Vec<usize>)
    ensures
        final(items)@.to_multiset() == old(items)@.to_multiset(),
{
    items.shuffle(&mut rand::rng());
}

} // verus!

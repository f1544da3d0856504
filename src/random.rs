//! Random choices, made by the `rand` crate's thread-local generator.

use vstd::prelude::*;

verus! {

/// Relies on `rand::random_range`: a number drawn from `0..n`. It panics on
/// an empty range, which `n > 0` rules out.
#[verifier::external_body]
pub(crate) fn random_index(n: usize) -> (r: usize)
    requires
        n > 0,
    ensures
        r < n,
{
    rand::random_range(0..n)
}

/// Relies on `rand::seq::SliceRandom::shuffle`: the items are permuted in
/// place, none added or lost.
#[verifier::external_body]
pub(crate) fn shuffle(v: &mut Vec<String>)
    ensures
        final(v)@.to_multiset() == old(v)@.to_multiset(),
{
    rand::seq::SliceRandom::shuffle(v.as_mut_slice(), &mut rand::rng())
}

} // verus!

//! The random draws the game makes: shuffling answer tiles and picking one
//! line out of several. The generator is `rand`'s `SmallRng`.
use rand::rngs::SmallRng;
use rand::seq::SliceRandom;
use rand::Rng;
use vstd::prelude::*;

verus! {

#[verifier::external_type_specification]
#[verifier::external_body]
pub struct ExSmallRng(SmallRng);

/// `rand::seq::SliceRandom::shuffle` on the vector's slice: a Fisher-Yates
/// pass of swaps drawn from `rng`. Claimed: the vector ends up holding the
/// same items, each as often as before; which order comes out is chance.
#[verifier::external_body]
pub(crate) fn shuffle<T>(v: &mut Vec<T>, rng: &mut SmallRng)
    ensures
        final(v)@.to_multiset() == old(v)@.to_multiset(),
{
    v.as_mut_slice().shuffle(rng);
}

/// `rand::Rng::gen_range(0..n)`: a number drawn from `rng` below `n`. The
/// range must not be empty (it panics then).
#[verifier::external_body]
pub(crate) fn pick_below(rng: &mut SmallRng, n: usize) -> (i: usize)
    requires
        n > 0,
    ensures
        i < n,
{
    rng.gen_range(0..n)
}

} // verus!

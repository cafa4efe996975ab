use vstd::prelude::*;

use rand::seq::SliceRandom;
use rand::{Rng, SeedableRng};
use rand_xoshiro::Xoshiro128Plus;

verus! {

#[verifier::external_type_specification]
#[verifier::external_body]
pub struct ExXoshiro128Plus(Xoshiro128Plus);

/// A generator seeded from the thread's entropy source: calls `Xoshiro128Plus::from_seed`
/// with a seed that `rand::thread_rng().gen()` draws. Nothing is claimed of the state.
#[verifier::external_body]
pub(crate) fn seeded_rng() -> Xoshiro128Plus {
    Xoshiro128Plus::from_seed(rand::thread_rng().gen())
}

/// `Rng::gen_range(0, n)` of rand 0.7: a value drawn from `[0, n)`; the source panics when
/// the range is empty, so `n` must be positive. Which value comes out is left open.
#[verifier::external_body]
pub(crate) fn gen_index(rng: &mut Xoshiro128Plus, n: usize) -> (r: usize)
    requires
        n > 0,
    ensures
        r < n,
{
    rng.gen_range(0, n)
}

/// `SliceRandom::shuffle` of rand 0.7: the items put in a random order; the same items stay.
#[verifier::external_body]
pub(crate) fn shuffle(rows: &mut Vec<u32>, rng: &mut Xoshiro128Plus)
    ensures
        final(rows)@.to_multiset() == old(rows)@.to_multiset(),
        final(rows)@.len() == old(rows)@.len(),
{
    rows.shuffle(rng)
}

} // verus!

use vstd::prelude::*;
use crate::items::Item;

verus! {

/// The lowercase image of a string, as `str::to_lowercase` produces it: a
/// function of the characters alone.
pub uninterp spec fn lower_of(s: Seq<char>) -> Seq<char>;

/// Relies on `str::to_lowercase`: the result is determined by the characters
/// of the input.
#[verifier::external_body]
pub fn to_lowercase(s: &String) -> (r: String)
    ensures
        r@ == lower_of(s@),
{
    s.as_str().to_lowercase()
}

/// The ordering that a seeded shuffle gives a pool: a function of the seed
/// and the input sequence alone.
pub uninterp spec fn shuffle_of(seed: u64, items: Seq<Item>) -> Seq<Item>;

/// Relies on `rand::SeedableRng::seed_from_u64` (the stream drawn from a
/// given seed is fixed; the trait calls a change of it value-breaking) and on
/// `rand::seq::SliceRandom::shuffle` (an in-place Fisher-Yates pass over the
/// slice, hence a permutation of it).
#[verifier::external_body]
pub fn shuffle_items(seed: u64, items: Vec<Item>) -> (r: Vec<Item>)
    ensures
        r@ == shuffle_of(seed, items@),
        r@.to_multiset() == items@.to_multiset(),
{
    let mut v = items;
    let mut rng = <rand::rngs::StdRng as rand::SeedableRng>::seed_from_u64(seed);
    rand::seq::SliceRandom::shuffle(v.as_mut_slice(), &mut rng);
    v
}

} // verus!

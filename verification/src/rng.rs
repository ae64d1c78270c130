//! A seedable pseudo-random word stream for the random-value and
//! operator-transform kernels. The stream is a pure function of the seed and
//! the word index, so a run with a fixed seed is reproducible.
use vstd::prelude::*;

verus! {

/// The word at position `i` of the stream seeded with `seed`: a bit-mixing
/// permutation of `seed + (i + 1) * odd-constant`, evaluated independently
/// per index.
pub open spec fn stream_word_spec(seed: u64, i: u64) -> u64 {
    let z0 = seed.wrapping_add(i.wrapping_add(1).wrapping_mul(0x9E3779B97F4A7C15));
    let z1 = (z0 ^ (z0 >> 30)).wrapping_mul(0xBF58476D1CE4E5B9);
    let z2 = (z1 ^ (z1 >> 27)).wrapping_mul(0x94D049BB133111EB);
    z2 ^ (z2 >> 31)
}

/// Compute the stream word at index `i`.
pub fn stream_word(seed: u64, i: u64) -> (r: u64)
    ensures
        r == stream_word_spec(seed, i),
{
    let z0 = seed.wrapping_add(i.wrapping_add(1).wrapping_mul(0x9E3779B97F4A7C15));
    let z1 = (z0 ^ (z0 >> 30)).wrapping_mul(0xBF58476D1CE4E5B9);
    let z2 = (z1 ^ (z1 >> 27)).wrapping_mul(0x94D049BB133111EB);
    z2 ^ (z2 >> 31)
}

} // verus!

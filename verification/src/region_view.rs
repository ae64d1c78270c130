//! The region view: an exclusive, bounds-checked handle over a contiguous
//! run of fixed-size words, addressed as `base + WORD_BYTES * index`.
use vstd::prelude::*;

verus! {

/// Bytes per tested word.
pub const WORD_BYTES: usize = 8;

/// An exclusive word-addressed view of the memory under test. `base` is the
/// nominal byte address of word 0; failing words are reported by such
/// addresses.
#[derive(Debug)]
pub struct Region {
    pub base: usize,
    pub words: Vec<u64>,
}

impl Region {
    /// Every word's address fits in the address space.
    pub open spec fn wf(self) -> bool {
        self.base + self.words@.len() * WORD_BYTES <= usize::MAX
    }

    pub open spec fn address_spec(self, i: int) -> int {
        self.base + WORD_BYTES * i
    }

    pub fn new(base: usize, words: Vec<u64>) -> (r: Region)
        requires
            base + words@.len() * WORD_BYTES <= usize::MAX,
        ensures
            r.base == base,
            r.words == words,
            r.wf(),
    {
        Region { base, words }
    }

    pub fn len(&self) -> (r: usize)
        ensures
            r == self.words@.len(),
    {
        self.words.len()
    }

    pub fn read(&self, i: usize) -> (r: u64)
        requires
            i < self.words@.len(),
        ensures
            r == self.words@[i as int],
    {
        self.words[i]
    }

    pub fn write(&mut self, i: usize, v: u64)
        requires
            i < old(self).words@.len(),
        ensures
            final(self).words@ == old(self).words@.update(i as int, v),
            final(self).base == old(self).base,
            old(self).wf() ==> final(self).wf(),
    {
        self.words.set(i, v);
    }

    /// The byte address of word `i`.
    pub fn address_of(&self, i: usize) -> (r: usize)
        requires
            self.wf(),
            i < self.words@.len(),
        ensures
            r == self.address_spec(i as int),
    {
        proof {
            assert(WORD_BYTES * (i as int) <= WORD_BYTES * (self.words@.len() - 1)) by (
            nonlinear_arith)
                requires
                    i < self.words@.len(),
            ;
        }
        self.base + WORD_BYTES * i
    }
}

} // verus!

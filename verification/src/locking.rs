//! Memory pinning: trusted wrappers over the region crate, and the verified
//! lock acquisition strategy that retries with a shrinking size on
//! resource-exhaustion failures.
use vstd::prelude::*;
use crate::region_view::{Region, WORD_BYTES};
use std::io::ErrorKind;

verus! {

/// Bytes per page: the fixed step the lock strategy shrinks by.
pub const PAGE_SIZE: usize = 4096;

/// The error code the platform reports when a working set quota is exceeded.
pub const WIN_OUTOFMEM_CODE: usize = 1453;

#[verifier::external_type_specification]
#[verifier::external_body]
pub struct ExLockGuard(region::LockGuard);

/// How one pin attempt ended: a guard that unpins on release, the
/// resource-exhaustion class of failure that permits a shrink-and-retry, or
/// any other failure.
pub enum LockAttempt {
    Locked(region::LockGuard),
    OutOfMemory,
    Failed,
}

/// Relies on region::lock: pins `size` bytes from the start of the word
/// block in RAM and returns a guard that unpins them when released. The
/// error is classified here: a SystemCall failure whose kind is OutOfMemory,
/// or whose raw code is the platform's quota code, is the shrinkable class.
/// Whether the platform grants the pin cannot be promised.
#[verifier::external_body]
fn try_lock(words: &Vec<u64>, size: usize) -> (r: LockAttempt)
    requires
        size <= words@.len() * WORD_BYTES,
{
    match region::lock(words.as_ptr(), size) {
        Ok(guard) => LockAttempt::Locked(guard),
        Err(region::Error::SystemCall(err)) if matches!(err.kind(), ErrorKind::OutOfMemory)
            || err.raw_os_error().is_some_and(|e| e as usize == WIN_OUTOFMEM_CODE) => {
            LockAttempt::OutOfMemory
        },
        Err(_) => LockAttempt::Failed,
    }
}

/// Relies on region::LockGuard's Drop implementation: releasing the guard
/// unpins the region.
#[verifier::external_body]
pub fn release_lock(guard: region::LockGuard) {
    drop(guard);
}

/// The size the strategy tries after a resource-exhaustion failure at
/// `size`: one page less, unless that would go below one page.
pub fn next_shrink_size(size: usize) -> (r: Option<usize>)
    ensures
        r == (if size >= 2 * PAGE_SIZE {
            Some((size - PAGE_SIZE) as usize)
        } else {
            None::<usize>
        }),
{
    if size >= 2 * PAGE_SIZE {
        Some(size - PAGE_SIZE)
    } else {
        None
    }
}

/// What the strategy converges to against a platform that grants a pin
/// exactly when the size is at most `threshold` and reports resource
/// exhaustion above it.
pub open spec fn shrink_outcome(size: nat, threshold: nat) -> Option<nat>
    decreases size,
{
    if size <= threshold {
        Some(size)
    } else if size >= 2 * PAGE_SIZE {
        shrink_outcome((size - PAGE_SIZE) as nat, threshold)
    } else {
        None
    }
}

/// Against a platform that reports resource exhaustion on every attempt
/// above `threshold`, the strategy converges to the largest whole multiple
/// of the page size that is at most `threshold`, or fails when no such size
/// of at least one page exists.
pub proof fn lemma_shrink_convergence(size: nat, threshold: nat)
    requires
        size % (PAGE_SIZE as nat) == 0,
        size >= PAGE_SIZE,
    ensures
        size <= threshold ==> shrink_outcome(size, threshold) == Some(size),
        size > threshold && threshold >= PAGE_SIZE ==> shrink_outcome(size, threshold) == Some(
            (threshold / (PAGE_SIZE as nat)) * (PAGE_SIZE as nat),
        ),
        size > threshold && threshold < PAGE_SIZE ==> shrink_outcome(size, threshold)
            == None::<nat>,
    decreases size,
{
    let page = PAGE_SIZE as nat;
    if size > threshold {
        if size >= 2 * page {
            let smaller = (size - page) as nat;
            assert(smaller % page == 0) by (nonlinear_arith)
                requires
                    size % page == 0,
                    page == PAGE_SIZE,
                    size >= 2 * page,
                    smaller == size - page,
            ;
            lemma_shrink_convergence(smaller, threshold);
            if smaller <= threshold && threshold >= page {
                assert(smaller == (threshold / page) * page) by (nonlinear_arith)
                    requires
                        smaller % page == 0,
                        page == PAGE_SIZE,
                        smaller <= threshold,
                        threshold < smaller + page,
                ;
            }
        } else {
            assert(size == page) by (nonlinear_arith)
                requires
                    size % page == 0,
                    page == PAGE_SIZE,
                    page <= size < 2 * page,
            ;
        }
    }
}

/// Attempt to pin `memsize` bytes of the region, shrinking by one page and
/// retrying on resource exhaustion where configuration permits, until
/// success or until the size would go below one page. Returns the guard on
/// success, and in either case the size of the last attempt, which is what
/// the run goes on to test.
pub fn memory_resize_and_lock(region: &Region, memsize: usize, allow_mem_resize: bool) -> (r: (
    Option<region::LockGuard>,
    usize,
))
    requires
        memsize <= region.words@.len() * WORD_BYTES,
    ensures
        r.1 <= memsize,
        (memsize - r.1) % (PAGE_SIZE as int) == 0,
        !allow_mem_resize ==> r.1 == memsize,
{
    let mut size: usize = memsize;
    loop
        invariant
            size <= memsize,
            (memsize - size) % (PAGE_SIZE as int) == 0,
            memsize <= region.words@.len() * WORD_BYTES,
            !allow_mem_resize ==> size == memsize,
        decreases size,
    {
        match try_lock(&region.words, size) {
            LockAttempt::Locked(guard) => {
                return (Some(guard), size);
            },
            LockAttempt::OutOfMemory => {
                if !allow_mem_resize {
                    return (None, size);
                }
                match next_shrink_size(size) {
                    Some(smaller) => {
                        size = smaller;
                    },
                    None => {
                        return (None, size);
                    },
                }
            },
            LockAttempt::Failed => {
                return (None, size);
            },
        }
    }
}

} // verus!

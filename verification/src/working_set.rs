//! The working-set adapter: raises the process's resident-memory ceiling
//! before a run and restores it afterward. Unlike lock acquisition, a
//! failure in either direction aborts the whole run. This platform has no
//! working-set capability, so both directions are no-ops that always
//! succeed; the orchestrator still routes their results through the
//! aborting path.
use vstd::prelude::*;
use crate::orchestrator::MemtesterError;

verus! {

/// Widen the resident-memory ceiling for a region of `memsize` bytes and
/// return the previous minimum and maximum ceiling, to be restored later.
/// Without the platform capability there is nothing to replace: the previous
/// bounds are reported as zero.
pub fn replace_set_size(memsize: usize) -> (r: Result<(usize, usize), MemtesterError>)
    ensures
        r == Ok::<(usize, usize), MemtesterError>((0usize, 0usize)),
{
    let _ = memsize;
    Ok((0, 0))
}

/// Narrow the resident-memory ceiling back to the saved bounds. Without the
/// platform capability there is nothing to restore.
pub fn restore_set_size(min_set_size: usize, max_set_size: usize) -> (r: Result<
    (),
    MemtesterError,
>)
    ensures
        r == Ok::<(), MemtesterError>(()),
{
    let _ = min_set_size;
    let _ = max_set_size;
    Ok(())
}

} // verus!

//! The twelve test kernels. Each writes one or more patterns over its lane
//! of the region, polls its time budget between phases, and verifies the
//! readback, reporting Pass, the lowest mismatching address, or Timeout.
//!
//! A kernel cannot be interrupted from outside: budget enforcement between
//! its bounded-length phases is the kernel's own duty.
use vstd::prelude::*;
use crate::clock::{clock_now, elapsed_millis};
use crate::outcome::{lane_verdict, MemtestError, MemtestOutcome};
use crate::pattern::{
    lemma_no_fault, pattern_word, transform_op, verify_pattern, write_pattern, Op, Pattern,
};
use crate::region_view::Region;
use crate::rng::{stream_word, stream_word_spec};

verus! {

/// A kernel leaves the region's shape alone: same base, same word count.
pub open spec fn shape_kept(before: Region, after: Region) -> bool {
    &&& after.wf()
    &&& after.base == before.base
    &&& after.words@.len() == before.words@.len()
}

/// One write phase: put `p` into the lane `[start, start + count)`. The
/// operator patterns are written as the hardware test demands: first the
/// baseline stream, then a read-modify-write of each word.
fn run_write_phase(region: &mut Region, start: usize, count: usize, p: &Pattern)
    requires
        old(region).wf(),
        start + count <= old(region).words@.len(),
    ensures
        shape_kept(*old(region), *final(region)),
        forall|j: int|
            start <= j < start + count ==> final(region).words@[j] == pattern_word(
                *p,
                old(region).base,
                j,
            ),
{
    match *p {
        Pattern::StreamOp { seed, op, operand } => {
            write_pattern(region, start, count, &Pattern::Stream { seed });
            transform_op(region, start, count, op, operand);
        },
        _ => {
            write_pattern(region, start, count, p);
        },
    }
}

/// Run the given rounds over one lane: write each pattern, then verify it,
/// polling the budget between phases.
fn run_kernel(region: &mut Region, start: usize, count: usize, timeout_ms: usize, rounds: &Vec<
    Pattern,
>) -> (r: Result<MemtestOutcome, MemtestError>)
    requires
        old(region).wf(),
        start + count <= old(region).words@.len(),
    ensures
        shape_kept(*old(region), *final(region)),
        lane_verdict(r),
        r == Ok::<MemtestOutcome, MemtestError>(MemtestOutcome::Pass) && rounds@.len() > 0
            ==> forall|j: int|
            start <= j < start + count ==> final(region).words@[j] == pattern_word(
                rounds@[rounds@.len() - 1],
                old(region).base,
                j,
            ),
{
    let clock = clock_now();
    let mut k: usize = 0;
    while k < rounds.len()
        invariant
            0 <= k <= rounds@.len(),
            region.wf(),
            region.base == old(region).base,
            region.words@.len() == old(region).words@.len(),
            start + count <= region.words@.len(),
            k > 0 ==> forall|j: int|
                start <= j < start + count ==> region.words@[j] == pattern_word(
                    rounds@[k - 1],
                    old(region).base,
                    j,
                ),
        decreases rounds@.len() - k,
    {
        let p = rounds[k];
        if elapsed_millis(&clock) >= timeout_ms as u64 {
            return Err(MemtestError::Timeout);
        }
        run_write_phase(region, start, count, &p);
        if elapsed_millis(&clock) >= timeout_ms as u64 {
            return Err(MemtestError::Timeout);
        }
        let out = verify_pattern(region, start, count, &p);
        proof {
            lemma_no_fault(region.words@, p, region.base, start as int, start + count);
        }
        match out {
            MemtestOutcome::Pass => {},
            MemtestOutcome::Fail(addr) => {
                return Ok(MemtestOutcome::Fail(addr));
            },
        }
        k = k + 1;
    }
    Ok(MemtestOutcome::Pass)
}

/// Stuck or shorted address lines: each word holds its own address.
pub fn test_own_address(region: &mut Region, start: usize, count: usize, timeout_ms: usize) -> (r:
    Result<MemtestOutcome, MemtestError>)
    requires
        old(region).wf(),
        start + count <= old(region).words@.len(),
    ensures
        shape_kept(*old(region), *final(region)),
        lane_verdict(r),
        r == Ok::<MemtestOutcome, MemtestError>(MemtestOutcome::Pass) ==> forall|j: int|
            start <= j < start + count ==> final(region).words@[j] == pattern_word(
            (Pattern::OwnAddress),
            old(region).base,
            j,
        ),
{
    let rounds = vec![Pattern::OwnAddress];
    run_kernel(region, start, count, timeout_ms, &rounds)
}

/// Generic data retention: a seeded pseudo-random stream.
pub fn test_random_val(
    region: &mut Region,
    start: usize,
    count: usize,
    timeout_ms: usize,
    seed: u64,
) -> (r: Result<MemtestOutcome, MemtestError>)
    requires
        old(region).wf(),
        start + count <= old(region).words@.len(),
    ensures
        shape_kept(*old(region), *final(region)),
        lane_verdict(r),
        r == Ok::<MemtestOutcome, MemtestError>(MemtestOutcome::Pass) ==> forall|j: int|
            start <= j < start + count ==> final(region).words@[j] == pattern_word(
            (Pattern::Stream { seed }),
            old(region).base,
            j,
        ),
{
    let rounds = vec![Pattern::Stream { seed }];
    run_kernel(region, start, count, timeout_ms, &rounds)
}

/// One operator-transform kernel: a random baseline combined in place with a
/// random operand, verified against the arithmetic result.
fn test_op(
    region: &mut Region,
    start: usize,
    count: usize,
    timeout_ms: usize,
    seed: u64,
    op: Op,
) -> (r: Result<MemtestOutcome, MemtestError>)
    requires
        old(region).wf(),
        start + count <= old(region).words@.len(),
    ensures
        shape_kept(*old(region), *final(region)),
        lane_verdict(r),
        r == Ok::<MemtestOutcome, MemtestError>(MemtestOutcome::Pass) ==> forall|j: int|
            start <= j < start + count ==> final(region).words@[j] == pattern_word(
            (Pattern::StreamOp { seed, op, operand: stream_word_spec(seed, u64::MAX) }),
            old(region).base,
            j,
        ),
{
    let operand = stream_word(seed, u64::MAX);
    let rounds = vec![Pattern::StreamOp { seed, op, operand }];
    run_kernel(region, start, count, timeout_ms, &rounds)
}

/// Coupling between storage and the xor operation.
pub fn test_xor(region: &mut Region, start: usize, count: usize, timeout_ms: usize, seed: u64) -> (
    r: Result<MemtestOutcome, MemtestError>)
    requires
        old(region).wf(),
        start + count <= old(region).words@.len(),
    ensures
        shape_kept(*old(region), *final(region)),
        lane_verdict(r),
        r == Ok::<MemtestOutcome, MemtestError>(MemtestOutcome::Pass) ==> forall|j: int|
            start <= j < start + count ==> final(region).words@[j] == pattern_word(
            (Pattern::StreamOp { seed, op: Op::Xor, operand: stream_word_spec(seed, u64::MAX) }),
            old(region).base,
            j,
        ),
{
    test_op(region, start, count, timeout_ms, seed, Op::Xor)
}

/// Coupling between storage and wrapping subtraction.
pub fn test_sub(region: &mut Region, start: usize, count: usize, timeout_ms: usize, seed: u64) -> (
    r: Result<MemtestOutcome, MemtestError>)
    requires
        old(region).wf(),
        start + count <= old(region).words@.len(),
    ensures
        shape_kept(*old(region), *final(region)),
        lane_verdict(r),
        r == Ok::<MemtestOutcome, MemtestError>(MemtestOutcome::Pass) ==> forall|j: int|
            start <= j < start + count ==> final(region).words@[j] == pattern_word(
            (Pattern::StreamOp { seed, op: Op::Sub, operand: stream_word_spec(seed, u64::MAX) }),
            old(region).base,
            j,
        ),
{
    test_op(region, start, count, timeout_ms, seed, Op::Sub)
}

/// Coupling between storage and wrapping multiplication.
pub fn test_mul(region: &mut Region, start: usize, count: usize, timeout_ms: usize, seed: u64) -> (
    r: Result<MemtestOutcome, MemtestError>)
    requires
        old(region).wf(),
        start + count <= old(region).words@.len(),
    ensures
        shape_kept(*old(region), *final(region)),
        lane_verdict(r),
        r == Ok::<MemtestOutcome, MemtestError>(MemtestOutcome::Pass) ==> forall|j: int|
            start <= j < start + count ==> final(region).words@[j] == pattern_word(
            (Pattern::StreamOp { seed, op: Op::Mul, operand: stream_word_spec(seed, u64::MAX) }),
            old(region).base,
            j,
        ),
{
    test_op(region, start, count, timeout_ms, seed, Op::Mul)
}

/// Coupling between storage and integer division.
pub fn test_div(region: &mut Region, start: usize, count: usize, timeout_ms: usize, seed: u64) -> (
    r: Result<MemtestOutcome, MemtestError>)
    requires
        old(region).wf(),
        start + count <= old(region).words@.len(),
    ensures
        shape_kept(*old(region), *final(region)),
        lane_verdict(r),
        r == Ok::<MemtestOutcome, MemtestError>(MemtestOutcome::Pass) ==> forall|j: int|
            start <= j < start + count ==> final(region).words@[j] == pattern_word(
            (Pattern::StreamOp { seed, op: Op::Div, operand: stream_word_spec(seed, u64::MAX) }),
            old(region).base,
            j,
        ),
{
    test_op(region, start, count, timeout_ms, seed, Op::Div)
}

/// Coupling between storage and the or operation.
pub fn test_or(region: &mut Region, start: usize, count: usize, timeout_ms: usize, seed: u64) -> (
    r: Result<MemtestOutcome, MemtestError>)
    requires
        old(region).wf(),
        start + count <= old(region).words@.len(),
    ensures
        shape_kept(*old(region), *final(region)),
        lane_verdict(r),
        r == Ok::<MemtestOutcome, MemtestError>(MemtestOutcome::Pass) ==> forall|j: int|
            start <= j < start + count ==> final(region).words@[j] == pattern_word(
            (Pattern::StreamOp { seed, op: Op::Or, operand: stream_word_spec(seed, u64::MAX) }),
            old(region).base,
            j,
        ),
{
    test_op(region, start, count, timeout_ms, seed, Op::Or)
}

/// Coupling between storage and the and operation.
pub fn test_and(region: &mut Region, start: usize, count: usize, timeout_ms: usize, seed: u64) -> (
    r: Result<MemtestOutcome, MemtestError>)
    requires
        old(region).wf(),
        start + count <= old(region).words@.len(),
    ensures
        shape_kept(*old(region), *final(region)),
        lane_verdict(r),
        r == Ok::<MemtestOutcome, MemtestError>(MemtestOutcome::Pass) ==> forall|j: int|
            start <= j < start + count ==> final(region).words@[j] == pattern_word(
            (Pattern::StreamOp { seed, op: Op::And, operand: stream_word_spec(seed, u64::MAX) }),
            old(region).base,
            j,
        ),
{
    test_op(region, start, count, timeout_ms, seed, Op::And)
}

/// Counter and sequencing faults: a random start value, then +1 per word.
pub fn test_seq_inc(
    region: &mut Region,
    start: usize,
    count: usize,
    timeout_ms: usize,
    seed: u64,
) -> (r: Result<MemtestOutcome, MemtestError>)
    requires
        old(region).wf(),
        start + count <= old(region).words@.len(),
    ensures
        shape_kept(*old(region), *final(region)),
        lane_verdict(r),
        r == Ok::<MemtestOutcome, MemtestError>(MemtestOutcome::Pass) ==> forall|j: int|
            start <= j < start + count ==> final(region).words@[j] == pattern_word(
            (Pattern::SeqInc { start: stream_word_spec(seed, 0) }),
            old(region).base,
            j,
        ),
{
    let first = stream_word(seed, 0);
    let rounds = vec![Pattern::SeqInc { start: first }];
    run_kernel(region, start, count, timeout_ms, &rounds)
}

/// Bits stuck at a fixed value: alternating all-zero and all-one words,
/// repeated with the complement.
pub fn test_solid_bits(region: &mut Region, start: usize, count: usize, timeout_ms: usize) -> (r:
    Result<MemtestOutcome, MemtestError>)
    requires
        old(region).wf(),
        start + count <= old(region).words@.len(),
    ensures
        shape_kept(*old(region), *final(region)),
        lane_verdict(r),
        r == Ok::<MemtestOutcome, MemtestError>(MemtestOutcome::Pass) ==> forall|j: int|
            start <= j < start + count ==> final(region).words@[j] == pattern_word(
            (Pattern::Alt { even: 0u64, odd: 0xFFFF_FFFF_FFFF_FFFFu64 }),
            old(region).base,
            j,
        ),
{
    let ones: u64 = 0xFFFF_FFFF_FFFF_FFFF;
    let rounds = vec![
        Pattern::Alt { even: ones, odd: 0 },
        Pattern::Alt { even: 0, odd: ones },
    ];
    run_kernel(region, start, count, timeout_ms, &rounds)
}

/// Adjacent-cell coupling: two complementary bit patterns alternated word to
/// word, repeated with the complement.
pub fn test_checkerboard(region: &mut Region, start: usize, count: usize, timeout_ms: usize) -> (r:
    Result<MemtestOutcome, MemtestError>)
    requires
        old(region).wf(),
        start + count <= old(region).words@.len(),
    ensures
        shape_kept(*old(region), *final(region)),
        lane_verdict(r),
        r == Ok::<MemtestOutcome, MemtestError>(MemtestOutcome::Pass) ==> forall|j: int|
            start <= j < start + count ==> final(region).words@[j] == pattern_word(
            (Pattern::Alt { even: 0xAAAA_AAAA_AAAA_AAAAu64, odd: 0x5555_5555_5555_5555u64 }),
            old(region).base,
            j,
        ),
{
    let board: u64 = 0x5555_5555_5555_5555;
    let flipped: u64 = 0xAAAA_AAAA_AAAA_AAAA;
    let rounds = vec![
        Pattern::Alt { even: board, odd: flipped },
        Pattern::Alt { even: flipped, odd: board },
    ];
    run_kernel(region, start, count, timeout_ms, &rounds)
}

/// Large-granularity stuck patterns: each round fills the lane with one
/// byte value replicated across the word, over all byte values.
pub fn test_block_seq(region: &mut Region, start: usize, count: usize, timeout_ms: usize) -> (r:
    Result<MemtestOutcome, MemtestError>)
    requires
        old(region).wf(),
        start + count <= old(region).words@.len(),
    ensures
        shape_kept(*old(region), *final(region)),
        lane_verdict(r),
        r == Ok::<MemtestOutcome, MemtestError>(MemtestOutcome::Pass) ==> forall|j: int|
            start <= j < start + count ==> final(region).words@[j] == 0xFFFF_FFFF_FFFF_FFFFu64,
{
    let mut rounds: Vec<Pattern> = Vec::new();
    let mut v: u64 = 0;
    while v < 256
        invariant
            v <= 256,
            rounds@.len() == v,
            v > 0 ==> rounds@[v - 1] == (Pattern::Solid {
                value: ((v - 1) as u64).wrapping_mul(0x0101_0101_0101_0101),
            }),
        decreases 256 - v,
    {
        rounds.push(Pattern::Solid { value: v.wrapping_mul(0x0101_0101_0101_0101) });
        v = v + 1;
    }
    proof {
        assert(rounds@[255] == (Pattern::Solid { value: 0xFFFF_FFFF_FFFF_FFFFu64 }));
    }
    run_kernel(region, start, count, timeout_ms, &rounds)
}

} // verus!

//! Word patterns shared by the test kernels: what each kernel writes into
//! the region, and the verify scan that reports the lowest mismatching
//! address within a lane.
use vstd::prelude::*;
use crate::outcome::MemtestOutcome;
use crate::region_view::{Region, WORD_BYTES};
use crate::rng::{stream_word, stream_word_spec};

verus! {

/// The binary operator of the operator-transform kernels.
#[derive(Clone, Copy, Debug, PartialEq, Eq, Structural)]
pub enum Op {
    Xor,
    Sub,
    Mul,
    Div,
    Or,
    And,
}

/// One write/verify round's expected contents, as a function of the word
/// index.
#[derive(Clone, Copy, Debug)]
pub enum Pattern {
    /// Each word holds its own byte address.
    OwnAddress,
    /// Each word holds the seeded pseudo-random stream value at its index.
    Stream { seed: u64 },
    /// Each word holds the stream value combined with a fixed operand.
    StreamOp { seed: u64, op: Op, operand: u64 },
    /// Each word holds `start + index`, wrapping.
    SeqInc { start: u64 },
    /// Words alternate between two values by index parity.
    Alt { even: u64, odd: u64 },
    /// Every word holds the same value.
    Solid { value: u64 },
}

/// Applying `op` to a stored value `a` and operand `b`; wrapping where the
/// operator can overflow, and dividing by 1 in place of a zero operand.
pub open spec fn apply_op_spec(op: Op, a: u64, b: u64) -> u64 {
    match op {
        Op::Xor => a ^ b,
        Op::Sub => a.wrapping_sub(b),
        Op::Mul => a.wrapping_mul(b),
        Op::Div => if b == 0 {
            a
        } else {
            a / b
        },
        Op::Or => a | b,
        Op::And => a & b,
    }
}

pub fn apply_op(op: Op, a: u64, b: u64) -> (r: u64)
    ensures
        r == apply_op_spec(op, a, b),
{
    match op {
        Op::Xor => a ^ b,
        Op::Sub => a.wrapping_sub(b),
        Op::Mul => a.wrapping_mul(b),
        Op::Div => if b == 0 {
            a
        } else {
            a / b
        },
        Op::Or => a | b,
        Op::And => a & b,
    }
}

/// The word that `p` calls for at index `i` of a region based at `base`.
pub open spec fn pattern_word(p: Pattern, base: usize, i: int) -> u64 {
    match p {
        Pattern::OwnAddress => (base + WORD_BYTES * i) as u64,
        Pattern::Stream { seed } => stream_word_spec(seed, i as u64),
        Pattern::StreamOp { seed, op, operand } => apply_op_spec(
            op,
            stream_word_spec(seed, i as u64),
            operand,
        ),
        Pattern::SeqInc { start } => start.wrapping_add(i as u64),
        Pattern::Alt { even, odd } => if i % 2 == 0 {
            even
        } else {
            odd
        },
        Pattern::Solid { value } => value,
    }
}

/// Compute the expected word at index `i`.
pub fn pattern_word_at(p: &Pattern, base: usize, i: usize) -> (r: u64)
    requires
        base + WORD_BYTES * i <= usize::MAX,
    ensures
        r == pattern_word(*p, base, i as int),
{
    match *p {
        Pattern::OwnAddress => (base + WORD_BYTES * i) as u64,
        Pattern::Stream { seed } => stream_word(seed, i as u64),
        Pattern::StreamOp { seed, op, operand } => apply_op(
            op,
            stream_word(seed, i as u64),
            operand,
        ),
        Pattern::SeqInc { start } => start.wrapping_add(i as u64),
        Pattern::Alt { even, odd } => if i % 2 == 0 {
            even
        } else {
            odd
        },
        Pattern::Solid { value } => value,
    }
}

/// The contents of `words` after writing `p` over `[start, end)` and leaving
/// the rest alone.
pub open spec fn write_image(
    words: Seq<u64>,
    p: Pattern,
    base: usize,
    start: int,
    end: int,
) -> Seq<u64> {
    Seq::new(
        words.len(),
        |j: int|
            if start <= j < end {
                pattern_word(p, base, j)
            } else {
                words[j]
            },
    )
}

/// The lowest index in `[start, end)` whose word does not hold the pattern,
/// if any: the verify scan walks addresses in increasing order.
pub open spec fn first_mismatch(
    words: Seq<u64>,
    p: Pattern,
    base: usize,
    start: int,
    end: int,
) -> Option<int>
    decreases end - start,
{
    if start >= end {
        None
    } else if words[start] != pattern_word(p, base, start) {
        Some(start)
    } else {
        first_mismatch(words, p, base, start + 1, end)
    }
}

/// What the verify scan of one lane reports: Pass when every word holds the
/// pattern, else the byte address of the lowest mismatching word.
pub open spec fn verify_result(
    words: Seq<u64>,
    p: Pattern,
    base: usize,
    start: int,
    end: int,
) -> MemtestOutcome {
    match first_mismatch(words, p, base, start, end) {
        None => MemtestOutcome::Pass,
        Some(k) => MemtestOutcome::Fail((base + WORD_BYTES * k) as usize),
    }
}

/// Skipping a matching prefix does not change the first mismatch.
pub proof fn lemma_first_mismatch_from(
    words: Seq<u64>,
    p: Pattern,
    base: usize,
    start: int,
    mid: int,
    end: int,
)
    requires
        start <= mid <= end,
        forall|j: int| start <= j < mid ==> words[j] == pattern_word(p, base, j),
    ensures
        first_mismatch(words, p, base, start, end) == first_mismatch(words, p, base, mid, end),
    decreases mid - start,
{
    if start < mid {
        lemma_first_mismatch_from(words, p, base, start + 1, mid, end);
    }
}

/// A lane whose every word holds the pattern verifies as Pass.
pub proof fn lemma_no_fault(words: Seq<u64>, p: Pattern, base: usize, start: int, end: int)
    requires
        start <= end,
        forall|j: int| start <= j < end ==> words[j] == pattern_word(p, base, j),
    ensures
        verify_result(words, p, base, start, end) == MemtestOutcome::Pass,
{
    lemma_first_mismatch_from(words, p, base, start, end, end);
}

/// Writing a pattern over a lane and then verifying it passes, whatever the
/// region held before.
pub proof fn lemma_round_trip(words: Seq<u64>, p: Pattern, base: usize, start: int, end: int)
    requires
        0 <= start <= end <= words.len(),
    ensures
        verify_result(write_image(words, p, base, start, end), p, base, start, end)
            == MemtestOutcome::Pass,
{
    lemma_no_fault(write_image(words, p, base, start, end), p, base, start, end);
}

/// The random-value round is repeatable: over two regions of the same shape,
/// the same seed writes the same words into the lane and the verify scan
/// returns the same outcome, whatever either region held before.
pub proof fn lemma_random_val_repeatable(
    w1: Seq<u64>,
    w2: Seq<u64>,
    seed: u64,
    base: usize,
    start: int,
    end: int,
)
    requires
        0 <= start <= end <= w1.len(),
        w1.len() == w2.len(),
    ensures
        write_image(w1, Pattern::Stream { seed }, base, start, end).subrange(start, end)
            =~= write_image(w2, Pattern::Stream { seed }, base, start, end).subrange(start, end),
        verify_result(write_image(w1, Pattern::Stream { seed }, base, start, end), Pattern::Stream { seed }, base, start, end)
            == verify_result(write_image(w2, Pattern::Stream { seed }, base, start, end), Pattern::Stream { seed }, base, start, end),
{
    lemma_round_trip(w1, Pattern::Stream { seed }, base, start, end);
    lemma_round_trip(w2, Pattern::Stream { seed }, base, start, end);
}

/// A lane with a single corrupted word at index `k` verifies as Fail at
/// exactly the byte address of `k`.
pub proof fn lemma_single_fault(
    words: Seq<u64>,
    p: Pattern,
    base: usize,
    start: int,
    end: int,
    k: int,
)
    requires
        start <= k < end,
        words[k] != pattern_word(p, base, k),
        forall|j: int| start <= j < end && j != k ==> words[j] == pattern_word(p, base, j),
    ensures
        verify_result(words, p, base, start, end) == MemtestOutcome::Fail(
            (base + WORD_BYTES * k) as usize,
        ),
{
    lemma_first_mismatch_from(words, p, base, start, k, end);
    assert(first_mismatch(words, p, base, k, end) == Some(k));
}

/// Write `p` over the words `[start, start + count)` of the region.
pub fn write_pattern(region: &mut Region, start: usize, count: usize, p: &Pattern)
    requires
        old(region).wf(),
        start + count <= old(region).words@.len(),
    ensures
        final(region).wf(),
        final(region).base == old(region).base,
        final(region).words@ == write_image(
            old(region).words@,
            *p,
            old(region).base,
            start as int,
            start + count,
        ),
{
    let base = region.base;
    let ghost orig = region.words@;
    let mut i: usize = start;
    while i < start + count
        invariant
            start <= i <= start + count,
            start + count <= region.words@.len(),
            region.wf(),
            region.base == base,
            region.words@.len() == orig.len(),
            forall|j: int| start <= j < i ==> region.words@[j] == pattern_word(*p, base, j),
            forall|j: int| (0 <= j < start || i <= j < orig.len()) ==> region.words@[j] == orig[j],
        decreases start + count - i,
    {
        proof {
            assert(WORD_BYTES * (i as int) <= WORD_BYTES * (region.words@.len() - 1)) by (
            nonlinear_arith)
                requires
                    i < region.words@.len(),
            ;
        }
        let v = pattern_word_at(p, base, i);
        region.write(i, v);
        i = i + 1;
    }
    proof {
        assert(region.words@ =~= write_image(orig, *p, base, start as int, start + count));
    }
}

/// Read each word of the lane, apply `op` with `operand`, and write it back.
pub fn transform_op(region: &mut Region, start: usize, count: usize, op: Op, operand: u64)
    requires
        old(region).wf(),
        start + count <= old(region).words@.len(),
    ensures
        final(region).wf(),
        final(region).base == old(region).base,
        final(region).words@.len() == old(region).words@.len(),
        forall|j: int|
            start <= j < start + count ==> final(region).words@[j] == apply_op_spec(
                op,
                old(region).words@[j],
                operand,
            ),
        forall|j: int|
            (0 <= j < start || start + count <= j < old(region).words@.len()) ==> final(
                region
            ).words@[j] == old(region).words@[j],
{
    let ghost orig = region.words@;
    let mut i: usize = start;
    while i < start + count
        invariant
            start <= i <= start + count,
            start + count <= region.words@.len(),
            region.wf(),
            region.base == old(region).base,
            region.words@.len() == orig.len(),
            forall|j: int|
                start <= j < i ==> region.words@[j] == apply_op_spec(op, orig[j], operand),
            forall|j: int| (0 <= j < start || i <= j < orig.len()) ==> region.words@[j] == orig[j],
        decreases start + count - i,
    {
        let v = region.read(i);
        let w = apply_op(op, v, operand);
        region.write(i, w);
        i = i + 1;
    }
}

/// Scan the lane `[start, start + count)` in increasing address order and
/// report Pass, or Fail at the lowest mismatching word's byte address.
pub fn verify_pattern(region: &Region, start: usize, count: usize, p: &Pattern) -> (r:
    MemtestOutcome)
    requires
        region.wf(),
        start + count <= region.words@.len(),
    ensures
        r == verify_result(region.words@, *p, region.base, start as int, start + count),
{
    let base = region.base;
    let mut i: usize = start;
    while i < start + count
        invariant
            start <= i <= start + count,
            start + count <= region.words@.len(),
            region.wf(),
            base == region.base,
            forall|j: int| start <= j < i ==> region.words@[j] == pattern_word(*p, base, j),
        decreases start + count - i,
    {
        proof {
            assert(WORD_BYTES * (i as int) <= WORD_BYTES * (region.words@.len() - 1)) by (
            nonlinear_arith)
                requires
                    i < region.words@.len(),
            ;
        }
        let expected = pattern_word_at(p, base, i);
        let actual = region.read(i);
        if actual != expected {
            let addr = region.address_of(i);
            proof {
                lemma_first_mismatch_from(region.words@, *p, base, start as int, i as int, start
                    + count);
            }
            return MemtestOutcome::Fail(addr);
        }
        i = i + 1;
    }
    proof {
        lemma_no_fault(region.words@, *p, base, start as int, start + count);
    }
    MemtestOutcome::Pass
}

} // verus!

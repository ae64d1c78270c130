//! The orchestrator: one single-use run over a region. It raises the
//! working-set ceiling if asked, acquires the residency lock with
//! degrade-and-retry, partitions each kind's work across lanes, enforces the
//! shrinking time budget, aggregates lane outcomes, releases everything, and
//! assembles the report list.
use vstd::prelude::*;
use rand::seq::SliceRandom;
use crate::clock::{clock_now, elapsed_millis};
use crate::kernels::{
    shape_kept, test_and, test_block_seq, test_checkerboard, test_div, test_mul, test_or,
    test_own_address, test_random_val, test_seq_inc, test_solid_bits, test_sub, test_xor,
};
use crate::locking::{memory_resize_and_lock, release_lock, PAGE_SIZE};
use crate::outcome::{
    aggregate_outcomes, all_pass, lane_verdict, lemma_aggregate_verdict, MemtestError,
    MemtestOutcome, MemtestReport, MemtestType,
};
use crate::region_view::{Region, WORD_BYTES};
use crate::working_set::{replace_set_size, restore_set_size};

verus! {

/// A fatal run error: the platform refused a working-set adjustment, before
/// or after the kinds were run.
#[derive(Clone, Copy, Debug, PartialEq, Eq, Structural)]
pub enum MemtesterError {
    WindowsWorkingSetFailure,
}

/// What a completed run hands back: how many bytes were actually tested,
/// whether the residency lock was held, and one report per configured kind,
/// in execution order.
#[derive(Debug)]
pub struct MemtestReportList {
    pub tested_memsize: usize,
    pub mlocked: bool,
    pub reports: Vec<MemtestReport>,
}

impl MemtestReportList {
    pub open spec fn outcomes(self) -> Seq<Result<MemtestOutcome, MemtestError>> {
        self.reports@.map(|i: int, r: MemtestReport| r.outcome)
    }

    /// Whether every kind's report is Pass.
    pub fn all_pass(&self) -> (r: bool)
        ensures
            r == all_pass(self.outcomes()),
    {
        let mut i: usize = 0;
        while i < self.reports.len()
            invariant
                0 <= i <= self.reports@.len(),
                forall|j: int|
                    0 <= j < i ==> self.reports@[j].outcome == Ok::<MemtestOutcome, MemtestError>(
                        MemtestOutcome::Pass,
                    ),
            decreases self.reports@.len() - i,
        {
            match self.reports[i].outcome {
                Ok(MemtestOutcome::Pass) => {},
                _ => {
                    proof {
                        assert(self.outcomes()[i as int] != Ok::<MemtestOutcome, MemtestError>(
                            MemtestOutcome::Pass,
                        ));
                    }
                    return false;
                },
            }
            i = i + 1;
        }
        proof {
            assert forall|j: int| 0 <= j < self.outcomes().len() implies self.outcomes()[j] == Ok::<
                MemtestOutcome,
                MemtestError,
            >(MemtestOutcome::Pass) by {
                assert(self.outcomes()[j] == self.reports@[j].outcome);
            }
        }
        true
    }
}

/// The ordered battery of all twelve kinds.
pub open spec fn all_test_types() -> Seq<MemtestType> {
    seq![
        MemtestType::TestOwnAddress,
        MemtestType::TestRandomVal,
        MemtestType::TestXor,
        MemtestType::TestSub,
        MemtestType::TestMul,
        MemtestType::TestDiv,
        MemtestType::TestOr,
        MemtestType::TestAnd,
        MemtestType::TestSeqInc,
        MemtestType::TestSolidBits,
        MemtestType::TestCheckerboard,
        MemtestType::TestBlockSeq,
    ]
}

/// Relies on rand's SliceRandom::shuffle (Fisher-Yates over the slice): the
/// vector is permuted in place, so it holds the same elements afterward.
#[verifier::external_body]
fn shuffle_types(v: &mut Vec<MemtestType>)
    ensures
        final(v)@.to_multiset() == old(v)@.to_multiset(),
        final(v)@.len() == old(v)@.len(),
{
    v.shuffle(&mut rand::thread_rng());
}

/// Relies on num_cpus::get: the number of logical processors available to
/// the process, documented to always be at least one.
#[verifier::external_body]
fn lane_count() -> (r: usize)
    ensures
        1 <= r,
{
    num_cpus::get()
}

/// The contiguous, disjoint, equal lane sub-ranges for one kind: lane `i`
/// owns words `[i * q, (i + 1) * q)` where `q = word_count / lanes`. The
/// `word_count % lanes` remainder words belong to no lane.
pub fn partition_lanes(word_count: usize, lanes: usize) -> (r: Vec<(usize, usize)>)
    requires
        1 <= lanes,
    ensures
        r@.len() == lanes,
        forall|i: int|
            0 <= i < lanes ==> (#[trigger] r@[i]).0 == i * (word_count as int / lanes as int)
                && r@[i].1 == word_count as int / lanes as int,
        forall|i: int| 0 <= i < lanes ==> (#[trigger] r@[i]).0 + r@[i].1 <= word_count,
{
    let q = word_count / lanes;
    let mut r: Vec<(usize, usize)> = Vec::new();
    let mut i: usize = 0;
    while i < lanes
        invariant
            0 <= i <= lanes,
            r@.len() == i,
            q == word_count as int / lanes as int,
            forall|j: int|
                0 <= j < i ==> (#[trigger] r@[j]).0 == j * (q as int) && r@[j].1 == q as int,
            forall|j: int| 0 <= j < i ==> (#[trigger] r@[j]).0 + r@[j].1 <= word_count,
        decreases lanes - i,
    {
        proof {
            assert((i as int) * (q as int) + q <= (lanes as int) * (q as int)) by (nonlinear_arith)
                requires
                    0 <= i < lanes,
                    q >= 0,
            ;
            assert((lanes as int) * (q as int) <= word_count) by (nonlinear_arith)
                requires
                    lanes >= 1,
                    q == word_count as int / lanes as int,
                    word_count >= 0,
            ;
        }
        r.push((i * q, q));
        i = i + 1;
    }
    r
}

/// The lanes cover `lanes * floor(word_count / lanes)` words in all: the
/// remainder words are excluded from every lane's range.
pub proof fn lemma_partition_excludes_remainder(word_count: nat, lanes: nat)
    requires
        lanes >= 1,
    ensures
        lanes * (word_count / lanes) == word_count - (word_count % lanes),
        word_count % lanes < lanes,
        lanes * (word_count / lanes) <= word_count,
{
    assert(lanes * (word_count / lanes) == word_count - (word_count % lanes) && word_count % lanes
        < lanes) by (nonlinear_arith)
        requires
            lanes >= 1,
            word_count >= 0,
    ;
}

/// A single-use memory tester: the region under test, the configured sizes,
/// flags and time budget, the kinds to run in order, and the seed of the
/// pseudo-random source.
#[derive(Debug)]
pub struct Memtester {
    pub region: Region,
    pub memsize: usize,
    pub timeout_ms: usize,
    pub allow_working_set_resize: bool,
    pub allow_mem_resize: bool,
    pub allow_multithread: bool,
    pub test_types: Vec<MemtestType>,
    pub seed: u64,
}

impl Memtester {
    /// The configured byte count never exceeds what the region can hold.
    pub open spec fn wf(self) -> bool {
        &&& self.region.wf()
        &&& self.memsize <= self.region.words@.len() * WORD_BYTES
    }

    /// Create a Memtester containing all test types in random order.
    pub fn new(
        region: Region,
        memsize: usize,
        timeout_ms: usize,
        allow_mem_resize: bool,
        allow_working_set_resize: bool,
        allow_multithread: bool,
        seed: u64,
    ) -> (r: Memtester)
        requires
            region.wf(),
            memsize <= region.words@.len() * WORD_BYTES,
        ensures
            r.wf(),
            r.region == region,
            r.memsize == memsize,
            r.timeout_ms == timeout_ms,
            r.allow_mem_resize == allow_mem_resize,
            r.allow_working_set_resize == allow_working_set_resize,
            r.allow_multithread == allow_multithread,
            r.seed == seed,
            r.test_types@.len() == all_test_types().len(),
            r.test_types@.to_multiset() == all_test_types().to_multiset(),
    {
        let mut test_types = vec![
            MemtestType::TestOwnAddress,
            MemtestType::TestRandomVal,
            MemtestType::TestXor,
            MemtestType::TestSub,
            MemtestType::TestMul,
            MemtestType::TestDiv,
            MemtestType::TestOr,
            MemtestType::TestAnd,
            MemtestType::TestSeqInc,
            MemtestType::TestSolidBits,
            MemtestType::TestCheckerboard,
            MemtestType::TestBlockSeq,
        ];
        proof {
            assert(test_types@ =~= all_test_types());
        }
        shuffle_types(&mut test_types);
        Memtester {
            region,
            memsize,
            timeout_ms,
            allow_working_set_resize,
            allow_mem_resize,
            allow_multithread,
            test_types,
            seed,
        }
    }

    /// Create a Memtester with specified test types.
    pub fn from_test_types(
        region: Region,
        memsize: usize,
        timeout_ms: usize,
        test_types: Vec<MemtestType>,
        allow_mem_resize: bool,
        allow_working_set_resize: bool,
        allow_multithread: bool,
        seed: u64,
    ) -> (r: Memtester)
        requires
            region.wf(),
            memsize <= region.words@.len() * WORD_BYTES,
        ensures
            r.wf(),
            r.region == region,
            r.memsize == memsize,
            r.timeout_ms == timeout_ms,
            r.test_types == test_types,
            r.allow_mem_resize == allow_mem_resize,
            r.allow_working_set_resize == allow_working_set_resize,
            r.allow_multithread == allow_multithread,
            r.seed == seed,
    {
        Memtester {
            region,
            memsize,
            timeout_ms,
            allow_working_set_resize,
            allow_mem_resize,
            test_types,
            allow_multithread,
            seed,
        }
    }

    /// Consume the Memtester and run the tests: raise the working-set
    /// ceiling if asked (a failure aborts), lock with degrade-and-retry (a
    /// failure only clears the pinning flag), run every configured kind
    /// under the shrinking budget, release the lock, restore the ceiling if
    /// asked (a failure aborts even now), and report.
    pub fn run(self) -> (r: Result<MemtestReportList, MemtesterError>)
        requires
            self.wf(),
        ensures
            r matches Ok(rl) ==> {
                &&& rl.reports@.len() == self.test_types@.len()
                &&& forall|i: int|
                    0 <= i < rl.reports@.len() ==> (#[trigger] rl.reports@[i]).test_type
                        == self.test_types@[i]
                &&& forall|i: int|
                    0 <= i < rl.reports@.len() ==> lane_verdict((#[trigger] rl.reports@[i]).outcome)
                &&& self.timeout_ms == 0 ==> forall|i: int|
                    0 <= i < rl.reports@.len() ==> (#[trigger] rl.reports@[i]).outcome == Err::<
                        MemtestOutcome,
                        MemtestError,
                    >(MemtestError::Timeout)
                &&& rl.tested_memsize <= self.memsize
                &&& (rl.tested_memsize as int) % (WORD_BYTES as int) == 0
                &&& exists|locked: int|
                    0 <= locked <= self.memsize && (#[trigger] ((self.memsize - locked) % (
                    PAGE_SIZE as int)) == 0) && rl.tested_memsize == (locked / (
                    WORD_BYTES as int)) * (WORD_BYTES as int)
                &&& !self.allow_mem_resize ==> rl.tested_memsize == (self.memsize as int
                    / WORD_BYTES as int) * (WORD_BYTES as int)
            },
            r is Ok,
    {
        let Memtester {
            mut region,
            memsize,
            timeout_ms,
            allow_working_set_resize,
            allow_mem_resize,
            allow_multithread,
            test_types,
            seed,
        } = self;
        let start_time = clock_now();
        let working_set_sizes = if allow_working_set_resize {
            match replace_set_size(memsize) {
                Ok(sizes) => Some(sizes),
                Err(err) => {
                    return Err(err);
                },
            }
        } else {
            None
        };

        let (lockguard, locked_size) = memory_resize_and_lock(&region, memsize, allow_mem_resize);
        let mlocked = lockguard.is_some();

        let memcount = locked_size / WORD_BYTES;
        let tested_memsize = memcount * WORD_BYTES;
        proof {
            assert((locked_size as int / WORD_BYTES as int) * WORD_BYTES <= locked_size
                && (locked_size as int / WORD_BYTES as int) * (WORD_BYTES as int) % (
            WORD_BYTES as int) == 0) by (nonlinear_arith)
                requires
                    locked_size >= 0,
            ;
            assert(memcount <= region.words@.len()) by (nonlinear_arith)
                requires
                    memcount == locked_size as int / WORD_BYTES as int,
                    locked_size <= region.words@.len() * WORD_BYTES,
                    locked_size >= 0,
                    region.words@.len() >= 0,
            ;
        }

        let ghost kinds = test_types@;
        let mut reports: Vec<MemtestReport> = Vec::new();
        let mut t: usize = 0;
        while t < test_types.len()
            invariant
                0 <= t <= kinds.len(),
                test_types@ == kinds,
                reports@.len() == t,
                region.wf(),
                memcount <= region.words@.len(),
                forall|i: int|
                    0 <= i < t ==> (#[trigger] reports@[i]).test_type == kinds[i] && lane_verdict(
                        reports@[i].outcome,
                    ),
                timeout_ms == 0 ==> forall|i: int|
                    0 <= i < t ==> (#[trigger] reports@[i]).outcome == Err::<
                        MemtestOutcome,
                        MemtestError,
                    >(MemtestError::Timeout),
            decreases kinds.len() - t,
        {
            let test_type = test_types[t];
            let elapsed = elapsed_millis(&start_time);
            let time_left: usize = if elapsed >= timeout_ms as u64 {
                0
            } else {
                timeout_ms - (elapsed as usize)
            };
            let outcome: Result<MemtestOutcome, MemtestError> = if time_left == 0 {
                Err(MemtestError::Timeout)
            } else if allow_multithread {
                let lanes = lane_count();
                let lane_ranges = partition_lanes(memcount, lanes);
                let mut lane_outcomes: Vec<Result<MemtestOutcome, MemtestError>> = Vec::new();
                let mut li: usize = 0;
                while li < lane_ranges.len()
                    invariant
                        0 <= li <= lane_ranges@.len(),
                        lane_outcomes@.len() == li,
                        region.wf(),
                        memcount <= region.words@.len(),
                        forall|i: int|
                            0 <= i < lane_ranges@.len() ==> (#[trigger] lane_ranges@[i]).0
                                + lane_ranges@[i].1 <= memcount,
                        forall|i: int|
                            0 <= i < li ==> lane_verdict(#[trigger] lane_outcomes@[i]),
                    decreases lane_ranges@.len() - li,
                {
                    let (lane_start, lane_words) = lane_ranges[li];
                    let lane_outcome = dispatch_kernel(
                        &mut region,
                        test_type,
                        lane_start,
                        lane_words,
                        time_left,
                        seed,
                    );
                    lane_outcomes.push(lane_outcome);
                    li = li + 1;
                }
                let agg = aggregate_outcomes(&lane_outcomes);
                proof {
                    lemma_aggregate_verdict(lane_outcomes@, agg);
                }
                agg
            } else {
                dispatch_kernel(&mut region, test_type, 0, memcount, time_left, seed)
            };
            reports.push(MemtestReport::new(test_type, outcome));
            t = t + 1;
        }

        match lockguard {
            Some(guard) => release_lock(guard),
            None => {},
        }
        if let Some((min_set_size, max_set_size)) = working_set_sizes {
            match restore_set_size(min_set_size, max_set_size) {
                Ok(()) => {},
                Err(err) => {
                    return Err(err);
                },
            }
        }
        proof {
            assert(0 <= locked_size <= memsize && ((memsize - locked_size) % (PAGE_SIZE as int)
                == 0) && tested_memsize == ((locked_size as int) / (WORD_BYTES as int)) * (
            WORD_BYTES as int));
        }
        Ok(MemtestReportList { tested_memsize, mlocked, reports })
    }
}

/// Run the kind's kernel over one lane of the region.
fn dispatch_kernel(
    region: &mut Region,
    test_type: MemtestType,
    start: usize,
    count: usize,
    timeout_ms: usize,
    seed: u64,
) -> (r: Result<MemtestOutcome, MemtestError>)
    requires
        old(region).wf(),
        start + count <= old(region).words@.len(),
    ensures
        shape_kept(*old(region), *final(region)),
        lane_verdict(r),
{
    match test_type {
        MemtestType::TestOwnAddress => test_own_address(region, start, count, timeout_ms),
        MemtestType::TestRandomVal => test_random_val(region, start, count, timeout_ms, seed),
        MemtestType::TestXor => test_xor(region, start, count, timeout_ms, seed),
        MemtestType::TestSub => test_sub(region, start, count, timeout_ms, seed),
        MemtestType::TestMul => test_mul(region, start, count, timeout_ms, seed),
        MemtestType::TestDiv => test_div(region, start, count, timeout_ms, seed),
        MemtestType::TestOr => test_or(region, start, count, timeout_ms, seed),
        MemtestType::TestAnd => test_and(region, start, count, timeout_ms, seed),
        MemtestType::TestSeqInc => test_seq_inc(region, start, count, timeout_ms, seed),
        MemtestType::TestSolidBits => test_solid_bits(region, start, count, timeout_ms),
        MemtestType::TestCheckerboard => test_checkerboard(region, start, count, timeout_ms),
        MemtestType::TestBlockSeq => test_block_seq(region, start, count, timeout_ms),
    }
}

} // verus!

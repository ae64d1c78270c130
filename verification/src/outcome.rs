//! Test kinds, outcomes, reports, and the outcome aggregator that merges
//! per-lane results for one kind into a single outcome by fixed precedence.
use vstd::prelude::*;

verus! {

/// The fixed set of fault-detection algorithms.
#[derive(Clone, Copy, Debug, PartialEq, Eq, Structural)]
pub enum MemtestType {
    TestOwnAddress,
    TestRandomVal,
    TestXor,
    TestSub,
    TestMul,
    TestDiv,
    TestOr,
    TestAnd,
    TestSeqInc,
    TestSolidBits,
    TestCheckerboard,
    TestBlockSeq,
}

/// What a kernel found: every word held what was written, or the lowest
/// mismatching address.
#[derive(Clone, Copy, Debug, PartialEq, Eq, Structural)]
pub enum MemtestOutcome {
    Pass,
    Fail(usize),
}

/// A kind's error: the time budget was exhausted, or a lane stopped for a
/// cause other than a data mismatch.
#[derive(Clone, Copy, Debug, PartialEq, Eq, Structural)]
pub enum MemtestError {
    Timeout,
    Unknown,
}

/// One kind's result within a run.
#[derive(Clone, Copy, Debug)]
pub struct MemtestReport {
    pub test_type: MemtestType,
    pub outcome: Result<MemtestOutcome, MemtestError>,
}

impl MemtestReport {
    pub fn new(test_type: MemtestType, outcome: Result<MemtestOutcome, MemtestError>) -> (r:
        MemtestReport)
        ensures
            r.test_type == test_type,
            r.outcome == outcome,
    {
        MemtestReport { test_type, outcome }
    }
}

pub open spec fn has_unknown(s: Seq<Result<MemtestOutcome, MemtestError>>) -> bool {
    exists|i: int| 0 <= i < s.len() && s[i] == Err::<MemtestOutcome, MemtestError>(
        MemtestError::Unknown,
    )
}

pub open spec fn has_timeout(s: Seq<Result<MemtestOutcome, MemtestError>>) -> bool {
    exists|i: int| 0 <= i < s.len() && s[i] == Err::<MemtestOutcome, MemtestError>(
        MemtestError::Timeout,
    )
}

pub open spec fn has_fail(s: Seq<Result<MemtestOutcome, MemtestError>>) -> bool {
    exists|i: int| 0 <= i < s.len() && (#[trigger] s[i]) matches Ok(MemtestOutcome::Fail(_))
}

pub open spec fn all_pass(s: Seq<Result<MemtestOutcome, MemtestError>>) -> bool {
    forall|i: int| 0 <= i < s.len() ==> s[i] == Ok::<MemtestOutcome, MemtestError>(
        MemtestOutcome::Pass,
    )
}

/// A kernel's verdict on one lane: the budget ran out, or every written word
/// read back intact (a mismatch would be reported as `Ok(Fail)`, but a lane
/// this library itself wrote and read cannot produce one).
pub open spec fn lane_verdict(r: Result<MemtestOutcome, MemtestError>) -> bool {
    r == Err::<MemtestOutcome, MemtestError>(MemtestError::Timeout) || r == Ok::<
        MemtestOutcome,
        MemtestError,
    >(MemtestOutcome::Pass)
}

/// The precedence order on merged lane outcomes: one Unknown dominates
/// everything, then Timeout, then any Fail (one of the failing addresses is
/// reported), and Pass only when every lane passed.
pub open spec fn is_aggregate(
    s: Seq<Result<MemtestOutcome, MemtestError>>,
    r: Result<MemtestOutcome, MemtestError>,
) -> bool {
    if has_unknown(s) {
        r == Err::<MemtestOutcome, MemtestError>(MemtestError::Unknown)
    } else if has_timeout(s) {
        r == Err::<MemtestOutcome, MemtestError>(MemtestError::Timeout)
    } else if has_fail(s) {
        exists|i: int| 0 <= i < s.len() && s[i] == r && (r matches Ok(MemtestOutcome::Fail(_)))
    } else {
        r == Ok::<MemtestOutcome, MemtestError>(MemtestOutcome::Pass)
    }
}

/// Merging lanes that each either timed out or passed yields Timeout or
/// Pass in turn: the precedence introduces no new verdicts.
pub proof fn lemma_aggregate_verdict(
    s: Seq<Result<MemtestOutcome, MemtestError>>,
    r: Result<MemtestOutcome, MemtestError>,
)
    requires
        forall|i: int| 0 <= i < s.len() ==> lane_verdict(#[trigger] s[i]),
        is_aggregate(s, r),
    ensures
        lane_verdict(r),
{
    if has_unknown(s) {
        let i = choose|i: int|
            0 <= i < s.len() && s[i] == Err::<MemtestOutcome, MemtestError>(MemtestError::Unknown);
        assert(lane_verdict(s[i]));
    } else if has_fail(s) {
        let i = choose|i: int|
            0 <= i < s.len() && (#[trigger] s[i]) matches Ok(MemtestOutcome::Fail(_));
        assert(lane_verdict(s[i]));
    }
}

/// When no lane reported Unknown or Timeout, exactly one lane failed, and
/// every other lane passed, the merged outcome is that lane's failure.
pub proof fn lemma_aggregate_single_fail(
    s: Seq<Result<MemtestOutcome, MemtestError>>,
    r: Result<MemtestOutcome, MemtestError>,
    addr: usize,
    k: int,
)
    requires
        0 <= k < s.len(),
        s[k] == Ok::<MemtestOutcome, MemtestError>(MemtestOutcome::Fail(addr)),
        forall|i: int|
            0 <= i < s.len() && i != k ==> #[trigger] s[i] == Ok::<MemtestOutcome, MemtestError>(
                MemtestOutcome::Pass,
            ),
        is_aggregate(s, r),
    ensures
        r == Ok::<MemtestOutcome, MemtestError>(MemtestOutcome::Fail(addr)),
{
    assert(!has_unknown(s)) by {
        if has_unknown(s) {
            let i = choose|i: int|
                0 <= i < s.len() && s[i] == Err::<MemtestOutcome, MemtestError>(
                    MemtestError::Unknown,
                );
            assert(i != k ==> s[i] == Ok::<MemtestOutcome, MemtestError>(MemtestOutcome::Pass));
        }
    }
    assert(!has_timeout(s)) by {
        if has_timeout(s) {
            let i = choose|i: int|
                0 <= i < s.len() && s[i] == Err::<MemtestOutcome, MemtestError>(
                    MemtestError::Timeout,
                );
            assert(i != k ==> s[i] == Ok::<MemtestOutcome, MemtestError>(MemtestOutcome::Pass));
        }
    }
    assert(has_fail(s));
    let i = choose|i: int| 0 <= i < s.len() && s[i] == r && (r matches Ok(MemtestOutcome::Fail(_)));
    assert(i == k);
}

/// Merge a non-empty collection of per-lane outcomes for one kind into a
/// single outcome by the fixed precedence.
pub fn aggregate_outcomes(v: &Vec<Result<MemtestOutcome, MemtestError>>) -> (r: Result<
    MemtestOutcome,
    MemtestError,
>)
    requires
        v@.len() >= 1,
    ensures
        is_aggregate(v@, r),
        all_pass(v@) <==> r == Ok::<MemtestOutcome, MemtestError>(MemtestOutcome::Pass),
{
    let mut acc: Result<MemtestOutcome, MemtestError> = Ok(MemtestOutcome::Pass);
    let mut k: usize = 0;
    while k < v.len()
        invariant
            0 <= k <= v@.len(),
            is_aggregate(v@.subrange(0, k as int), acc),
        decreases v@.len() - k,
    {
        let cur = v[k];
        acc = match (acc, cur) {
            (Err(MemtestError::Unknown), _) | (_, Err(MemtestError::Unknown)) => Err(
                MemtestError::Unknown,
            ),
            (Err(MemtestError::Timeout), _) | (_, Err(MemtestError::Timeout)) => Err(
                MemtestError::Timeout,
            ),
            (Ok(MemtestOutcome::Fail(addr)), _) => Ok(MemtestOutcome::Fail(addr)),
            (_, Ok(MemtestOutcome::Fail(addr))) => Ok(MemtestOutcome::Fail(addr)),
            _ => Ok(MemtestOutcome::Pass),
        };
        k = k + 1;
        proof {
            assert(v@.subrange(0, k as int).drop_last() =~= v@.subrange(0, k - 1));
            assert(v@.subrange(0, k as int).last() == cur);
        }
    }
    proof {
        assert(v@.subrange(0, v@.len() as int) =~= v@);
        assert(is_aggregate(v@, acc));
        if acc == Ok::<MemtestOutcome, MemtestError>(MemtestOutcome::Pass) {
            assert forall|i: int| 0 <= i < v@.len() implies v@[i] == Ok::<
                MemtestOutcome,
                MemtestError,
            >(MemtestOutcome::Pass) by {
                if v@[i] matches Err(MemtestError::Unknown) {
                    assert(has_unknown(v@));
                } else if v@[i] matches Err(MemtestError::Timeout) {
                    assert(has_timeout(v@));
                } else if v@[i] matches Ok(MemtestOutcome::Fail(_)) {
                    assert(has_fail(v@));
                } else {
                    assert(v@[i] matches Ok(MemtestOutcome::Pass));
                }
            }
        }
    }
    acc
}

} // verus!

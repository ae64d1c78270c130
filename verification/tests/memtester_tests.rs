use memtester::kernels::{
    test_and, test_block_seq, test_checkerboard, test_div, test_mul, test_or, test_own_address,
    test_random_val, test_seq_inc, test_solid_bits, test_sub, test_xor,
};
use memtester::locking::next_shrink_size;
use memtester::orchestrator::partition_lanes;
use memtester::outcome::aggregate_outcomes;
use memtester::pattern::{verify_pattern, write_pattern, Pattern};
use memtester::rng::stream_word;
use memtester::{
    MemtestError, MemtestOutcome, MemtestReport, MemtestReportList, MemtestType, Memtester, Region,
};

const GENEROUS_MS: usize = 1_000_000;

fn all_types() -> Vec<MemtestType> {
    vec![
        MemtestType::TestOwnAddress,
        MemtestType::TestRandomVal,
        MemtestType::TestXor,
        MemtestType::TestSub,
        MemtestType::TestMul,
        MemtestType::TestDiv,
        MemtestType::TestOr,
        MemtestType::TestAnd,
        MemtestType::TestSeqInc,
        MemtestType::TestSolidBits,
        MemtestType::TestCheckerboard,
        MemtestType::TestBlockSeq,
    ]
}

fn small_region(words: usize) -> Region {
    Region::new(0, vec![0u64; words])
}

#[test]
fn test1() {
    assert!(true);
}

#[test]
fn zero_timeout_reports_timeout_for_every_kind() {
    let region = small_region(512);
    let tester = Memtester::from_test_types(region, 512 * 8, 0, all_types(), false, false, false, 7);
    let report_list = tester.run().unwrap();
    assert_eq!(report_list.reports.len(), 12);
    for report in &report_list.reports {
        assert_eq!(report.outcome, Err(MemtestError::Timeout));
    }
    assert!(!report_list.all_pass());
}

#[test]
fn no_fault_region_passes_every_kernel_single_lane() {
    let mut region = small_region(64);
    let n = 64;
    assert_eq!(test_own_address(&mut region, 0, n, GENEROUS_MS), Ok(MemtestOutcome::Pass));
    assert_eq!(test_random_val(&mut region, 0, n, GENEROUS_MS, 1), Ok(MemtestOutcome::Pass));
    assert_eq!(test_xor(&mut region, 0, n, GENEROUS_MS, 2), Ok(MemtestOutcome::Pass));
    assert_eq!(test_sub(&mut region, 0, n, GENEROUS_MS, 3), Ok(MemtestOutcome::Pass));
    assert_eq!(test_mul(&mut region, 0, n, GENEROUS_MS, 4), Ok(MemtestOutcome::Pass));
    assert_eq!(test_div(&mut region, 0, n, GENEROUS_MS, 5), Ok(MemtestOutcome::Pass));
    assert_eq!(test_or(&mut region, 0, n, GENEROUS_MS, 6), Ok(MemtestOutcome::Pass));
    assert_eq!(test_and(&mut region, 0, n, GENEROUS_MS, 7), Ok(MemtestOutcome::Pass));
    assert_eq!(test_seq_inc(&mut region, 0, n, GENEROUS_MS, 8), Ok(MemtestOutcome::Pass));
    assert_eq!(test_solid_bits(&mut region, 0, n, GENEROUS_MS), Ok(MemtestOutcome::Pass));
    assert_eq!(test_checkerboard(&mut region, 0, n, GENEROUS_MS), Ok(MemtestOutcome::Pass));
    assert_eq!(test_block_seq(&mut region, 0, n, GENEROUS_MS), Ok(MemtestOutcome::Pass));
}

#[test]
fn no_fault_region_passes_multi_lane_run() {
    let region = small_region(256);
    let tester =
        Memtester::from_test_types(region, 256 * 8, GENEROUS_MS, all_types(), false, false, true, 9);
    let report_list = tester.run().unwrap();
    assert_eq!(report_list.reports.len(), 12);
    assert!(report_list.all_pass());
}

#[test]
fn single_corrupted_word_fails_at_its_address() {
    let mut region = small_region(64);
    let pattern = Pattern::Solid { value: 0x00FF_00FF_00FF_00FF };
    write_pattern(&mut region, 0, 64, &pattern);
    region.write(37, 0x1234);
    let outcome = verify_pattern(&region, 0, 64, &pattern);
    assert_eq!(outcome, MemtestOutcome::Fail(37 * 8));
}

#[test]
fn single_corrupted_word_multi_lane_aggregates_to_fail() {
    let mut region = small_region(64);
    let pattern = Pattern::Solid { value: 0xABCD };
    write_pattern(&mut region, 0, 64, &pattern);
    region.write(37, 0);
    let lanes = partition_lanes(64, 2);
    assert_eq!(lanes, vec![(0, 32), (32, 32)]);
    let mut lane_outcomes = Vec::new();
    for (start, count) in &lanes {
        lane_outcomes.push(Ok(verify_pattern(&region, *start, *count, &pattern)));
    }
    assert_eq!(lane_outcomes[0], Ok(MemtestOutcome::Pass));
    assert_eq!(lane_outcomes[1], Ok(MemtestOutcome::Fail(37 * 8)));
    assert_eq!(aggregate_outcomes(&lane_outcomes), Ok(MemtestOutcome::Fail(37 * 8)));
}

#[test]
fn lowest_mismatching_address_is_reported() {
    let mut region = small_region(16);
    let pattern = Pattern::SeqInc { start: 100 };
    write_pattern(&mut region, 0, 16, &pattern);
    region.write(9, 0);
    region.write(4, 0);
    let outcome = verify_pattern(&region, 0, 16, &pattern);
    assert_eq!(outcome, MemtestOutcome::Fail(4 * 8));
}

#[test]
fn aggregate_unknown_dominates_everything() {
    let v = vec![
        Ok(MemtestOutcome::Pass),
        Err(MemtestError::Timeout),
        Err(MemtestError::Unknown),
        Ok(MemtestOutcome::Fail(8)),
    ];
    assert_eq!(aggregate_outcomes(&v), Err(MemtestError::Unknown));
}

#[test]
fn aggregate_timeout_dominates_fail_and_pass() {
    let v = vec![Ok(MemtestOutcome::Fail(16)), Err(MemtestError::Timeout), Ok(MemtestOutcome::Pass)];
    assert_eq!(aggregate_outcomes(&v), Err(MemtestError::Timeout));
}

#[test]
fn aggregate_fail_dominates_pass() {
    let v = vec![Ok(MemtestOutcome::Pass), Ok(MemtestOutcome::Fail(24)), Ok(MemtestOutcome::Pass)];
    assert_eq!(aggregate_outcomes(&v), Ok(MemtestOutcome::Fail(24)));
}

#[test]
fn aggregate_all_pass_is_pass() {
    let v = vec![Ok(MemtestOutcome::Pass), Ok(MemtestOutcome::Pass)];
    assert_eq!(aggregate_outcomes(&v), Ok(MemtestOutcome::Pass));
}

#[test]
fn lock_strategy_converges_to_largest_size_under_threshold() {
    let threshold: usize = 14336;
    let mut size: usize = 40960;
    let granted = loop {
        if size <= threshold {
            break Some(size);
        }
        match next_shrink_size(size) {
            Some(smaller) => size = smaller,
            None => break None,
        }
    };
    assert_eq!(granted, Some(12288));
}

#[test]
fn lock_strategy_fails_when_no_size_of_one_page_fits() {
    let threshold: usize = 100;
    let mut size: usize = 16384;
    let granted = loop {
        if size <= threshold {
            break Some(size);
        }
        match next_shrink_size(size) {
            Some(smaller) => size = smaller,
            None => break None,
        }
    };
    assert_eq!(granted, None);
}

#[test]
fn partition_excludes_remainder_words() {
    let lanes = partition_lanes(10, 3);
    assert_eq!(lanes, vec![(0, 3), (3, 3), (6, 3)]);
    let total: usize = lanes.iter().map(|(_, count)| count).sum();
    assert_eq!(total, 3 * (10 / 3));
    assert!(lanes.iter().all(|(start, count)| start + count <= 9));
}

#[test]
fn partition_with_one_lane_covers_everything() {
    let lanes = partition_lanes(10, 1);
    assert_eq!(lanes, vec![(0, 10)]);
}

#[test]
fn random_val_same_seed_twice_is_identical() {
    let mut first = small_region(128);
    let mut second = small_region(128);
    let first_outcome = test_random_val(&mut first, 0, 128, GENEROUS_MS, 42);
    let second_outcome = test_random_val(&mut second, 0, 128, GENEROUS_MS, 42);
    assert_eq!(first_outcome, second_outcome);
    assert_eq!(first_outcome, Ok(MemtestOutcome::Pass));
    assert_eq!(first.words, second.words);
}

#[test]
fn random_val_stream_depends_on_seed() {
    let mut first = small_region(128);
    let mut second = small_region(128);
    let _ = test_random_val(&mut first, 0, 128, GENEROUS_MS, 1);
    let _ = test_random_val(&mut second, 0, 128, GENEROUS_MS, 2);
    assert_ne!(first.words, second.words);
}

#[test]
fn one_page_zero_timeout_scenario() {
    let region = small_region(512);
    let tester = Memtester::from_test_types(region, 4096, 0, all_types(), false, false, false, 3);
    let report_list = tester.run().expect("a zero timeout must not abort the run");
    assert_eq!(report_list.tested_memsize, 4096);
    assert_eq!(report_list.reports.len(), 12);
    for report in &report_list.reports {
        assert_eq!(report.outcome, Err(MemtestError::Timeout));
    }
    // The pinning flag only records how the immediate lock attempt ended.
    let _ = report_list.mlocked;
}

#[test]
fn own_address_kernel_leaves_addresses_in_memory() {
    let mut region = Region::new(4096, vec![0u64; 16]);
    let outcome = test_own_address(&mut region, 0, 16, GENEROUS_MS);
    assert_eq!(outcome, Ok(MemtestOutcome::Pass));
    for i in 0..16u64 {
        assert_eq!(region.words[i as usize], 4096 + 8 * i);
    }
}

#[test]
fn seq_inc_kernel_writes_consecutive_values() {
    let mut region = small_region(32);
    let outcome = test_seq_inc(&mut region, 0, 32, GENEROUS_MS, 11);
    assert_eq!(outcome, Ok(MemtestOutcome::Pass));
    assert_eq!(region.words[0], stream_word(11, 0));
    for i in 0..31 {
        assert_eq!(region.words[i + 1], region.words[i].wrapping_add(1));
    }
}

#[test]
fn xor_kernel_writes_stream_combined_with_operand() {
    let mut region = small_region(32);
    let seed = 21;
    let outcome = test_xor(&mut region, 0, 32, GENEROUS_MS, seed);
    assert_eq!(outcome, Ok(MemtestOutcome::Pass));
    let operand = stream_word(seed, u64::MAX);
    for i in 0..32u64 {
        assert_eq!(region.words[i as usize], stream_word(seed, i) ^ operand);
    }
}

#[test]
fn checkerboard_kernel_final_round_alternates_patterns() {
    let mut region = small_region(8);
    let outcome = test_checkerboard(&mut region, 0, 8, GENEROUS_MS);
    assert_eq!(outcome, Ok(MemtestOutcome::Pass));
    for i in 0..8 {
        let expected = if i % 2 == 0 { 0xAAAA_AAAA_AAAA_AAAA } else { 0x5555_5555_5555_5555 };
        assert_eq!(region.words[i], expected);
    }
}

#[test]
fn solid_bits_kernel_final_round_alternates_zero_and_ones() {
    let mut region = small_region(8);
    let outcome = test_solid_bits(&mut region, 0, 8, GENEROUS_MS);
    assert_eq!(outcome, Ok(MemtestOutcome::Pass));
    for i in 0..8 {
        let expected = if i % 2 == 0 { 0 } else { u64::MAX };
        assert_eq!(region.words[i], expected);
    }
}

#[test]
fn block_seq_kernel_final_round_is_all_ones() {
    let mut region = small_region(8);
    let outcome = test_block_seq(&mut region, 0, 8, GENEROUS_MS);
    assert_eq!(outcome, Ok(MemtestOutcome::Pass));
    for i in 0..8 {
        assert_eq!(region.words[i], u64::MAX);
    }
}

#[test]
fn kernels_only_touch_their_own_lane() {
    let mut region = small_region(64);
    let sentinel = 0x5EED_5EED_5EED_5EED;
    for i in 0..64 {
        region.write(i, sentinel);
    }
    let outcome = test_random_val(&mut region, 16, 16, GENEROUS_MS, 5);
    assert_eq!(outcome, Ok(MemtestOutcome::Pass));
    for i in 0..16 {
        assert_eq!(region.words[i], sentinel);
    }
    for i in 32..64 {
        assert_eq!(region.words[i], sentinel);
    }
}

#[test]
fn new_shuffles_all_twelve_kinds() {
    let region = small_region(16);
    let tester = Memtester::new(region, 16 * 8, 100, false, false, false, 1);
    assert_eq!(tester.test_types.len(), 12);
    for kind in all_types() {
        let occurrences = tester.test_types.iter().filter(|t| **t == kind).count();
        assert_eq!(occurrences, 1);
    }
}

#[test]
fn report_order_follows_configured_kinds() {
    let region = small_region(64);
    let kinds = vec![MemtestType::TestCheckerboard, MemtestType::TestOwnAddress];
    let tester =
        Memtester::from_test_types(region, 64 * 8, GENEROUS_MS, kinds.clone(), false, false, false, 2);
    let report_list = tester.run().unwrap();
    assert_eq!(report_list.reports.len(), 2);
    assert_eq!(report_list.reports[0].test_type, kinds[0]);
    assert_eq!(report_list.reports[1].test_type, kinds[1]);
    assert!(report_list.all_pass());
}

#[test]
fn region_addresses_advance_by_word_size() {
    let region = Region::new(1000, vec![0u64; 4]);
    assert_eq!(region.address_of(0), 1000);
    assert_eq!(region.address_of(3), 1024);
}

#[test]
fn report_list_all_pass_spots_one_failure() {
    let passing = MemtestReportList {
        tested_memsize: 8,
        mlocked: false,
        reports: vec![MemtestReport::new(MemtestType::TestOwnAddress, Ok(MemtestOutcome::Pass))],
    };
    assert!(passing.all_pass());
    let failing = MemtestReportList {
        tested_memsize: 8,
        mlocked: false,
        reports: vec![
            MemtestReport::new(MemtestType::TestOwnAddress, Ok(MemtestOutcome::Pass)),
            MemtestReport::new(MemtestType::TestXor, Ok(MemtestOutcome::Fail(0))),
        ],
    };
    assert!(!failing.all_pass());
}

#[test]
fn shrink_disallowed_tests_the_configured_size() {
    let region = small_region(512);
    let tester = Memtester::from_test_types(
        region,
        4000,
        GENEROUS_MS,
        vec![MemtestType::TestSolidBits],
        false,
        false,
        false,
        6,
    );
    let report_list = tester.run().unwrap();
    // 4000 bytes hold 500 whole words.
    assert_eq!(report_list.tested_memsize, 500 * 8);
    assert!(report_list.all_pass());
}

#[test]
fn empty_lane_verifies_as_pass() {
    let region = small_region(8);
    let pattern = Pattern::Solid { value: 7 };
    assert_eq!(verify_pattern(&region, 3, 0, &pattern), MemtestOutcome::Pass);
}

#[test]
fn aggregate_single_lane_keeps_its_outcome() {
    let v = vec![Ok(MemtestOutcome::Fail(40))];
    assert_eq!(aggregate_outcomes(&v), Ok(MemtestOutcome::Fail(40)));
    let w = vec![Err(MemtestError::Unknown)];
    assert_eq!(aggregate_outcomes(&w), Err(MemtestError::Unknown));
}

#[test]
fn partition_with_more_lanes_than_words_covers_nothing() {
    let lanes = partition_lanes(3, 4);
    assert_eq!(lanes.len(), 4);
    for (start, count) in &lanes {
        assert_eq!((*start, *count), (0, 0));
    }
}

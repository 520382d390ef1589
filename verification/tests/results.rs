use reflink_bench::benchmark::{assemble, BenchmarkConfig, BenchmarkResult};
use reflink_bench::filesystem::FilesystemType;
use reflink_bench::results::{
    concurrency_rows, contention_summary, divide_rounding, faster, format_duration, largest,
    performance_summary, ResultsReporter,
};
use reflink_bench::sweep::{summarize, ConcurrentBenchmarkResult};
use reflink_bench::timing::{Ratio, TimingSample};

fn millis(ms: u128) -> TimingSample {
    TimingSample { nanos: ms * 1_000_000 }
}

fn sweep_of(count: u32, times_ms: &[u128]) -> ConcurrentBenchmarkResult {
    let levels: Vec<u32> = (0..times_ms.len()).map(|i| 1u32 << i).collect();
    let durations: Vec<TimingSample> = times_ms.iter().map(|&ms| millis(ms)).collect();
    summarize(count, &levels, &durations)
}

fn result_of(sequential_ms: u128, times_ms: &[u128]) -> BenchmarkResult {
    let config = BenchmarkConfig { file_size_mb: 1, reflink_count: 100 };
    assemble(config, millis(sequential_ms), sweep_of(100, times_ms))
}

#[test]
fn short_times_are_shown_in_milliseconds() {
    assert_eq!(format_duration(TimingSample { nanos: 0 }), "0ms");
    assert_eq!(format_duration(TimingSample { nanos: 999_999 }), "0ms");
    assert_eq!(format_duration(millis(250)), "250ms");
    assert_eq!(format_duration(TimingSample { nanos: 999_999_999 }), "999ms");
}

#[test]
fn seconds_are_shown_with_two_decimals() {
    assert_eq!(format_duration(millis(1000)), "1.00s");
    assert_eq!(format_duration(millis(2500)), "2.50s");
    assert_eq!(format_duration(millis(1234)), "1.23s");
    assert_eq!(format_duration(millis(1236)), "1.24s");
    assert_eq!(format_duration(millis(12_040)), "12.04s");
    assert_eq!(format_duration(TimingSample { nanos: 59_994_999_999 }), "59.99s");
    assert_eq!(format_duration(TimingSample { nanos: 59_999_999_999 }), "60.00s");
}

#[test]
fn ties_go_to_the_even_neighbour() {
    assert_eq!(format_duration(millis(1125)), "1.12s");
    assert_eq!(format_duration(millis(1375)), "1.38s");
    assert_eq!(divide_rounding(5, 2), 2);
    assert_eq!(divide_rounding(7, 2), 4);
    assert_eq!(divide_rounding(6, 4), 2);
    assert_eq!(divide_rounding(10, 4), 2);
    assert_eq!(divide_rounding(11, 4), 3);
    assert_eq!(divide_rounding(9, 4), 2);
    assert_eq!(divide_rounding(0, 4), 0);
}

#[test]
fn long_times_are_shown_in_minutes_and_seconds() {
    assert_eq!(format_duration(millis(60_000)), "1m0.0s");
    assert_eq!(format_duration(millis(90_500)), "1m30.5s");
    assert_eq!(format_duration(millis(125_340)), "2m5.3s");
    assert_eq!(format_duration(millis(119_960)), "1m60.0s");
    assert_eq!(format_duration(millis(3_600_000)), "60m0.0s");
    assert_eq!(format_duration(TimingSample { nanos: 90_599_999_999 }), "1m30.6s");
}

#[test]
fn higher_rate_wins_and_btrfs_takes_the_tie() {
    let slow = Ratio { numer: 10, denom: 3 };
    let fast = Ratio { numer: 10, denom: 2 };
    assert_eq!(faster(&fast, &slow), FilesystemType::Xfs);
    assert_eq!(faster(&slow, &fast), FilesystemType::Btrfs);
    assert_eq!(faster(&fast, &fast), FilesystemType::Btrfs);
    assert_eq!(faster(&fast, &Ratio { numer: 5, denom: 1 }), FilesystemType::Btrfs);
}

#[test]
fn largest_is_counted_from_zero() {
    let zero = Ratio { numer: 0, denom: 1 };
    assert_eq!(largest(&vec![]), zero);
    assert_eq!(largest(&vec![Ratio { numer: 0, denom: 7 }]), zero);
    assert_eq!(largest(&vec![Ratio { numer: 0, denom: 0 }]), zero);
    let values = vec![
        Ratio { numer: 1, denom: 1 },
        Ratio { numer: 7, denom: 2 },
        Ratio { numer: 0, denom: 0 },
        Ratio { numer: 10, denom: 3 },
        Ratio { numer: 14, denom: 4 },
    ];
    assert_eq!(largest(&values), Ratio { numer: 7, denom: 2 });
    let unbounded = vec![
        Ratio { numer: 3, denom: 1 },
        Ratio { numer: 1, denom: 0 },
        Ratio { numer: 9, denom: 1 },
    ];
    assert_eq!(largest(&unbounded), Ratio { numer: 1, denom: 0 });
}

#[test]
fn sweeps_are_put_side_by_side() {
    let xfs = sweep_of(100, &[1000, 500, 400]);
    let btrfs = sweep_of(100, &[2000, 400, 400]);
    let rows = concurrency_rows(&xfs, &btrfs);
    assert_eq!(rows.len(), 3);
    assert_eq!(rows[0].threads, 1);
    assert_eq!(rows[1].threads, 2);
    assert_eq!(rows[2].threads, 4);
    assert_eq!(rows[0].winner, FilesystemType::Xfs);
    assert_eq!(rows[1].winner, FilesystemType::Btrfs);
    assert_eq!(rows[2].winner, FilesystemType::Btrfs);
    assert_eq!(rows[0].xfs_ops, Ratio { numer: 100_000_000_000, denom: 1_000_000_000 });
    assert_eq!(rows[0].btrfs_ops, Ratio { numer: 100_000_000_000, denom: 2_000_000_000 });
    assert_eq!(rows[1].xfs_contention, Ratio { numer: 500_000_000, denom: 1_000_000_000 });
    assert_eq!(rows[1].btrfs_contention, Ratio { numer: 400_000_000, denom: 2_000_000_000 });
}

#[test]
fn smaller_worst_contention_scales_better() {
    let flat = sweep_of(100, &[1000, 1100, 1200]);
    let steep = sweep_of(100, &[1000, 3000, 2000]);
    let summary = contention_summary(&flat, &steep);
    assert_eq!(summary.steadier, FilesystemType::Xfs);
    assert_eq!(summary.xfs_worst, Ratio { numer: 1_200_000_000, denom: 1_000_000_000 });
    assert_eq!(summary.btrfs_worst, Ratio { numer: 3_000_000_000, denom: 1_000_000_000 });
    assert_eq!(contention_summary(&steep, &flat).steadier, FilesystemType::Btrfs);
    assert_eq!(contention_summary(&flat, &flat).steadier, FilesystemType::Btrfs);
}

#[test]
fn first_of_equal_values_is_the_largest() {
    let values = vec![
        Ratio { numer: 1, denom: 2 },
        Ratio { numer: 3, denom: 2 },
        Ratio { numer: 6, denom: 4 },
        Ratio { numer: 1, denom: 1 },
    ];
    assert_eq!(largest(&values), Ratio { numer: 3, denom: 2 });
}

#[test]
fn best_rates_are_compared() {
    let xfs = result_of(1000, &[1000, 250, 500]);
    let btrfs = result_of(800, &[900, 300, 200]);
    let summary = performance_summary(&xfs, &btrfs);
    assert_eq!(summary.sequential_winner, FilesystemType::Btrfs);
    assert_eq!(summary.xfs_best, Ratio { numer: 100_000_000_000, denom: 250_000_000 });
    assert_eq!(summary.btrfs_best, Ratio { numer: 100_000_000_000, denom: 200_000_000 });
    assert_eq!(summary.concurrent_winner, FilesystemType::Btrfs);
    let other = performance_summary(&btrfs, &xfs);
    assert_eq!(other.sequential_winner, FilesystemType::Xfs);
    assert_eq!(other.concurrent_winner, FilesystemType::Xfs);
    let level = performance_summary(&xfs, &xfs);
    assert_eq!(level.sequential_winner, FilesystemType::Btrfs);
    assert_eq!(level.concurrent_winner, FilesystemType::Btrfs);
}

#[test]
fn reporter_finds_the_result_of_a_filesystem() {
    let reporter = ResultsReporter::new(vec![
        (FilesystemType::Xfs, result_of(1000, &[1000, 2000])),
        (FilesystemType::Btrfs, result_of(3000, &[1000, 1500])),
    ]);
    assert_eq!(reporter.len(), 2);
    assert!(reporter.compares_both());
    let xfs = reporter.find(FilesystemType::Xfs).unwrap();
    let btrfs = reporter.find(FilesystemType::Btrfs).unwrap();
    assert_eq!(xfs.total_duration, millis(1000));
    assert_eq!(btrfs.total_duration, millis(3000));
    assert_eq!(faster(&xfs.operations_per_sec, &btrfs.operations_per_sec), FilesystemType::Xfs);
    assert_eq!(reporter.get(1).unwrap().0, FilesystemType::Btrfs);
    assert!(reporter.get(2).is_none());
}

#[test]
fn one_filesystem_alone_is_not_compared() {
    let only_xfs = ResultsReporter::new(vec![(FilesystemType::Xfs, result_of(1000, &[1000]))]);
    assert!(!only_xfs.compares_both());
    assert!(only_xfs.find(FilesystemType::Btrfs).is_none());
    let twice_xfs = ResultsReporter::new(vec![
        (FilesystemType::Xfs, result_of(1000, &[1000])),
        (FilesystemType::Xfs, result_of(2000, &[1000])),
    ]);
    assert!(!twice_xfs.compares_both());
    assert_eq!(twice_xfs.find(FilesystemType::Xfs).unwrap().total_duration, millis(1000));
    let nothing = ResultsReporter::new(vec![]);
    assert!(!nothing.compares_both());
    assert_eq!(nothing.len(), 0);
}

use reflink_bench::benchmark::{
    assemble, Benchmark, BenchmarkConfig, BenchmarkRunner, BenchmarkStep, Stage, StageFailure,
    StageOutcome,
};
use reflink_bench::error::{BenchmarkError, CloneError};
use reflink_bench::runner::RunAction;
use reflink_bench::source::{random_chunk, SourceAction, SourceWriter, CHUNK_LEN};
use reflink_bench::sweep::{
    can_sweep, summarize, sweep_levels, ConcurrentBenchmarkResult, Sweep, SweepAction,
};
use reflink_bench::timing::{
    average_per_operation, contention_ratio, megabytes_per_second, multiply_wide,
    operations_per_second, Ratio, TimingSample, Wide, NANOS_PER_SEC,
};

fn value(ratio: Ratio) -> f64 {
    ratio.numer as f64 / ratio.denom as f64
}

fn seconds(secs: u128) -> TimingSample {
    TimingSample { nanos: secs * NANOS_PER_SEC }
}

fn full_sweep(count: u32, times: &[TimingSample]) -> ConcurrentBenchmarkResult {
    let mut sweep = Sweep::new(count);
    for &elapsed in times {
        sweep = sweep.record(Ok(elapsed));
    }
    sweep.result().expect("every level has been run")
}

#[test]
fn sweep_runs_the_canonical_levels_in_order() {
    assert_eq!(sweep_levels(), vec![1, 2, 4, 8, 16, 32, 64, 128]);
    let mut sweep = Sweep::new(50);
    let mut run = Vec::new();
    loop {
        match sweep.next_action() {
            SweepAction::RunLevel { workers } => {
                assert!(sweep.result().is_none());
                run.push(workers);
                sweep = sweep.record(Ok(TimingSample { nanos: 1000 + workers as u128 }));
            }
            SweepAction::Finish => break,
            SweepAction::Abort { error } => panic!("aborted with {:?}", error),
        }
    }
    assert_eq!(run, vec![1, 2, 4, 8, 16, 32, 64, 128]);
    let result = sweep.result().unwrap();
    assert_eq!(result.thread_counts, vec![1, 2, 4, 8, 16, 32, 64, 128]);
    assert_eq!(result.durations.len(), 8);
    assert_eq!(result.durations[3], TimingSample { nanos: 1008 });
    assert_eq!(result.operations_per_sec.len(), 8);
    assert_eq!(result.contention_ratios.len(), 8);
}

#[test]
fn baseline_has_contention_ratio_one() {
    let times: Vec<TimingSample> =
        [2u128, 3, 4, 5, 6, 7, 8, 9].iter().map(|&s| seconds(s)).collect();
    let result = full_sweep(100, &times);
    assert!(result.contention_ratios[0].equals_one());
    assert_eq!(value(result.contention_ratios[0]), 1.0);
    assert_eq!(result.contention_ratios[0], Ratio { numer: 2_000_000_000, denom: 2_000_000_000 });
}

#[test]
fn rates_and_ratios_follow_from_the_times() {
    let times: Vec<TimingSample> =
        [2u128, 1, 4, 5, 8, 10, 16, 20].iter().map(|&s| seconds(s)).collect();
    let result = full_sweep(100, &times);
    let rates: Vec<f64> = result.operations_per_sec.iter().map(|&r| value(r)).collect();
    assert_eq!(rates, vec![50.0, 100.0, 25.0, 20.0, 12.5, 10.0, 6.25, 5.0]);
    let ratios: Vec<f64> = result.contention_ratios.iter().map(|&r| value(r)).collect();
    assert_eq!(ratios, vec![1.0, 0.5, 2.0, 2.5, 4.0, 5.0, 8.0, 10.0]);
    for level in 0..8 {
        assert_eq!(ratios[level], rates[0] / rates[level]);
    }
    assert_eq!(
        result.operations_per_sec[2],
        Ratio { numer: 100_000_000_000, denom: 4_000_000_000 }
    );
    assert_eq!(
        result.contention_ratios[2],
        Ratio { numer: 4_000_000_000, denom: 2_000_000_000 }
    );
}

#[test]
fn failed_level_ends_the_sweep() {
    let failure = BenchmarkError::WorkerFailure { worker: 1, cause: CloneError::IoFailure };
    let mut sweep = Sweep::new(10);
    assert_eq!(sweep.baseline(), None);
    sweep = sweep.record(Ok(seconds(1)));
    assert_eq!(sweep.baseline(), Some(seconds(1)));
    assert_eq!(sweep.next_action(), SweepAction::RunLevel { workers: 2 });
    sweep = sweep.record(Err(failure));
    assert_eq!(sweep.next_action(), SweepAction::Abort { error: failure });
    assert!(sweep.result().is_none());
    sweep = sweep.record(Ok(seconds(1)));
    sweep = sweep.record(Err(BenchmarkError::IoFailure));
    assert_eq!(sweep.next_action(), SweepAction::Abort { error: failure });
    assert!(sweep.result().is_none());
}

#[test]
fn finished_sweep_takes_no_further_time() {
    let mut sweep = Sweep::with_levels(5, vec![1, 3]).unwrap();
    sweep = sweep.record(Ok(seconds(1)));
    sweep = sweep.record(Ok(seconds(2)));
    assert_eq!(sweep.next_action(), SweepAction::Finish);
    sweep = sweep.record(Ok(seconds(3)));
    sweep = sweep.record(Err(BenchmarkError::IoFailure));
    assert_eq!(sweep.next_action(), SweepAction::Finish);
    let result = sweep.result().unwrap();
    assert_eq!(result.thread_counts, vec![1, 3]);
    assert_eq!(result.durations, vec![seconds(1), seconds(2)]);
}

#[test]
fn levels_must_start_at_one_and_rise() {
    assert!(can_sweep(&vec![1]));
    assert!(can_sweep(&vec![1, 2, 4, 8, 16, 32, 64, 128]));
    assert!(can_sweep(&vec![1, 3, 1000]));
    assert!(!can_sweep(&vec![]));
    assert!(!can_sweep(&vec![2, 4]));
    assert!(!can_sweep(&vec![1, 4, 2]));
    assert!(!can_sweep(&vec![1, 2, 2]));
    assert!(!can_sweep(&vec![1, 2, 4, 3]));
    assert!(Sweep::with_levels(3, vec![1, 1]).is_none());
    assert!(Sweep::with_levels(3, vec![0, 1]).is_none());
    let sweep = Sweep::with_levels(3, vec![1, 16]).unwrap();
    assert_eq!(sweep.next_action(), SweepAction::RunLevel { workers: 1 });
}

#[test]
fn summary_lists_one_entry_per_level() {
    let result = summarize(8, &vec![1, 2], &vec![seconds(4), seconds(1)]);
    assert_eq!(result.thread_counts, vec![1, 2]);
    assert_eq!(result.durations, vec![seconds(4), seconds(1)]);
    assert_eq!(value(result.operations_per_sec[0]), 2.0);
    assert_eq!(value(result.operations_per_sec[1]), 8.0);
    assert_eq!(value(result.contention_ratios[0]), 1.0);
    assert_eq!(value(result.contention_ratios[1]), 0.25);
    let empty = summarize(8, &vec![], &vec![]);
    assert!(empty.thread_counts.is_empty());
    assert!(empty.contention_ratios.is_empty());
}

#[test]
fn one_mebibyte_hundred_times_in_two_seconds() {
    let config = BenchmarkConfig { file_size_mb: 1, reflink_count: 100 };
    let times: Vec<TimingSample> = (1..=8).map(|s| seconds(s)).collect();
    let found = full_sweep(100, &times);
    let result = assemble(config, seconds(2), found);
    assert_eq!(value(result.throughput_mb_per_sec), 50.0);
    assert_eq!(value(result.operations_per_sec), 50.0);
    assert_eq!(result.total_duration, seconds(2));
    assert_eq!(result.avg_reflink_time, TimingSample { nanos: 20_000_000 });
    assert_eq!(result.filesystem, "unknown");
    assert_eq!(result.file_size_mb, 1);
    assert_eq!(result.reflink_count, 100);
    assert_eq!(result.concurrent_results.thread_counts.len(), 8);
}

#[test]
fn rates_are_exact_fractions() {
    let elapsed = TimingSample { nanos: 1_500_000_000 };
    assert_eq!(
        operations_per_second(3, elapsed),
        Ratio { numer: 3_000_000_000, denom: 1_500_000_000 }
    );
    assert_eq!(
        megabytes_per_second(100, 3, elapsed),
        Ratio { numer: 300_000_000_000, denom: 1_500_000_000 }
    );
    assert_eq!(value(megabytes_per_second(100, 3, elapsed)), 200.0);
    assert_eq!(
        contention_ratio(TimingSample { nanos: 10 }, TimingSample { nanos: 25 }),
        Ratio { numer: 25, denom: 10 }
    );
    assert_eq!(average_per_operation(TimingSample { nanos: 10 }, 3), TimingSample { nanos: 3 });
    assert_eq!(average_per_operation(TimingSample { nanos: 2 }, 3), TimingSample { nanos: 0 });
    let widest = megabytes_per_second(u64::MAX, u32::MAX, elapsed);
    assert_eq!(widest.numer, u64::MAX as u128 * u32::MAX as u128 * 1_000_000_000);
}

#[test]
fn run_that_took_no_time_has_no_finite_rate() {
    let rate = operations_per_second(5, TimingSample { nanos: 0 });
    assert_eq!(rate, Ratio { numer: 5_000_000_000, denom: 0 });
    assert!(value(rate).is_infinite());
    let ratio = contention_ratio(TimingSample { nanos: 0 }, TimingSample { nanos: 0 });
    assert!(!ratio.equals_one());
    assert!(value(ratio).is_nan());
}

#[test]
fn fractions_are_compared_exactly() {
    let third = Ratio { numer: 1, denom: 3 };
    let half = Ratio { numer: 1, denom: 2 };
    let two_sixths = Ratio { numer: 2, denom: 6 };
    assert!(half.is_greater_than(&third));
    assert!(!third.is_greater_than(&half));
    assert!(!third.is_greater_than(&two_sixths));
    assert!(!two_sixths.is_greater_than(&third));
    let big = Ratio { numer: u128::MAX, denom: u128::MAX - 1 };
    let bigger = Ratio { numer: u128::MAX - 1, denom: u128::MAX - 2 };
    assert!(bigger.is_greater_than(&big));
    assert!(!big.is_greater_than(&bigger));
    let unbounded = Ratio { numer: 1, denom: 0 };
    assert!(unbounded.is_greater_than(&big));
    assert!(!big.is_greater_than(&unbounded));
}

#[test]
fn wide_product_keeps_the_upper_half() {
    assert_eq!(multiply_wide(0, u128::MAX), Wide { high: 0, low: 0 });
    assert_eq!(multiply_wide(3, 5), Wide { high: 0, low: 15 });
    assert_eq!(multiply_wide(1 << 64, 1 << 64), Wide { high: 1, low: 0 });
    assert_eq!(multiply_wide(u128::MAX, 2), Wide { high: 1, low: u128::MAX - 1 });
    assert_eq!(multiply_wide(u128::MAX, u128::MAX), Wide { high: u128::MAX - 1, low: 1 });
    assert_eq!(
        multiply_wide(0x1234_5678_9abc_def0_1122_3344_5566_7788, 0xffee_ddcc_bbaa_9988_7766_5544_3322_1100),
        Wide {
            high: 0x1233_1e90_43f5_602f_4050_3ce4_23d9_e41f,
            low: 0xd43e_21c3_6751_c70a_3e96_3337_c600_0800,
        }
    );
}

#[test]
fn benchmark_goes_through_its_stages() {
    let config = BenchmarkConfig { file_size_mb: 4, reflink_count: 10 };
    let runner = BenchmarkRunner::new("/mnt/test", config);
    assert_eq!(runner.mount_point(), "/mnt/test");
    assert_eq!(runner.config(), config);
    let mut benchmark = runner.start().unwrap();
    assert_eq!(benchmark.next_step(), BenchmarkStep::Run { stage: Stage::CreateSource });
    benchmark = benchmark.record(StageOutcome::SequentialTimed(seconds(9)));
    assert_eq!(benchmark.next_step(), BenchmarkStep::Run { stage: Stage::CreateSource });
    benchmark = benchmark.record(StageOutcome::SourceCreated);
    assert_eq!(benchmark.next_step(), BenchmarkStep::Run { stage: Stage::Sequential });
    benchmark = benchmark.record(StageOutcome::SequentialTimed(seconds(5)));
    assert_eq!(benchmark.next_step(), BenchmarkStep::Run { stage: Stage::Sweep });
    let times: Vec<TimingSample> = (1..=8).map(|s| seconds(s)).collect();
    benchmark = benchmark.record(StageOutcome::SweepCompleted(full_sweep(10, &times)));
    assert_eq!(benchmark.next_step(), BenchmarkStep::Report);
    benchmark = benchmark.record(StageOutcome::Failed(BenchmarkError::IoFailure));
    assert_eq!(benchmark.next_step(), BenchmarkStep::Report);
    let result = benchmark.finish().unwrap().unwrap();
    assert_eq!(result.total_duration, seconds(5));
    assert_eq!(result.avg_reflink_time, TimingSample { nanos: 500_000_000 });
    assert_eq!(value(result.operations_per_sec), 2.0);
    assert_eq!(value(result.throughput_mb_per_sec), 8.0);
    assert_eq!(result.concurrent_results.durations, times);
}

#[test]
fn failed_stage_ends_the_benchmark() {
    let config = BenchmarkConfig { file_size_mb: 4, reflink_count: 10 };
    let mut benchmark = Benchmark::new(config).unwrap();
    benchmark = benchmark.record(StageOutcome::SourceCreated);
    benchmark = benchmark.record(StageOutcome::Failed(BenchmarkError::CloneUnsupported));
    let failure =
        StageFailure { stage: Stage::Sequential, error: BenchmarkError::CloneUnsupported };
    assert_eq!(benchmark.next_step(), BenchmarkStep::Abort { failure });
    benchmark = benchmark.record(StageOutcome::SequentialTimed(seconds(5)));
    benchmark = benchmark.record(StageOutcome::Failed(BenchmarkError::IoFailure));
    assert_eq!(benchmark.next_step(), BenchmarkStep::Abort { failure });
    match benchmark.finish() {
        Some(Err(reported)) => assert_eq!(reported, failure),
        _ => panic!("the failure is the end of the benchmark"),
    }
}

#[test]
fn unfinished_benchmark_has_no_result() {
    let config = BenchmarkConfig { file_size_mb: 4, reflink_count: 10 };
    assert!(Benchmark::new(config).unwrap().finish().is_none());
    let sourced = Benchmark::new(config).unwrap().record(StageOutcome::SourceCreated);
    assert!(sourced.finish().is_none());
    let failed_early =
        Benchmark::new(config).unwrap().record(StageOutcome::Failed(BenchmarkError::IoFailure));
    match failed_early.finish() {
        Some(Err(failure)) => {
            assert_eq!(failure.stage, Stage::CreateSource);
            assert_eq!(failure.error, BenchmarkError::IoFailure);
        }
        _ => panic!("the failure is the end of the benchmark"),
    }
}

#[test]
fn configuration_needs_a_file_and_an_operation() {
    assert!(BenchmarkConfig { file_size_mb: 1, reflink_count: 1 }.is_valid());
    assert_eq!(BenchmarkConfig { file_size_mb: 1, reflink_count: 1 }.file_size_bytes(), 1 << 20);
    assert_eq!(
        BenchmarkConfig { file_size_mb: u64::MAX, reflink_count: 1 }.file_size_bytes(),
        (u64::MAX as u128) << 20
    );
    assert!(!BenchmarkConfig { file_size_mb: 0, reflink_count: 1 }.is_valid());
    assert!(!BenchmarkConfig { file_size_mb: 1, reflink_count: 0 }.is_valid());
    assert!(Benchmark::new(BenchmarkConfig { file_size_mb: 0, reflink_count: 5 }).is_none());
    assert!(Benchmark::new(BenchmarkConfig { file_size_mb: 5, reflink_count: 0 }).is_none());
    let runner = BenchmarkRunner::new("/x", BenchmarkConfig { file_size_mb: 5, reflink_count: 0 });
    assert!(runner.start().is_none());
}

#[test]
fn runner_hands_out_its_runs() {
    let config = BenchmarkConfig { file_size_mb: 2, reflink_count: 3 };
    let runner = BenchmarkRunner::new("/mnt/x", config);
    let mut run = runner.sequential_run();
    let mut indices = Vec::new();
    while let RunAction::Clone { index } = run.next_action() {
        indices.push(index);
        run.record(Ok(()));
    }
    assert_eq!(indices, vec![0, 1, 2]);
    assert_eq!(runner.sweep().next_action(), SweepAction::RunLevel { workers: 1 });
    let found = full_sweep(3, &[seconds(1); 8]);
    let mut result = runner.assemble_result(seconds(3), found);
    assert_eq!(value(result.throughput_mb_per_sec), 2.0);
    assert_eq!(result.avg_reflink_time, seconds(1));
    result.set_filesystem("XFS".to_string());
    assert_eq!(result.filesystem, "XFS");
    assert_eq!(result.reflink_count, 3);
}

#[test]
fn source_file_is_written_chunk_by_chunk() {
    let config = BenchmarkConfig { file_size_mb: 3, reflink_count: 1 };
    let mut writer = SourceWriter::new(config);
    let mut actions = Vec::new();
    loop {
        let action = writer.next_action();
        actions.push(action);
        match action {
            SourceAction::Done => break,
            SourceAction::Abort { error } => panic!("aborted with {:?}", error),
            _ => writer.record(true),
        }
    }
    assert_eq!(
        actions,
        vec![
            SourceAction::Create,
            SourceAction::WriteChunk { len: 1_048_576 },
            SourceAction::WriteChunk { len: 1_048_576 },
            SourceAction::WriteChunk { len: 1_048_576 },
            SourceAction::Sync,
            SourceAction::Done,
        ]
    );
    assert_eq!(writer.bytes_written(), 3 * 1024 * 1024);
    writer.record(false);
    assert_eq!(writer.next_action(), SourceAction::Done);
}

#[test]
fn failed_write_ends_the_source_file() {
    let config = BenchmarkConfig { file_size_mb: 3, reflink_count: 1 };
    let mut writer = SourceWriter::new(config);
    writer.record(true);
    writer.record(true);
    writer.record(false);
    assert_eq!(writer.next_action(), SourceAction::Abort { error: BenchmarkError::IoFailure });
    writer.record(true);
    assert_eq!(writer.next_action(), SourceAction::Abort { error: BenchmarkError::IoFailure });
    assert_eq!(writer.bytes_written(), 1024 * 1024);
    let mut unborn = SourceWriter::new(config);
    unborn.record(false);
    assert_eq!(unborn.next_action(), SourceAction::Abort { error: BenchmarkError::IoFailure });
    assert_eq!(unborn.bytes_written(), 0);
}

#[test]
fn empty_source_file_is_created_and_flushed() {
    let config = BenchmarkConfig { file_size_mb: 0, reflink_count: 1 };
    let mut writer = SourceWriter::new(config);
    assert_eq!(writer.next_action(), SourceAction::Create);
    writer.record(true);
    assert_eq!(writer.next_action(), SourceAction::Sync);
    writer.record(true);
    assert_eq!(writer.next_action(), SourceAction::Done);
}

#[test]
fn chunks_are_a_megabyte_of_random_bytes() {
    let first = random_chunk();
    let second = random_chunk();
    assert_eq!(first.len(), CHUNK_LEN);
    assert_eq!(second.len(), 1024 * 1024);
    assert!(first.iter().any(|&b| b != 0));
    assert!(first != second);
}

#[test]
fn failure_names_its_stage() {
    assert_eq!(Stage::CreateSource.description(), "creating the source file");
    assert_eq!(Stage::Sequential.description(), "the sequential run");
    assert_eq!(Stage::Sweep.description(), "the sweep over the concurrency levels");
    let failure =
        StageFailure { stage: Stage::Sequential, error: BenchmarkError::CloneUnsupported };
    assert_eq!(
        failure.description(),
        "the sequential run failed: the filesystem does not support reflinks"
    );
    let failure = StageFailure {
        stage: Stage::Sweep,
        error: BenchmarkError::WorkerFailure { worker: 3, cause: CloneError::IoFailure },
    };
    assert_eq!(
        failure.description(),
        "the sweep over the concurrency levels failed: worker 3: a file operation failed"
    );
}

#[test]
fn times_are_kept_in_nanoseconds() {
    let sample = TimingSample::from_parts(2, 500_000_000);
    assert_eq!(sample, TimingSample { nanos: 2_500_000_000 });
    assert_eq!(sample.whole_seconds(), 2);
    assert_eq!(sample.subsec_nanos(), 500_000_000);
    let longest = TimingSample::from_parts(u64::MAX, 999_999_999);
    assert_eq!(longest.nanos, u64::MAX as u128 * 1_000_000_000 + 999_999_999);
    assert_eq!(longest.whole_seconds(), u64::MAX as u128);
    assert_eq!(longest.subsec_nanos(), 999_999_999);
    assert_eq!(TimingSample { nanos: 999_999_999 }.whole_seconds(), 0);
}

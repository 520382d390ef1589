use reflink_bench::clone_op::{
    classify_clone_failure, filler_block, source_open_mode, target_open_mode, CloneStep,
    OpenMode, StepOutcome, EOPNOTSUPP, EXDEV, FICLONE, FILLER_BYTE, FILLER_LEN, WRITE_OFFSET,
};
use reflink_bench::concurrent::{plan_concurrent_run, ConcurrentRun, RunStatus};
use reflink_bench::error::{BenchmarkError, CloneError};
use reflink_bench::naming::{sequential_label, target_name};
use reflink_bench::partition::WorkRange;
use reflink_bench::runner::{RangeRun, RunAction};
use std::collections::HashSet;

fn perform(outcomes: &[StepOutcome]) -> Result<(), CloneError> {
    let mut step = CloneStep::first();
    let mut given = outcomes.iter();
    while !step.is_finished() {
        let outcome = *given.next().expect("an outcome for every step");
        step = step.advance(outcome)?;
    }
    Ok(())
}

#[test]
fn clone_operation_has_five_steps() {
    let mut step = CloneStep::first();
    let mut seen = Vec::new();
    while !step.is_finished() {
        seen.push(step);
        step = step.advance(StepOutcome::Succeeded).unwrap();
    }
    assert_eq!(
        seen,
        vec![
            CloneStep::OpenSource,
            CloneStep::CreateTarget,
            CloneStep::CloneExtents,
            CloneStep::SeekToStart,
            CloneStep::WriteFiller,
        ]
    );
    assert_eq!(step.advance(StepOutcome::Succeeded), Ok(CloneStep::Finished));
    assert_eq!(step.advance(StepOutcome::Failed { os_error: Some(5) }), Ok(CloneStep::Finished));
    assert_eq!(perform(&[StepOutcome::Succeeded; 5]), Ok(()));
}

#[test]
fn failed_clone_call_is_told_apart() {
    assert_eq!(classify_clone_failure(Some(EXDEV)), CloneError::CloneUnsupported);
    assert_eq!(classify_clone_failure(Some(EOPNOTSUPP)), CloneError::CloneUnsupported);
    assert_eq!(classify_clone_failure(Some(18)), CloneError::CloneUnsupported);
    assert_eq!(classify_clone_failure(Some(95)), CloneError::CloneUnsupported);
    assert_eq!(classify_clone_failure(Some(5)), CloneError::IoFailure);
    assert_eq!(classify_clone_failure(Some(28)), CloneError::IoFailure);
    assert_eq!(classify_clone_failure(Some(0)), CloneError::IoFailure);
    assert_eq!(classify_clone_failure(None), CloneError::IoFailure);
}

#[test]
fn only_the_clone_call_reports_unsupported() {
    let unsupported = StepOutcome::Failed { os_error: Some(EOPNOTSUPP) };
    for step in [
        CloneStep::OpenSource,
        CloneStep::CreateTarget,
        CloneStep::SeekToStart,
        CloneStep::WriteFiller,
    ] {
        assert_eq!(step.advance(unsupported), Err(CloneError::IoFailure));
    }
    assert_eq!(CloneStep::CloneExtents.advance(unsupported), Err(CloneError::CloneUnsupported));
    assert_eq!(
        CloneStep::CloneExtents.advance(StepOutcome::Failed { os_error: Some(28) }),
        Err(CloneError::IoFailure)
    );
    let ok = StepOutcome::Succeeded;
    assert_eq!(perform(&[ok, ok, unsupported]), Err(CloneError::CloneUnsupported));
    assert_eq!(
        perform(&[ok, StepOutcome::Failed { os_error: Some(13) }]),
        Err(CloneError::IoFailure)
    );
    assert_eq!(
        perform(&[ok, ok, ok, ok, StepOutcome::Failed { os_error: None }]),
        Err(CloneError::IoFailure)
    );
}

#[test]
fn files_are_opened_as_the_operation_needs() {
    assert_eq!(
        source_open_mode(),
        OpenMode { read: true, write: false, create: false, truncate: false }
    );
    assert_eq!(
        target_open_mode(),
        OpenMode { read: true, write: true, create: true, truncate: true }
    );
    assert_eq!(FICLONE, 0x40049409);
    assert_eq!(WRITE_OFFSET, 0);
}

#[test]
fn filler_is_one_block_of_nonzero_bytes() {
    let block = filler_block();
    assert_eq!(block.len(), 4096);
    assert_eq!(block.len(), FILLER_LEN);
    assert_eq!(FILLER_BYTE, 0xAA);
    assert!(block.iter().all(|&b| b == 0xAA));
}

#[test]
fn sequential_run_performs_every_operation_once() {
    for &count in &[1u32, 2, 10, 1000] {
        let mut run = RangeRun::sequential(count);
        let label = sequential_label();
        let mut indices = Vec::new();
        let mut targets = HashSet::new();
        loop {
            match run.next_action() {
                RunAction::Clone { index } => {
                    indices.push(index);
                    targets.insert(target_name(&label, index));
                    run.record(Ok(()));
                }
                RunAction::Complete => break,
                RunAction::Abort { error } => panic!("aborted with {:?}", error),
            }
        }
        assert_eq!(indices, (0..count).collect::<Vec<u32>>());
        assert_eq!(targets.len(), count as usize);
        assert_eq!(run.completed(), count);
        assert_eq!(run.remaining(), 0);
    }
}

#[test]
fn unsupported_clone_aborts_the_sequential_run_at_once() {
    let mut run = RangeRun::sequential(10);
    let mut attempted = 0;
    loop {
        match run.next_action() {
            RunAction::Clone { index } => {
                assert_eq!(index, 0);
                attempted += 1;
                let ok = StepOutcome::Succeeded;
                let failed = StepOutcome::Failed { os_error: Some(EOPNOTSUPP) };
                run.record(perform(&[ok, ok, failed]));
            }
            RunAction::Complete => panic!("completed"),
            RunAction::Abort { error } => {
                assert_eq!(error, CloneError::CloneUnsupported);
                break;
            }
        }
    }
    assert_eq!(attempted, 1);
    assert_eq!(run.completed(), 0);
    run.record(Ok(()));
    assert_eq!(run.next_action(), RunAction::Abort { error: CloneError::CloneUnsupported });
    assert_eq!(run.completed(), 0);
}

#[test]
fn failure_in_the_middle_keeps_what_was_done() {
    let mut run = RangeRun::new(WorkRange { start: 6, end: 9 });
    assert_eq!(run.next_action(), RunAction::Clone { index: 6 });
    run.record(Ok(()));
    assert_eq!(run.next_action(), RunAction::Clone { index: 7 });
    run.record(Err(CloneError::IoFailure));
    assert_eq!(run.next_action(), RunAction::Abort { error: CloneError::IoFailure });
    run.record(Err(CloneError::CloneUnsupported));
    assert_eq!(run.next_action(), RunAction::Abort { error: CloneError::IoFailure });
    assert_eq!(run.completed(), 1);
    assert_eq!(run.remaining(), 2);
}

#[test]
fn empty_run_is_complete_from_the_start() {
    let mut run = RangeRun::sequential(0);
    assert_eq!(run.next_action(), RunAction::Complete);
    run.record(Err(CloneError::IoFailure));
    assert_eq!(run.next_action(), RunAction::Complete);
    let backwards = RangeRun::new(WorkRange { start: 9, end: 3 });
    assert_eq!(backwards.next_action(), RunAction::Complete);
    assert_eq!(backwards.completed(), 0);
}

#[test]
fn concurrent_plan_gives_each_worker_its_range() {
    let plan = plan_concurrent_run(10, 4);
    assert_eq!(plan.label, "concurrent_4");
    assert_eq!(plan.permits, 4);
    assert_eq!(plan.ranges.len(), 4);
    let mut performed = Vec::new();
    for range in &plan.ranges {
        let mut run = RangeRun::new(*range);
        while let RunAction::Clone { index } = run.next_action() {
            performed.push(target_name(&plan.label, index));
            run.record(Ok(()));
        }
        assert_eq!(run.completed(), range.len());
    }
    assert_eq!(performed.len(), 10);
    assert_eq!(performed[9], "concurrent_4_9.dat");
    let distinct: HashSet<String> = performed.into_iter().collect();
    assert_eq!(distinct.len(), 10);
}

#[test]
fn concurrent_run_succeeds_when_all_workers_do() {
    let mut run = ConcurrentRun::new(3);
    assert_eq!(run.status(), RunStatus::Running { pending: 3 });
    run.report(2, Ok(()));
    run.report(0, Ok(()));
    assert_eq!(run.status(), RunStatus::Running { pending: 1 });
    run.report(1, Ok(()));
    assert_eq!(run.status(), RunStatus::Succeeded);
    run.report(1, Err(CloneError::IoFailure));
    assert_eq!(run.status(), RunStatus::Succeeded);
}

#[test]
fn failed_worker_is_reported_after_the_others_finish() {
    let mut run = ConcurrentRun::new(4);
    run.report(3, Ok(()));
    run.report(1, Err(CloneError::IoFailure));
    assert_eq!(run.status(), RunStatus::Running { pending: 2 });
    run.report(0, Err(CloneError::CloneUnsupported));
    assert_eq!(run.status(), RunStatus::Running { pending: 1 });
    run.report(2, Ok(()));
    assert_eq!(
        run.status(),
        RunStatus::Failed {
            error: BenchmarkError::WorkerFailure { worker: 1, cause: CloneError::IoFailure }
        }
    );
}

#[test]
fn run_without_workers_has_succeeded() {
    let run = ConcurrentRun::new(0);
    assert_eq!(run.status(), RunStatus::Succeeded);
}

#[test]
fn errors_of_clone_operations_become_errors_of_runs() {
    assert_eq!(
        BenchmarkError::from_clone(CloneError::CloneUnsupported),
        BenchmarkError::CloneUnsupported
    );
    assert_eq!(BenchmarkError::from_clone(CloneError::IoFailure), BenchmarkError::IoFailure);
    assert!(BenchmarkError::CloneUnsupported.is_clone_unsupported());
    assert!(!BenchmarkError::IoFailure.is_clone_unsupported());
    assert!(BenchmarkError::WorkerFailure { worker: 3, cause: CloneError::CloneUnsupported }
        .is_clone_unsupported());
    assert!(!BenchmarkError::WorkerFailure { worker: 3, cause: CloneError::IoFailure }
        .is_clone_unsupported());
}

#[test]
fn errors_say_what_went_wrong() {
    assert_eq!(
        CloneError::CloneUnsupported.description(),
        "the filesystem does not support reflinks"
    );
    assert_eq!(CloneError::IoFailure.description(), "a file operation failed");
    assert_eq!(
        BenchmarkError::CloneUnsupported.description(),
        "the filesystem does not support reflinks"
    );
    assert_eq!(BenchmarkError::IoFailure.description(), "a file operation failed");
    assert_eq!(
        BenchmarkError::WorkerFailure { worker: 17, cause: CloneError::IoFailure }.description(),
        "worker 17: a file operation failed"
    );
    assert_eq!(
        BenchmarkError::WorkerFailure { worker: 0, cause: CloneError::CloneUnsupported }
            .description(),
        "worker 0: the filesystem does not support reflinks"
    );
}

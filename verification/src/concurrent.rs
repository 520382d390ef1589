//! A run whose operations are spread over concurrent workers.
//!
//! The operations are split between the workers before the run starts. Each
//! worker goes through its own range like a sequential run does, and a limiter
//! with as many permits as there are workers bounds how many operations are
//! in flight at once. When a worker fails, the others are not stopped: they
//! finish what they were given, and only then does the run report the
//! failure. [`ConcurrentRun`] collects the workers' reports and says when the
//! run is over and how it ended.

use crate::error::BenchmarkError;
use crate::naming::{concurrent_label, concurrent_label_of};
use crate::partition::{
    assigned, covers_once, lemma_operation_has_one_owner, lemma_range_bounds, owner, partition,
    range_of, tiles, WorkRange,
};
use crate::runner::{
    lemma_run_performs_every_operation, successes, OperationOutcome, RunAction, RunState,
};
use vstd::prelude::*;

verus! {

/// What a concurrent run needs before its workers are started.
pub struct ConcurrentPlan {
    /// The label under which the run's files are named.
    pub label: String,
    /// The number of permits of the limiter: at most this many operations are in
    /// flight at any time.
    pub permits: u32,
    /// The range of each worker, in worker order.
    pub ranges: Vec<WorkRange>,
}

/// How a concurrent run stands.
#[derive(Clone, Copy, Debug, PartialEq, Eq, Structural)]
pub enum RunStatus {
    /// Not every worker has reported yet.
    Running { pending: u32 },
    /// Every worker has finished its range without a failure.
    Succeeded,
    /// Every worker has reported, and at least one of them failed.
    Failed { error: BenchmarkError },
}

/// The report of one worker: its number and how its range went.
pub struct WorkerReport {
    pub worker: u32,
    pub outcome: OperationOutcome,
}

/// The reports collected so far: `workers` workers were started, `reported`
/// of them have finished, and `failure` holds the first failure among them.
pub struct TallyState {
    pub workers: nat,
    pub reported: nat,
    pub failure: Option<BenchmarkError>,
}

impl WorkerReport {
    /// The error that the run takes from this report, if it is a failure.
    pub open spec fn error(self) -> Option<BenchmarkError> {
        match self.outcome {
            Ok(_) => None,
            Err(cause) => Some(BenchmarkError::WorkerFailure { worker: self.worker, cause }),
        }
    }
}

impl TallyState {
    /// Whether no more workers have reported than were started.
    pub open spec fn valid(self) -> bool {
        self.reported <= self.workers <= u32::MAX
    }

    /// The tally of a run with `workers` workers before any has reported.
    pub open spec fn begin(workers: nat) -> TallyState {
        TallyState { workers, reported: 0, failure: None }
    }

    /// How the run stands. While a worker is still at work the run is
    /// running, whatever the others have reported.
    pub open spec fn status(self) -> RunStatus {
        if self.reported < self.workers {
            RunStatus::Running { pending: (self.workers - self.reported) as u32 }
        } else {
            match self.failure {
                None => RunStatus::Succeeded,
                Some(error) => RunStatus::Failed { error },
            }
        }
    }

    /// The tally after one more worker has reported. The first failure is
    /// kept; later ones do not replace it. Reports beyond the number of
    /// workers are ignored.
    pub open spec fn step(self, report: WorkerReport) -> TallyState {
        if self.reported < self.workers {
            TallyState {
                reported: self.reported + 1,
                failure: if self.failure is Some {
                    self.failure
                } else {
                    report.error()
                },
                ..self
            }
        } else {
            self
        }
    }

    /// The tally after the reports of `reports`, first to last.
    pub open spec fn after(self, reports: Seq<WorkerReport>) -> TallyState
        decreases reports.len(),
    {
        if reports.len() == 0 {
            self
        } else {
            self.after(reports.drop_last()).step(reports.last())
        }
    }
}

/// Whether `reports[at]` is the first failure among `reports`.
pub open spec fn first_failure_at(reports: Seq<WorkerReport>, at: int) -> bool {
    &&& 0 <= at < reports.len()
    &&& reports[at].outcome is Err
    &&& forall|earlier: int| 0 <= earlier < at ==> (#[trigger] reports[earlier]).outcome is Ok
}

/// The tally after some of the workers have reported: it counts the reports
/// and holds the first failure among them, if there is one.
pub proof fn lemma_tally_counts(workers: nat, reports: Seq<WorkerReport>)
    requires
        reports.len() <= workers,
    ensures
        ({
            let tally = TallyState::begin(workers).after(reports);
            &&& tally.workers == workers
            &&& tally.reported == reports.len()
            &&& tally.failure is None <==> forall|i: int|
                0 <= i < reports.len() ==> (#[trigger] reports[i]).outcome is Ok
            &&& tally.failure is Some ==> exists|at: int|
                first_failure_at(reports, at) && tally.failure == (#[trigger] reports[at]).error()
        }),
    decreases reports.len(),
{
    if reports.len() > 0 {
        let earlier = reports.drop_last();
        lemma_tally_counts(workers, earlier);
        let before = TallyState::begin(workers).after(earlier);
        let tally = before.step(reports.last());
        assert(TallyState::begin(workers).after(reports) == tally);
        assert forall|i: int| 0 <= i < earlier.len() implies earlier[i] == reports[i] by {}
        if before.failure is Some {
            let at = choose|at: int|
                first_failure_at(earlier, at) && before.failure == (#[trigger] earlier[at]).error();
            assert(first_failure_at(reports, at));
            assert(reports[at].outcome is Err);
        } else {
            assert forall|i: int| 0 <= i < earlier.len() implies (#[trigger] reports[i]).outcome is Ok by {
                assert(earlier[i].outcome is Ok);
            }
            if reports.last().outcome is Err {
                let at = reports.len() - 1;
                assert(first_failure_at(reports, at));
                assert(tally.failure == reports[at].error());
            } else {
                assert forall|i: int| 0 <= i < reports.len() implies (#[trigger] reports[i]).outcome is Ok by {
                    if i < earlier.len() {
                        assert(earlier[i].outcome is Ok);
                    }
                }
            }
        }
    }
}

/// A failure is held back until every worker has reported: as long as one
/// worker is still at work the run is running, even if another has failed.
pub proof fn lemma_run_waits_for_all_workers(workers: nat, reports: Seq<WorkerReport>)
    requires
        reports.len() < workers <= u32::MAX,
    ensures
        TallyState::begin(workers).after(reports).status() == (RunStatus::Running {
            pending: (workers - reports.len()) as u32,
        }),
{
    lemma_tally_counts(workers, reports);
}

/// Once every worker has reported, the run has succeeded exactly if every
/// worker has; otherwise it has failed with the failure that was reported
/// first.
pub proof fn lemma_run_outcome(workers: nat, reports: Seq<WorkerReport>)
    requires
        reports.len() == workers,
    ensures
        TallyState::begin(workers).after(reports).status() == RunStatus::Succeeded <==> forall|
            i: int,
        |
            0 <= i < reports.len() ==> (#[trigger] reports[i]).outcome is Ok,
        TallyState::begin(workers).after(reports).status() != RunStatus::Succeeded ==> exists|
            at: int,
        |
            first_failure_at(reports, at) && TallyState::begin(workers).after(reports).status() == (
            RunStatus::Failed { error: (#[trigger] reports[at]).error()->Some_0 }),
{
    lemma_tally_counts(workers, reports);
    let tally = TallyState::begin(workers).after(reports);
    if tally.failure is Some {
        let at = choose|at: int|
            first_failure_at(reports, at) && tally.failure == (#[trigger] reports[at]).error();
        assert(first_failure_at(reports, at) && tally.status() == (RunStatus::Failed {
            error: reports[at].error()->Some_0,
        }));
    }
}

/// When no operation fails, the workers of a concurrent run perform every
/// operation between them: operation `index` is performed by its owner, as
/// the owner's operation number `index - start`, counted from 0 within the
/// owner's range.
pub proof fn lemma_workers_perform_every_operation(count: u32, workers: u32, index: u32)
    requires
        workers >= 1,
        index < count,
    ensures
        ({
            let worker = owner(count as nat, workers as nat, index as nat);
            let range = range_of(count, workers, worker as u32);
            &&& worker < workers
            &&& range.contains(index as int)
            &&& RunState::begin(range).after(successes((index - range.start) as nat)).action() == (
            RunAction::Clone { index })
        }),
{
    let worker = owner(count as nat, workers as nat, index as nat);
    let range = range_of(count, workers, worker as u32);
    lemma_operation_has_one_owner(count as nat, workers as nat, index as nat);
    lemma_range_bounds(count as nat, workers as nat, worker);
    lemma_run_performs_every_operation(range, (index - range.start) as nat);
}

/// The reports of the workers of one concurrent run.
pub struct ConcurrentRun {
    workers: u32,
    reported: u32,
    failure: Option<BenchmarkError>,
}

impl View for ConcurrentRun {
    type V = TallyState;

    closed spec fn view(&self) -> TallyState {
        TallyState {
            workers: self.workers as nat,
            reported: self.reported as nat,
            failure: self.failure,
        }
    }
}

impl ConcurrentRun {
    #[verifier::type_invariant]
    spec fn within_workers(self) -> bool {
        self.reported <= self.workers
    }

    /// The tally of a run with `workers` workers, none of which has reported.
    pub fn new(workers: u32) -> (run: ConcurrentRun)
        ensures
            run@ == TallyState::begin(workers as nat),
            run@.valid(),
    {
        ConcurrentRun { workers, reported: 0, failure: None }
    }

    /// Records that worker `worker` has finished, and how.
    pub fn report(&mut self, worker: u32, outcome: OperationOutcome)
        ensures
            final(self)@ == old(self)@.step(WorkerReport { worker, outcome }),
            final(self)@.valid(),
    {
        proof {
            use_type_invariant(&*self);
        }
        if self.reported < self.workers {
            self.reported = self.reported + 1;
            if self.failure.is_none() {
                match outcome {
                    Ok(_) => {},
                    Err(cause) => {
                        self.failure = Some(BenchmarkError::WorkerFailure { worker, cause });
                    },
                }
            }
        }
    }

    /// How the run stands.
    pub fn status(&self) -> (status: RunStatus)
        ensures
            status == self@.status(),
    {
        proof {
            use_type_invariant(self);
        }
        if self.reported < self.workers {
            RunStatus::Running { pending: self.workers - self.reported }
        } else {
            match self.failure {
                None => RunStatus::Succeeded,
                Some(error) => RunStatus::Failed { error },
            }
        }
    }
}

/// Plans the concurrent run of `count` operations with `workers` workers: the
/// limiter gets exactly `workers` permits, every worker gets its range, and the
/// files are named after the number of workers.
pub fn plan_concurrent_run(count: u32, workers: u32) -> (plan: ConcurrentPlan)
    requires
        workers >= 1,
    ensures
        plan.label@ == concurrent_label_of(workers as nat),
        plan.permits == workers,
        plan.ranges@.len() == workers,
        forall|w: int|
            0 <= w < workers ==> #[trigger] plan.ranges@[w] == range_of(count, workers, w as u32),
        tiles(plan.ranges@, count as nat),
        covers_once(plan.ranges@, count as nat),
        assigned(plan.ranges@, workers as nat) == count,
{
    ConcurrentPlan {
        label: concurrent_label(workers),
        permits: workers,
        ranges: partition(count, workers),
    }
}

} // verus!

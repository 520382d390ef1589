//! The benchmark of one filesystem, from the source file to the result.
//!
//! A benchmark has three stages: the source file is written, the operations
//! are run one after another, and the sweep over the concurrency levels is
//! run. A stage that fails ends the benchmark; there is no partial result.
//! When all three have succeeded, the result is put together from the
//! configuration, the time of the sequential run and the result of the sweep.

use crate::error::BenchmarkError;
use crate::runner::RangeRun;
use crate::runner::RunState;
use crate::partition::WorkRange;
use crate::sweep::{canonical_levels, ConcurrentBenchmarkResult, Sweep, SweepState};
use crate::timing::{
    average_per_operation, megabytes_per_second, operations_per_second, rate_of, throughput_of,
    Ratio, TimingSample,
};
use vstd::prelude::*;
use vstd::string::*;

verus! {

/// What is measured: the size of the source file in megabytes, and the number
/// of clone operations of each run.
#[derive(Clone, Copy, Debug, PartialEq, Eq, Structural)]
pub struct BenchmarkConfig {
    pub file_size_mb: u64,
    pub reflink_count: u32,
}

/// What was measured on one filesystem.
#[derive(Clone, Debug)]
pub struct BenchmarkResult {
    /// The name of the filesystem; `unknown` until the caller sets it.
    pub filesystem: String,
    pub file_size_mb: u64,
    pub reflink_count: u32,
    /// The time of the sequential run.
    pub total_duration: TimingSample,
    /// The time of the sequential run divided by the number of operations.
    pub avg_reflink_time: TimingSample,
    /// What the sweep over the concurrency levels found.
    pub concurrent_results: ConcurrentBenchmarkResult,
    /// Megabytes per second of the sequential run.
    pub throughput_mb_per_sec: Ratio,
    /// Operations per second of the sequential run.
    pub operations_per_sec: Ratio,
}

/// The stages of a benchmark, in order.
#[derive(Clone, Copy, Debug, PartialEq, Eq, Structural)]
pub enum Stage {
    CreateSource,
    Sequential,
    Sweep,
}

/// The stage at which a benchmark failed, and why.
#[derive(Clone, Copy, Debug, PartialEq, Eq, Structural)]
pub struct StageFailure {
    pub stage: Stage,
    pub error: BenchmarkError,
}

/// What a benchmark asks its driver to do next.
#[derive(Clone, Copy, Debug, PartialEq, Eq, Structural)]
pub enum BenchmarkStep {
    /// Carry out this stage and report how it went.
    Run { stage: Stage },
    /// All stages have succeeded: take the result.
    Report,
    /// A stage has failed: report the failure and carry out no other stage.
    Abort { failure: StageFailure },
}

/// How a stage went.
pub enum StageOutcome {
    /// The source file has been written.
    SourceCreated,
    /// The sequential run has succeeded and took this long.
    SequentialTimed(TimingSample),
    /// The sweep has run every level.
    SweepCompleted(ConcurrentBenchmarkResult),
    /// The stage has failed.
    Failed(BenchmarkError),
}

/// Where a benchmark stands: which stages have succeeded, with what they
/// brought, and the failure that ended it, if one did.
pub struct BenchmarkState {
    pub config: BenchmarkConfig,
    pub source_ready: bool,
    pub sequential: Option<TimingSample>,
    pub concurrent: Option<ConcurrentBenchmarkResult>,
    pub failure: Option<StageFailure>,
}

impl Stage {
    /// The name of the stage, in words.
    pub open spec fn description_of(self) -> Seq<char> {
        match self {
            Stage::CreateSource => "creating the source file"@,
            Stage::Sequential => "the sequential run"@,
            Stage::Sweep => "the sweep over the concurrency levels"@,
        }
    }

    /// The name of the stage, in words.
    pub fn description(&self) -> (text: &'static str)
        ensures
            text@ == self.description_of(),
    {
        match self {
            Stage::CreateSource => "creating the source file",
            Stage::Sequential => "the sequential run",
            Stage::Sweep => "the sweep over the concurrency levels",
        }
    }
}

impl StageFailure {
    /// What the failure says, in words: the stage, then the error.
    pub open spec fn description_of(self) -> Seq<char> {
        self.stage.description_of() + " failed: "@ + self.error.description_of()
    }

    /// What the failure says, in words: which stage failed, and why.
    pub fn description(&self) -> (text: String)
        ensures
            text@ == self.description_of(),
    {
        let mut text = String::from_str(self.stage.description());
        text.append(" failed: ");
        text.append(self.error.description().as_str());
        text
    }
}

/// The name that a result carries until its filesystem is set.
pub open spec fn unknown_filesystem() -> Seq<char> {
    seq!['u', 'n', 'k', 'n', 'o', 'w', 'n']
}

impl BenchmarkConfig {
    /// Whether the configuration can be benchmarked: the source file is not
    /// empty and every run has at least one operation.
    pub open spec fn valid(self) -> bool {
        self.file_size_mb > 0 && self.reflink_count > 0
    }

    /// The size of the source file in bytes: a megabyte is 1024 * 1024 bytes.
    pub open spec fn file_size_bytes_of(self) -> nat {
        (self.file_size_mb * 1_048_576) as nat
    }

    /// The size of the source file in bytes.
    pub fn file_size_bytes(&self) -> (bytes: u128)
        ensures
            bytes == self.file_size_bytes_of(),
    {
        self.file_size_mb as u128 * 1_048_576
    }

    /// Whether the source file is not empty and every run has at least one
    /// operation.
    pub fn is_valid(&self) -> (ok: bool)
        ensures
            ok == self.valid(),
    {
        self.file_size_mb > 0 && self.reflink_count > 0
    }
}

impl BenchmarkResult {
    /// Whether this is the result of a benchmark with configuration `config`
    /// whose sequential run took `sequential` and whose sweep found
    /// `concurrent`.
    pub open spec fn assembled_from(
        self,
        config: BenchmarkConfig,
        sequential: TimingSample,
        concurrent: ConcurrentBenchmarkResult,
    ) -> bool {
        &&& self.filesystem@ == unknown_filesystem()
        &&& self.file_size_mb == config.file_size_mb
        &&& self.reflink_count == config.reflink_count
        &&& self.total_duration == sequential
        &&& self.avg_reflink_time.nanos == sequential.nanos / (config.reflink_count as u128)
        &&& self.concurrent_results == concurrent
        &&& self.throughput_mb_per_sec == throughput_of(
            config.file_size_mb,
            config.reflink_count,
            sequential,
        )
        &&& self.operations_per_sec == rate_of(config.reflink_count, sequential)
    }

    /// Names the filesystem that the result belongs to.
    pub fn set_filesystem(&mut self, name: String)
        ensures
            final(self).filesystem == name,
            final(self).file_size_mb == old(self).file_size_mb,
            final(self).reflink_count == old(self).reflink_count,
            final(self).total_duration == old(self).total_duration,
            final(self).avg_reflink_time == old(self).avg_reflink_time,
            final(self).concurrent_results == old(self).concurrent_results,
            final(self).throughput_mb_per_sec == old(self).throughput_mb_per_sec,
            final(self).operations_per_sec == old(self).operations_per_sec,
    {
        self.filesystem = name;
    }
}

impl BenchmarkState {
    /// The state of a benchmark before its first stage.
    pub open spec fn begin(config: BenchmarkConfig) -> BenchmarkState {
        BenchmarkState {
            config,
            source_ready: false,
            sequential: None,
            concurrent: None,
            failure: None,
        }
    }

    /// What the driver has to do in this state. The stages follow one
    /// another: source file, sequential run, sweep.
    pub open spec fn due(self) -> BenchmarkStep {
        match self.failure {
            Some(failure) => BenchmarkStep::Abort { failure },
            None => if !self.source_ready {
                BenchmarkStep::Run { stage: Stage::CreateSource }
            } else if self.sequential is None {
                BenchmarkStep::Run { stage: Stage::Sequential }
            } else if self.concurrent is None {
                BenchmarkStep::Run { stage: Stage::Sweep }
            } else {
                BenchmarkStep::Report
            },
        }
    }

    /// The state after the stage that was due has gone as `outcome` says. A
    /// failure is kept together with the stage that failed. An outcome that
    /// does not belong to the stage that was due changes nothing, and
    /// neither does any outcome once the benchmark is over.
    pub open spec fn step(self, outcome: StageOutcome) -> BenchmarkState {
        match (self.due(), outcome) {
            (BenchmarkStep::Run { stage }, StageOutcome::Failed(error)) => BenchmarkState {
                failure: Some(StageFailure { stage, error }),
                ..self
            },
            (BenchmarkStep::Run { stage: Stage::CreateSource }, StageOutcome::SourceCreated) => {
                BenchmarkState { source_ready: true, ..self }
            },
            (
                BenchmarkStep::Run { stage: Stage::Sequential },
                StageOutcome::SequentialTimed(elapsed),
            ) => BenchmarkState { sequential: Some(elapsed), ..self },
            (BenchmarkStep::Run { stage: Stage::Sweep }, StageOutcome::SweepCompleted(found)) => {
                BenchmarkState { concurrent: Some(found), ..self }
            },
            _ => self,
        }
    }
}

/// A benchmark whose stages all succeed carries them out in order and then
/// reports; it holds what the stages brought.
pub proof fn lemma_stages_follow_in_order(
    config: BenchmarkConfig,
    elapsed: TimingSample,
    found: ConcurrentBenchmarkResult,
)
    ensures
        ({
            let start = BenchmarkState::begin(config);
            let sourced = start.step(StageOutcome::SourceCreated);
            let timed = sourced.step(StageOutcome::SequentialTimed(elapsed));
            let swept = timed.step(StageOutcome::SweepCompleted(found));
            &&& start.due() == (BenchmarkStep::Run { stage: Stage::CreateSource })
            &&& sourced.due() == (BenchmarkStep::Run { stage: Stage::Sequential })
            &&& timed.due() == (BenchmarkStep::Run { stage: Stage::Sweep })
            &&& swept.due() == BenchmarkStep::Report
            &&& swept.sequential == Some(elapsed)
            &&& swept.concurrent == Some(found)
        }),
{
}

/// A failed stage ends the benchmark: whatever is recorded after it, the
/// benchmark stays aborted with the stage and the error of that failure.
pub proof fn lemma_stage_failure_is_final(
    state: BenchmarkState,
    error: BenchmarkError,
    later: StageOutcome,
)
    requires
        state.due() is Run,
    ensures
        state.step(StageOutcome::Failed(error)).due() == (BenchmarkStep::Abort {
            failure: StageFailure { stage: state.due()->stage, error },
        }),
        state.step(StageOutcome::Failed(error)).step(later) == state.step(
            StageOutcome::Failed(error),
        ),
{
}

/// Runs the benchmark of one filesystem.
pub struct BenchmarkRunner {
    mount_point: String,
    config: BenchmarkConfig,
}

impl BenchmarkRunner {
    /// The directory in which the benchmark's files are created.
    pub closed spec fn mount_point_of(&self) -> Seq<char> {
        self.mount_point@
    }

    /// The configuration of the benchmark.
    pub closed spec fn config_of(&self) -> BenchmarkConfig {
        self.config
    }

    /// A runner for the filesystem mounted at `mount_point`.
    pub fn new(mount_point: &str, config: BenchmarkConfig) -> (runner: BenchmarkRunner)
        ensures
            runner.mount_point_of() == mount_point@,
            runner.config_of() == config,
    {
        BenchmarkRunner { mount_point: String::from_str(mount_point), config }
    }

    /// The directory in which the benchmark's files are created.
    pub fn mount_point(&self) -> (path: &str)
        ensures
            path@ == self.mount_point_of(),
    {
        self.mount_point.as_str()
    }

    /// The configuration of the benchmark.
    pub fn config(&self) -> (config: BenchmarkConfig)
        ensures
            config == self.config_of(),
    {
        self.config
    }

    /// The sequential run of this benchmark: every operation, from index 0
    /// on.
    pub fn sequential_run(&self) -> (run: RangeRun)
        ensures
            run@ == RunState::begin(WorkRange { start: 0, end: self.config_of().reflink_count }),
    {
        RangeRun::sequential(self.config.reflink_count)
    }

    /// The sweep of this benchmark, over the canonical levels.
    pub fn sweep(&self) -> (sweep: Sweep)
        ensures
            sweep@ == SweepState::begin(self.config_of().reflink_count, canonical_levels()),
    {
        Sweep::new(self.config.reflink_count)
    }

    /// The stages of this benchmark, none of them carried out yet. There is
    /// none for a configuration that cannot be benchmarked.
    pub fn start(&self) -> (progress: Option<Benchmark>)
        ensures
            progress is Some <==> self.config_of().valid(),
            progress is Some ==> progress->Some_0@ == BenchmarkState::begin(self.config_of()),
    {
        Benchmark::new(self.config)
    }

    /// Puts the result together: the configuration, the time of the
    /// sequential run, the average time of one operation, the rates of the
    /// sequential run, and what the sweep found.
    pub fn assemble_result(
        &self,
        sequential: TimingSample,
        concurrent: ConcurrentBenchmarkResult,
    ) -> (result: BenchmarkResult)
        requires
            self.config_of().reflink_count > 0,
        ensures
            result.assembled_from(self.config_of(), sequential, concurrent),
    {
        assemble(self.config, sequential, concurrent)
    }
}

/// Puts the result of a benchmark together from its configuration, the time
/// of its sequential run and the result of its sweep.
pub fn assemble(
    config: BenchmarkConfig,
    sequential: TimingSample,
    concurrent: ConcurrentBenchmarkResult,
) -> (result: BenchmarkResult)
    requires
        config.reflink_count > 0,
    ensures
        result.assembled_from(config, sequential, concurrent),
{
    proof {
        reveal_strlit("unknown");
    }
    let filesystem = String::from_str("unknown");
    assert(filesystem@ =~= unknown_filesystem());
    BenchmarkResult {
        filesystem,
        file_size_mb: config.file_size_mb,
        reflink_count: config.reflink_count,
        total_duration: sequential,
        avg_reflink_time: average_per_operation(sequential, config.reflink_count),
        concurrent_results: concurrent,
        throughput_mb_per_sec: megabytes_per_second(
            config.file_size_mb,
            config.reflink_count,
            sequential,
        ),
        operations_per_sec: operations_per_second(config.reflink_count, sequential),
    }
}

/// The stages of one benchmark.
pub struct Benchmark {
    config: BenchmarkConfig,
    source_ready: bool,
    sequential: Option<TimingSample>,
    concurrent: Option<ConcurrentBenchmarkResult>,
    failure: Option<StageFailure>,
}

impl View for Benchmark {
    type V = BenchmarkState;

    closed spec fn view(&self) -> BenchmarkState {
        BenchmarkState {
            config: self.config,
            source_ready: self.source_ready,
            sequential: self.sequential,
            concurrent: self.concurrent,
            failure: self.failure,
        }
    }
}

impl Benchmark {
    #[verifier::type_invariant]
    spec fn runnable(self) -> bool {
        self.config.valid()
    }

    /// The stages of a benchmark with configuration `config`, none of them
    /// carried out yet. There is none for a configuration that cannot be
    /// benchmarked.
    pub fn new(config: BenchmarkConfig) -> (progress: Option<Benchmark>)
        ensures
            progress is Some <==> config.valid(),
            progress is Some ==> progress->Some_0@ == BenchmarkState::begin(config),
    {
        if config.is_valid() {
            Some(
                Benchmark {
                    config,
                    source_ready: false,
                    sequential: None,
                    concurrent: None,
                    failure: None,
                },
            )
        } else {
            None
        }
    }

    /// What the driver has to do next.
    pub fn next_step(&self) -> (step: BenchmarkStep)
        ensures
            step == self@.due(),
    {
        match self.failure {
            Some(failure) => BenchmarkStep::Abort { failure },
            None => if !self.source_ready {
                BenchmarkStep::Run { stage: Stage::CreateSource }
            } else if self.sequential.is_none() {
                BenchmarkStep::Run { stage: Stage::Sequential }
            } else if self.concurrent.is_none() {
                BenchmarkStep::Run { stage: Stage::Sweep }
            } else {
                BenchmarkStep::Report
            },
        }
    }

    /// Records how the stage that was due went, and gives the benchmark back.
    pub fn record(self, outcome: StageOutcome) -> (next: Benchmark)
        ensures
            next@ == self@.step(outcome),
    {
        proof {
            use_type_invariant(&self);
        }
        let due = self.next_step();
        let Benchmark { config, source_ready, sequential, concurrent, failure } = self;
        match due {
            BenchmarkStep::Run { stage } => match outcome {
                StageOutcome::Failed(error) => Benchmark {
                    config,
                    source_ready,
                    sequential,
                    concurrent,
                    failure: Some(StageFailure { stage, error }),
                },
                StageOutcome::SourceCreated => match stage {
                    Stage::CreateSource => Benchmark {
                        config,
                        source_ready: true,
                        sequential,
                        concurrent,
                        failure,
                    },
                    _ => Benchmark { config, source_ready, sequential, concurrent, failure },
                },
                StageOutcome::SequentialTimed(elapsed) => match stage {
                    Stage::Sequential => Benchmark {
                        config,
                        source_ready,
                        sequential: Some(elapsed),
                        concurrent,
                        failure,
                    },
                    _ => Benchmark { config, source_ready, sequential, concurrent, failure },
                },
                StageOutcome::SweepCompleted(found) => match stage {
                    Stage::Sweep => Benchmark {
                        config,
                        source_ready,
                        sequential,
                        concurrent: Some(found),
                        failure,
                    },
                    _ => Benchmark { config, source_ready, sequential, concurrent, failure },
                },
            },
            _ => Benchmark { config, source_ready, sequential, concurrent, failure },
        }
    }

    /// How the benchmark ended: the result once all stages have succeeded,
    /// the failure once one has failed, and nothing while a stage is still to
    /// be carried out.
    pub fn finish(self) -> (end: Option<Result<BenchmarkResult, StageFailure>>)
        ensures
            match self@.due() {
                BenchmarkStep::Run { stage } => end is None,
                BenchmarkStep::Abort { failure } => end == Some(
                    Err::<BenchmarkResult, StageFailure>(failure),
                ),
                BenchmarkStep::Report => end matches Some(Ok(result)) && result.assembled_from(
                    self@.config,
                    self@.sequential->Some_0,
                    self@.concurrent->Some_0,
                ),
            },
    {
        proof {
            use_type_invariant(&self);
        }
        let Benchmark { config, source_ready, sequential, concurrent, failure } = self;
        match failure {
            Some(failure) => Some(Err(failure)),
            None => {
                if !source_ready {
                    return None;
                }
                match sequential {
                    None => None,
                    Some(elapsed) => match concurrent {
                        None => None,
                        Some(found) => Some(Ok(assemble(config, elapsed, found))),
                    },
                }
            },
        }
    }
}

} // verus!

//! The sweep over concurrency levels.
//!
//! The concurrent run is repeated once per level, from few workers to many,
//! on the same source file and with the same number of operations. The runs
//! follow one another, so that no two of them disturb each other's times. The
//! first level is a single worker; its time is the baseline that the others
//! are measured against. A failed run ends the sweep, and nothing of it is
//! reported.

use crate::error::BenchmarkError;
use crate::timing::{
    contention_of, contention_ratio, lemma_baseline_ratio_is_one,
    lemma_contention_is_rate_quotient, operations_per_second, rate_of, Ratio, TimingSample,
};
use vstd::prelude::*;

verus! {

/// What the sweep asks its driver to do next.
#[derive(Clone, Copy, Debug, PartialEq, Eq, Structural)]
pub enum SweepAction {
    /// Run all operations with this many workers and report the time.
    RunLevel { workers: u32 },
    /// Every level has been run: take the result.
    Finish,
    /// A run has failed: report the error and run no further level.
    Abort { error: BenchmarkError },
}

/// How the run of one level went.
pub type LevelOutcome = Result<TimingSample, BenchmarkError>;

/// What the sweep found: for each level, in the order in which the levels
/// were run, the number of workers, the time of the run, its rate in
/// operations per second, and how much slower it was than the first level.
#[derive(Clone, Debug)]
pub struct ConcurrentBenchmarkResult {
    pub thread_counts: Vec<u32>,
    pub durations: Vec<TimingSample>,
    pub operations_per_sec: Vec<Ratio>,
    pub contention_ratios: Vec<Ratio>,
}

/// Where a sweep stands: `count` operations per run, the levels to run, the
/// times of the levels run so far, and the error of the run that failed, if
/// one did.
pub struct SweepState {
    pub count: u32,
    pub levels: Seq<u32>,
    pub durations: Seq<TimingSample>,
    pub failure: Option<BenchmarkError>,
}

/// The levels that a sweep runs unless it is given others.
pub open spec fn canonical_levels() -> Seq<u32> {
    seq![1u32, 2u32, 4u32, 8u32, 16u32, 32u32, 64u32, 128u32]
}

/// Whether `levels` can be swept: it begins with a single worker, the
/// baseline, and every level has more workers than the one before it.
pub open spec fn sweepable(levels: Seq<u32>) -> bool {
    &&& levels.len() >= 1
    &&& levels[0] == 1
    &&& forall|i: int, j: int| 0 <= i < j < levels.len() ==> levels[i] < levels[j]
}

impl ConcurrentBenchmarkResult {
    /// Whether this is the result of a sweep of `count` operations over
    /// `levels` whose runs took `durations`: one entry per level in each of
    /// the four lists, the rate of each run computed from its time, and the
    /// contention ratio of each run taken against the first.
    pub open spec fn describes(
        self,
        count: u32,
        levels: Seq<u32>,
        durations: Seq<TimingSample>,
    ) -> bool {
        &&& levels.len() == durations.len()
        &&& self.thread_counts@ == levels
        &&& self.durations@ == durations
        &&& self.operations_per_sec@.len() == levels.len()
        &&& self.contention_ratios@.len() == levels.len()
        &&& forall|i: int|
            0 <= i < levels.len() ==> #[trigger] self.operations_per_sec@[i] == rate_of(
                count,
                durations[i],
            )
        &&& forall|i: int|
            0 <= i < levels.len() ==> #[trigger] self.contention_ratios@[i] == contention_of(
                durations[0],
                durations[i],
            )
    }

    /// Whether the four lists have one entry per level.
    pub open spec fn consistent(self) -> bool {
        &&& self.durations@.len() == self.thread_counts@.len()
        &&& self.operations_per_sec@.len() == self.thread_counts@.len()
        &&& self.contention_ratios@.len() == self.thread_counts@.len()
    }
}

impl SweepState {
    /// Whether the levels can be swept and no more runs have been timed than
    /// there are levels.
    pub open spec fn valid(self) -> bool {
        sweepable(self.levels) && self.durations.len() <= self.levels.len()
    }

    /// The state of a sweep of `count` operations over `levels` before its
    /// first run.
    pub open spec fn begin(count: u32, levels: Seq<u32>) -> SweepState {
        SweepState { count, levels, durations: Seq::empty(), failure: None }
    }

    /// What the driver has to do in this state: the levels are run in the
    /// order in which they are listed.
    pub open spec fn action(self) -> SweepAction {
        match self.failure {
            Some(error) => SweepAction::Abort { error },
            None => if self.durations.len() < self.levels.len() {
                SweepAction::RunLevel { workers: self.levels[self.durations.len() as int] }
            } else {
                SweepAction::Finish
            },
        }
    }

    /// The state after the run that was due has gone as `outcome` says. A
    /// sweep that is finished or has failed does not change any more.
    pub open spec fn step(self, outcome: LevelOutcome) -> SweepState {
        if self.action() is RunLevel {
            match outcome {
                Ok(elapsed) => SweepState { durations: self.durations.push(elapsed), ..self },
                Err(error) => SweepState { failure: Some(error), ..self },
            }
        } else {
            self
        }
    }

    /// The state after the outcomes of `outcomes`, first to last.
    pub open spec fn after(self, outcomes: Seq<LevelOutcome>) -> SweepState
        decreases outcomes.len(),
    {
        if outcomes.len() == 0 {
            self
        } else {
            self.after(outcomes.drop_last()).step(outcomes.last())
        }
    }
}

/// The outcomes of runs that all succeeded, with the times of `durations`.
pub open spec fn timed(durations: Seq<TimingSample>) -> Seq<LevelOutcome> {
    Seq::new(durations.len(), |i: int| Ok::<TimingSample, BenchmarkError>(durations[i]))
}

/// The canonical levels can be swept.
pub proof fn lemma_canonical_levels_sweepable()
    ensures
        sweepable(canonical_levels()),
        canonical_levels().len() == 8,
{
}

/// A sweep whose runs all succeed runs every level once, in the listed
/// order: after `durations.len()` timed runs the level that is due is the
/// next in the list, and after the last one the sweep is finished and holds
/// the times in the order of the levels.
pub proof fn lemma_sweep_runs_levels_in_order(
    count: u32,
    levels: Seq<u32>,
    durations: Seq<TimingSample>,
)
    requires
        durations.len() <= levels.len(),
    ensures
        ({
            let state = SweepState::begin(count, levels).after(timed(durations));
            &&& state.count == count
            &&& state.levels == levels
            &&& state.durations == durations
            &&& state.failure is None
            &&& durations.len() < levels.len() ==> state.action() == (SweepAction::RunLevel {
                workers: levels[durations.len() as int],
            })
            &&& durations.len() == levels.len() ==> state.action() == SweepAction::Finish
        }),
    decreases durations.len(),
{
    let start = SweepState::begin(count, levels);
    if durations.len() == 0 {
        assert(timed(durations).len() == 0);
        assert(start.after(timed(durations)) == start);
        assert(start.durations =~= durations);
    } else {
        let earlier = durations.drop_last();
        lemma_sweep_runs_levels_in_order(count, levels, earlier);
        let before = start.after(timed(earlier));
        assert(timed(durations).drop_last() =~= timed(earlier));
        assert(timed(durations).last() == Ok::<TimingSample, BenchmarkError>(durations.last()));
        assert(start.after(timed(durations)) == before.step(Ok(durations.last())));
        assert(earlier.push(durations.last()) =~= durations);
    }
}

/// The first failed run ends the sweep: whatever is recorded after it, no
/// further level is run and the error stays the one of the run that failed.
pub proof fn lemma_sweep_failure_is_final(
    state: SweepState,
    error: BenchmarkError,
    later: Seq<LevelOutcome>,
)
    requires
        state.action() is RunLevel,
    ensures
        state.step(Err(error)).after(later) == state.step(Err(error)),
        state.step(Err(error)).after(later).action() == (SweepAction::Abort { error }),
    decreases later.len(),
{
    if later.len() > 0 {
        lemma_sweep_failure_is_final(state, error, later.drop_last());
    }
}

/// The first level is the baseline: its contention ratio has the baseline's
/// time above and below the line, and is exactly 1 unless that time is 0.
/// Every ratio is the quotient of the baseline's rate and the level's rate.
pub proof fn lemma_baseline_has_ratio_one(
    result: ConcurrentBenchmarkResult,
    count: u32,
    levels: Seq<u32>,
    durations: Seq<TimingSample>,
)
    requires
        result.describes(count, levels, durations),
        levels.len() >= 1,
    ensures
        result.contention_ratios@[0].numer == result.contention_ratios@[0].denom,
        durations[0].nanos > 0 ==> result.contention_ratios@[0].is_one(),
        forall|i: int|
            0 <= i < levels.len() ==> (#[trigger] result.contention_ratios@[i]).numer
                * result.operations_per_sec@[i].numer * result.operations_per_sec@[0].denom
                == result.operations_per_sec@[0].numer * result.contention_ratios@[i].denom
                * result.operations_per_sec@[i].denom,
{
    lemma_baseline_ratio_is_one(durations[0]);
    assert forall|i: int| 0 <= i < levels.len() implies (#[trigger] result.contention_ratios@[i]).numer
        * result.operations_per_sec@[i].numer * result.operations_per_sec@[0].denom
        == result.operations_per_sec@[0].numer * result.contention_ratios@[i].denom
        * result.operations_per_sec@[i].denom by {
        assert(result.operations_per_sec@[i] == rate_of(count, durations[i]));
        assert(result.operations_per_sec@[0] == rate_of(count, durations[0]));
        lemma_contention_is_rate_quotient(count, durations[0], durations[i]);
    }
}

/// The levels that a sweep runs unless it is given others: 1, 2, 4, 8, 16,
/// 32, 64 and 128 workers.
pub fn sweep_levels() -> (levels: Vec<u32>)
    ensures
        levels@ == canonical_levels(),
        sweepable(levels@),
{
    let mut levels: Vec<u32> = Vec::new();
    levels.push(1);
    levels.push(2);
    levels.push(4);
    levels.push(8);
    levels.push(16);
    levels.push(32);
    levels.push(64);
    levels.push(128);
    assert(levels@ =~= canonical_levels());
    levels
}

/// Whether `levels` begins with a single worker and rises from level to
/// level.
pub fn can_sweep(levels: &Vec<u32>) -> (ok: bool)
    ensures
        ok == sweepable(levels@),
{
    if levels.len() == 0 {
        return false;
    }
    if levels[0] != 1 {
        return false;
    }
    let mut at: usize = 1;
    while at < levels.len()
        invariant
            1 <= at <= levels.len(),
            forall|i: int, j: int| 0 <= i < j < at ==> levels@[i] < levels@[j],
        decreases levels.len() - at,
    {
        if levels[at - 1] >= levels[at] {
            return false;
        }
        proof {
            assert forall|i: int, j: int| 0 <= i < j < at + 1 implies levels@[i] < levels@[j] by {
                if j == at && i < at - 1 {
                    assert(levels@[i] < levels@[at - 1]);
                }
            }
        }
        at = at + 1;
    }
    true
}

/// The sweep of one benchmark.
pub struct Sweep {
    count: u32,
    levels: Vec<u32>,
    durations: Vec<TimingSample>,
    failure: Option<BenchmarkError>,
}

impl View for Sweep {
    type V = SweepState;

    closed spec fn view(&self) -> SweepState {
        SweepState {
            count: self.count,
            levels: self.levels@,
            durations: self.durations@,
            failure: self.failure,
        }
    }
}

impl Sweep {
    #[verifier::type_invariant]
    spec fn within_levels(self) -> bool {
        sweepable(self.levels@) && self.durations@.len() <= self.levels@.len()
    }

    /// A sweep of `count` operations over the canonical levels.
    pub fn new(count: u32) -> (sweep: Sweep)
        ensures
            sweep@ == SweepState::begin(count, canonical_levels()),
            sweep@.valid(),
    {
        Sweep { count, levels: sweep_levels(), durations: Vec::new(), failure: None }
    }

    /// A sweep of `count` operations over `levels`, if they can be swept.
    pub fn with_levels(count: u32, levels: Vec<u32>) -> (sweep: Option<Sweep>)
        ensures
            sweep is Some <==> sweepable(levels@),
            sweep is Some ==> sweep->Some_0@ == SweepState::begin(count, levels@),
            sweep is Some ==> sweep->Some_0@.valid(),
    {
        if can_sweep(&levels) {
            Some(Sweep { count, levels, durations: Vec::new(), failure: None })
        } else {
            None
        }
    }

    /// What the driver has to do next.
    pub fn next_action(&self) -> (action: SweepAction)
        ensures
            action == self@.action(),
    {
        proof {
            use_type_invariant(self);
        }
        match self.failure {
            Some(error) => SweepAction::Abort { error },
            None => if self.durations.len() < self.levels.len() {
                SweepAction::RunLevel { workers: self.levels[self.durations.len()] }
            } else {
                SweepAction::Finish
            },
        }
    }

    /// Records how the run that was due went, and gives the sweep back.
    pub fn record(self, outcome: LevelOutcome) -> (next: Sweep)
        ensures
            next@ == self@.step(outcome),
            next@.valid(),
    {
        proof {
            use_type_invariant(&self);
        }
        let Sweep { count, levels, mut durations, mut failure } = self;
        if failure.is_none() && durations.len() < levels.len() {
            match outcome {
                Ok(elapsed) => {
                    durations.push(elapsed);
                },
                Err(error) => {
                    failure = Some(error);
                },
            }
        }
        Sweep { count, levels, durations, failure }
    }

    /// The time of the baseline, the run of the first level, once it has been
    /// recorded.
    pub fn baseline(&self) -> (baseline: Option<TimingSample>)
        ensures
            baseline == if self@.durations.len() > 0 {
                Some(self@.durations[0])
            } else {
                None
            },
    {
        if self.durations.len() > 0 {
            Some(self.durations[0])
        } else {
            None
        }
    }

    /// The result of the sweep, once every level has been run: the levels in
    /// ascending order from the baseline on, and for each the time, the rate
    /// and the contention ratio. There is no result while a level is still to
    /// be run, nor after a failure.
    pub fn result(&self) -> (result: Option<ConcurrentBenchmarkResult>)
        ensures
            result is Some <==> self@.action() == SweepAction::Finish,
            result is Some ==> result->Some_0.describes(
                self@.count,
                self@.levels,
                self@.durations,
            ),
            result is Some ==> sweepable(result->Some_0.thread_counts@),
            result is Some ==> result->Some_0.contention_ratios@[0].numer
                == result->Some_0.contention_ratios@[0].denom,
    {
        proof {
            use_type_invariant(self);
        }
        if self.failure.is_some() || self.durations.len() < self.levels.len() {
            return None;
        }
        Some(summarize(self.count, &self.levels, &self.durations))
    }
}

/// Puts the times of a sweep together with the rates and contention ratios
/// that follow from them. The first run is the baseline.
pub fn summarize(count: u32, levels: &Vec<u32>, durations: &Vec<TimingSample>) -> (result:
    ConcurrentBenchmarkResult)
    requires
        levels@.len() == durations@.len(),
    ensures
        result.describes(count, levels@, durations@),
{
    let mut thread_counts: Vec<u32> = Vec::new();
    let mut times: Vec<TimingSample> = Vec::new();
    let mut operations_per_sec: Vec<Ratio> = Vec::new();
    let mut contention_ratios: Vec<Ratio> = Vec::new();
    let mut at: usize = 0;
    while at < levels.len()
        invariant
            at <= levels@.len(),
            levels@.len() == durations@.len(),
            thread_counts@ == levels@.subrange(0, at as int),
            times@ == durations@.subrange(0, at as int),
            operations_per_sec@.len() == at,
            contention_ratios@.len() == at,
            forall|i: int|
                0 <= i < at ==> #[trigger] operations_per_sec@[i] == rate_of(count, durations@[i]),
            forall|i: int|
                0 <= i < at ==> #[trigger] contention_ratios@[i] == contention_of(
                    durations@[0],
                    durations@[i],
                ),
        decreases levels@.len() - at,
    {
        let elapsed = durations[at];
        thread_counts.push(levels[at]);
        times.push(elapsed);
        operations_per_sec.push(operations_per_second(count, elapsed));
        contention_ratios.push(contention_ratio(durations[0], elapsed));
        proof {
            assert(thread_counts@ =~= levels@.subrange(0, at + 1));
            assert(times@ =~= durations@.subrange(0, at + 1));
        }
        at = at + 1;
    }
    proof {
        assert(thread_counts@ =~= levels@);
        assert(times@ =~= durations@);
    }
    ConcurrentBenchmarkResult {
        thread_counts,
        durations: times,
        operations_per_sec,
        contention_ratios,
    }
}

} // verus!

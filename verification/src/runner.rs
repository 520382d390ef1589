//! A run over a range of operations, one after another.
//!
//! The sequential run and every worker of a concurrent run go through their
//! operations in the same way: in ascending order of index, stopping at the
//! first failure. [`RangeRun`] keeps track of where such a run stands. The
//! driver asks it what to do next, performs the clone operation it is told
//! to, and records how the operation went.

use crate::error::CloneError;
use crate::naming::{lemma_target_names_distinct, sequential_label_of, target_name_of};
use crate::partition::WorkRange;
use vstd::prelude::*;

verus! {

/// What a run asks its driver to do next.
#[derive(Clone, Copy, Debug, PartialEq, Eq, Structural)]
pub enum RunAction {
    /// Perform the clone operation with this index.
    Clone { index: u32 },
    /// Every operation has succeeded: stop the timer and report the time.
    Complete,
    /// An operation has failed: report the error and start no other operation.
    Abort { error: CloneError },
}

/// Where a run stands: it goes through the indices from `first` up to, but
/// not including, `limit`; `position` is the index of the next operation; and
/// `failure` holds the error of the operation that failed, if one did.
pub struct RunState {
    pub first: nat,
    pub limit: nat,
    pub position: nat,
    pub failure: Option<CloneError>,
}

/// How an operation went.
pub type OperationOutcome = Result<(), CloneError>;

impl RunState {
    /// Whether the position lies within the range.
    pub open spec fn valid(self) -> bool {
        self.first <= self.position <= self.limit <= u32::MAX
    }

    /// The state of a run over `range` before its first operation. A range
    /// that ends before it starts holds no operation.
    pub open spec fn begin(range: WorkRange) -> RunState {
        RunState {
            first: range.start as nat,
            limit: if range.start <= range.end {
                range.end as nat
            } else {
                range.start as nat
            },
            position: range.start as nat,
            failure: None,
        }
    }

    /// What the driver has to do in this state.
    pub open spec fn action(self) -> RunAction {
        match self.failure {
            Some(error) => RunAction::Abort { error },
            None => if self.position < self.limit {
                RunAction::Clone { index: self.position as u32 }
            } else {
                RunAction::Complete
            },
        }
    }

    /// The state after the operation that was due has gone as `outcome`
    /// says. A success moves the run to the next index; a failure is kept
    /// and ends the run. A run that is complete or has failed does not
    /// change any more.
    pub open spec fn step(self, outcome: OperationOutcome) -> RunState {
        if self.action() is Clone {
            match outcome {
                Ok(_) => RunState { position: self.position + 1, ..self },
                Err(error) => RunState { failure: Some(error), ..self },
            }
        } else {
            self
        }
    }

    /// The state after the outcomes of `outcomes` have been recorded, first
    /// to last.
    pub open spec fn after(self, outcomes: Seq<OperationOutcome>) -> RunState
        decreases outcomes.len(),
    {
        if outcomes.len() == 0 {
            self
        } else {
            self.after(outcomes.drop_last()).step(outcomes.last())
        }
    }

    /// The number of operations that have succeeded.
    pub open spec fn completed(self) -> nat {
        (self.position - self.first) as nat
    }
}

/// `count` successful outcomes.
pub open spec fn successes(count: nat) -> Seq<OperationOutcome> {
    Seq::new(count, |i: int| Ok::<(), CloneError>(()))
}

/// Recording an outcome keeps the range, never moves the position back, and
/// keeps a valid state valid.
pub proof fn lemma_step_keeps_range(state: RunState, outcome: OperationOutcome)
    requires
        state.valid(),
    ensures
        state.step(outcome).valid(),
        state.step(outcome).first == state.first,
        state.step(outcome).limit == state.limit,
        state.position <= state.step(outcome).position <= state.position + 1,
{
}

/// A run whose operations all succeed performs each operation of its range
/// exactly once, in ascending order: after `done` successes the operation
/// that is due is the one with index `first + done`, and once all have
/// succeeded the run is complete.
pub proof fn lemma_run_performs_every_operation(range: WorkRange, done: nat)
    requires
        done <= range.size(),
    ensures
        ({
            let state = RunState::begin(range).after(successes(done));
            &&& state.valid()
            &&& state.failure is None
            &&& state.completed() == done
            &&& state.first == range.start
            &&& state.limit == range.start + range.size()
            &&& state.position == range.start + done
            &&& done < range.size() ==> state.action() == (RunAction::Clone {
                index: (range.start + done) as u32,
            })
            &&& done == range.size() ==> state.action() == RunAction::Complete
        }),
    decreases done,
{
    let start = RunState::begin(range);
    if done == 0 {
        assert(successes(0).len() == 0);
        assert(start.after(successes(0)) == start);
    } else {
        lemma_run_performs_every_operation(range, (done - 1) as nat);
        let before = start.after(successes((done - 1) as nat));
        assert(successes(done).drop_last() =~= successes((done - 1) as nat));
        assert(successes(done).last() == Ok::<(), CloneError>(()));
        assert(start.after(successes(done)) == before.step(Ok(())));
    }
}

/// The sequential run of `count` operations performs exactly `count`
/// operations when none fails, the one with index `done` after `done`
/// successes, and writes each to a file of its own.
pub proof fn lemma_sequential_run_is_complete(count: u32)
    ensures
        forall|done: nat|
            done < count ==> (#[trigger] RunState::begin(WorkRange { start: 0, end: count }).after(
                successes(done),
            )).action() == (RunAction::Clone { index: done as u32 }),
        RunState::begin(WorkRange { start: 0, end: count }).after(
            successes(count as nat),
        ).action() == RunAction::Complete,
        RunState::begin(WorkRange { start: 0, end: count }).after(
            successes(count as nat),
        ).completed() == count,
        forall|i: nat, j: nat|
            i != j ==> #[trigger] target_name_of(sequential_label_of(), i) != #[trigger] target_name_of(
                sequential_label_of(),
                j,
            ),
{
    let range = WorkRange { start: 0, end: count };
    assert forall|done: nat| done < count implies (#[trigger] RunState::begin(range).after(
        successes(done),
    )).action() == (RunAction::Clone { index: done as u32 }) by {
        lemma_run_performs_every_operation(range, done);
    }
    lemma_run_performs_every_operation(range, count as nat);
    assert forall|i: nat, j: nat| i != j implies #[trigger] target_name_of(
        sequential_label_of(),
        i,
    ) != #[trigger] target_name_of(sequential_label_of(), j) by {
        if target_name_of(sequential_label_of(), i) == target_name_of(sequential_label_of(), j) {
            lemma_target_names_distinct(sequential_label_of(), i, sequential_label_of(), j);
        }
    }
}

/// The first failure ends a run: whatever is recorded after it, the run asks
/// for no further operation, keeps reporting the error of the operation that
/// failed, and counts no further success.
pub proof fn lemma_failure_is_final(
    state: RunState,
    error: CloneError,
    later: Seq<OperationOutcome>,
)
    requires
        state.action() is Clone,
    ensures
        state.step(Err(error)).after(later) == state.step(Err(error)),
        state.step(Err(error)).after(later).action() == (RunAction::Abort { error }),
        state.step(Err(error)).after(later).completed() == state.completed(),
    decreases later.len(),
{
    if later.len() > 0 {
        lemma_failure_is_final(state, error, later.drop_last());
    }
}

/// A run over a range of operations.
pub struct RangeRun {
    first: u32,
    limit: u32,
    position: u32,
    failure: Option<CloneError>,
}

impl View for RangeRun {
    type V = RunState;

    closed spec fn view(&self) -> RunState {
        RunState {
            first: self.first as nat,
            limit: self.limit as nat,
            position: self.position as nat,
            failure: self.failure,
        }
    }
}

impl RangeRun {
    #[verifier::type_invariant]
    spec fn within_range(self) -> bool {
        self.first <= self.position <= self.limit
    }

    /// A run over `range` that has not started yet.
    pub fn new(range: WorkRange) -> (run: RangeRun)
        ensures
            run@ == RunState::begin(range),
            run@.valid(),
    {
        let limit: u32 = if range.start <= range.end {
            range.end
        } else {
            range.start
        };
        RangeRun { first: range.start, limit, position: range.start, failure: None }
    }

    /// The sequential run: `count` operations with the indices from 0 on.
    pub fn sequential(count: u32) -> (run: RangeRun)
        ensures
            run@ == RunState::begin(WorkRange { start: 0, end: count }),
            run@.valid(),
    {
        RangeRun::new(WorkRange { start: 0, end: count })
    }

    /// What the driver has to do next.
    pub fn next_action(&self) -> (action: RunAction)
        ensures
            action == self@.action(),
    {
        match self.failure {
            Some(error) => RunAction::Abort { error },
            None => if self.position < self.limit {
                RunAction::Clone { index: self.position }
            } else {
                RunAction::Complete
            },
        }
    }

    /// Records how the operation that was due went.
    pub fn record(&mut self, outcome: OperationOutcome)
        ensures
            final(self)@ == old(self)@.step(outcome),
            final(self)@.valid(),
    {
        proof {
            use_type_invariant(&*self);
        }
        if self.failure.is_none() && self.position < self.limit {
            match outcome {
                Ok(_) => {
                    self.position = self.position + 1;
                },
                Err(error) => {
                    self.failure = Some(error);
                },
            }
        }
    }

    /// The number of operations that have succeeded so far.
    pub fn completed(&self) -> (count: u32)
        ensures
            count == self@.completed(),
    {
        proof {
            use_type_invariant(self);
        }
        self.position - self.first
    }

    /// The number of operations that are still to be performed, if none
    /// fails.
    pub fn remaining(&self) -> (count: u32)
        ensures
            count == self@.limit - self@.position,
    {
        proof {
            use_type_invariant(self);
        }
        self.limit - self.position
    }
}

} // verus!

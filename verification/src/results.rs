//! Comparing the results of the filesystems.
//!
//! Everything here is decided on exact fractions: which filesystem was faster
//! at a level, which one scaled better, which rate was the best. Turning the
//! fractions into decimal numbers for display is left to the caller.

use crate::benchmark::BenchmarkResult;
use crate::filesystem::FilesystemType;
use crate::naming::{decimal, decimal_string};
use crate::sweep::ConcurrentBenchmarkResult;
use crate::timing::{Ratio, TimingSample};
use vstd::prelude::*;
use vstd::string::*;

verus! {

/// `numer / denom` rounded to the nearest whole number, a tie going to the
/// even neighbour.
pub open spec fn round_half_even(numer: nat, denom: nat) -> nat
    recommends
        denom > 0,
{
    let quotient = numer / denom;
    let rest = numer % denom;
    if 2 * rest < denom {
        quotient
    } else if 2 * rest > denom {
        quotient + 1
    } else if quotient % 2 == 0 {
        quotient
    } else {
        quotient + 1
    }
}

/// A time as it is shown. Below a second: whole milliseconds, as in `250ms`.
/// Below a minute: seconds with two decimals, as in `2.50s`. From a minute
/// on: whole minutes, then the seconds of the rest with one decimal, as in
/// `1m30.5s`; the rest is taken in whole milliseconds. Decimals are rounded
/// to the nearest, a tie going to the even neighbour.
pub open spec fn duration_text(nanos: nat) -> Seq<char> {
    let millis = nanos / 1_000_000;
    if millis < 1000 {
        decimal(millis) + "ms"@
    } else if millis < 60_000 {
        let hundredths = round_half_even(nanos, 10_000_000);
        decimal(hundredths / 100) + "."@ + decimal(hundredths % 100 / 10) + decimal(
            hundredths % 10,
        ) + "s"@
    } else {
        let tenths = round_half_even(millis % 60_000, 100);
        decimal(millis / 60_000) + "m"@ + decimal(tenths / 10) + "."@ + decimal(tenths % 10)
            + "s"@
    }
}

/// Divides and rounds to the nearest whole number, a tie going to the even
/// neighbour.
pub fn divide_rounding(numer: u128, denom: u128) -> (rounded: u128)
    requires
        denom > 0,
    ensures
        rounded == round_half_even(numer as nat, denom as nat),
{
    let quotient: u128 = numer / denom;
    let rest: u128 = numer % denom;
    let missing: u128 = denom - rest;
    if rest < missing {
        quotient
    } else {
        proof {
            // The rest is at least half of the divisor, so the divisor is at
            // least 2 and the quotient at most half of what fits.
            assert(denom >= 2);
            assert(quotient <= numer / 2) by (nonlinear_arith)
                requires
                    quotient == numer / denom,
                    denom >= 2,
                    numer >= 0,
            ;
        }
        if rest > missing {
            quotient + 1
        } else if quotient % 2 == 0 {
            quotient
        } else {
            quotient + 1
        }
    }
}

/// Writes a time for display; see [`duration_text`] for the three forms.
pub fn format_duration(duration: TimingSample) -> (text: String)
    ensures
        text@ == duration_text(duration.nanos as nat),
{
    let millis: u128 = duration.nanos / 1_000_000;
    if millis < 1000 {
        let mut text = decimal_string(millis);
        text.append("ms");
        text
    } else if millis < 60_000 {
        let hundredths: u128 = divide_rounding(duration.nanos, 10_000_000);
        let mut text = decimal_string(hundredths / 100);
        text.append(".");
        text.append(decimal_string(hundredths % 100 / 10).as_str());
        text.append(decimal_string(hundredths % 10).as_str());
        text.append("s");
        text
    } else {
        let tenths: u128 = divide_rounding(millis % 60_000, 100);
        let mut text = decimal_string(millis / 60_000);
        text.append("m");
        text.append(decimal_string(tenths / 10).as_str());
        text.append(".");
        text.append(decimal_string(tenths % 10).as_str());
        text.append("s");
        text
    }
}

/// The filesystem with the higher rate; btrfs when the two are level.
pub open spec fn faster_of(xfs: Ratio, btrfs: Ratio) -> FilesystemType {
    if xfs.exceeds(btrfs) {
        FilesystemType::Xfs
    } else {
        FilesystemType::Btrfs
    }
}

/// The filesystem whose contention rose less; btrfs when the two are level.
pub open spec fn steadier_of(xfs_worst: Ratio, btrfs_worst: Ratio) -> FilesystemType {
    if btrfs_worst.exceeds(xfs_worst) {
        FilesystemType::Xfs
    } else {
        FilesystemType::Btrfs
    }
}

/// The fraction 0.
pub open spec fn zero() -> Ratio {
    Ratio { numer: 0, denom: 1 }
}

/// The largest of `values`, counted from 0: going through the list from the
/// front, a value takes the place of the largest so far only if it exceeds
/// it. So the first of several equal values is kept, and a list that holds
/// nothing above 0 gives 0.
pub open spec fn largest_of(values: Seq<Ratio>) -> Ratio
    decreases values.len(),
{
    if values.len() == 0 {
        zero()
    } else {
        let before = largest_of(values.drop_last());
        if values.last().exceeds(before) {
            values.last()
        } else {
            before
        }
    }
}

/// None of the values exceeds the largest, and the largest is one of them
/// unless it is 0.
pub proof fn lemma_largest_is_not_exceeded(values: Seq<Ratio>)
    ensures
        forall|i: int| 0 <= i < values.len() ==> !(#[trigger] values[i]).exceeds(largest_of(values)),
        largest_of(values) == zero() || exists|i: int|
            0 <= i < values.len() && #[trigger] values[i] == largest_of(values),
    decreases values.len(),
{
    if values.len() > 0 {
        let earlier = values.drop_last();
        let before = largest_of(earlier);
        let last = values.last();
        lemma_largest_is_not_exceeded(earlier);
        assert forall|i: int| 0 <= i < earlier.len() implies earlier[i] == values[i] by {}
        if last.exceeds(before) {
            assert forall|i: int| 0 <= i < values.len() implies !(#[trigger] values[i]).exceeds(
                last,
            ) by {
                if i < earlier.len() {
                    assert(!earlier[i].exceeds(before));
                    lemma_not_exceeding_carries_over(values[i], before, last);
                }
            }
            assert(values[values.len() - 1] == largest_of(values));
        } else {
            assert forall|i: int| 0 <= i < values.len() implies !(#[trigger] values[i]).exceeds(
                before,
            ) by {
                if i < earlier.len() {
                    assert(!earlier[i].exceeds(before));
                }
            }
            if before != zero() {
                let at = choose|i: int| 0 <= i < earlier.len() && #[trigger] earlier[i] == before;
                assert(values[at] == largest_of(values));
            }
        }
    }
}

/// One level of two sweeps side by side.
#[derive(Clone, Copy, Debug, PartialEq, Eq, Structural)]
pub struct ConcurrencyRow {
    pub threads: u32,
    pub xfs_ops: Ratio,
    pub btrfs_ops: Ratio,
    pub xfs_contention: Ratio,
    pub btrfs_contention: Ratio,
    /// The filesystem with the higher rate at this level.
    pub winner: FilesystemType,
}

/// The level `level` of the sweeps `xfs` and `btrfs` side by side.
pub open spec fn row_of(
    xfs: ConcurrentBenchmarkResult,
    btrfs: ConcurrentBenchmarkResult,
    level: int,
) -> ConcurrencyRow {
    ConcurrencyRow {
        threads: xfs.thread_counts@[level],
        xfs_ops: xfs.operations_per_sec@[level],
        btrfs_ops: btrfs.operations_per_sec@[level],
        xfs_contention: xfs.contention_ratios@[level],
        btrfs_contention: btrfs.contention_ratios@[level],
        winner: faster_of(xfs.operations_per_sec@[level], btrfs.operations_per_sec@[level]),
    }
}

/// Says which of two rates is the higher one: that of XFS only if it exceeds
/// that of btrfs.
pub fn faster(xfs: &Ratio, btrfs: &Ratio) -> (winner: FilesystemType)
    ensures
        winner == faster_of(*xfs, *btrfs),
{
    if xfs.is_greater_than(btrfs) {
        FilesystemType::Xfs
    } else {
        FilesystemType::Btrfs
    }
}

/// The largest of `values`, counted from 0: a list that is empty, or holds
/// nothing above 0, gives 0.
pub fn largest(values: &Vec<Ratio>) -> (top: Ratio)
    ensures
        top == largest_of(values@),
{
    let mut top = Ratio { numer: 0, denom: 1 };
    let mut at: usize = 0;
    while at < values.len()
        invariant
            at <= values@.len(),
            top == largest_of(values@.subrange(0, at as int)),
        decreases values@.len() - at,
    {
        let value = values[at];
        proof {
            let upto = values@.subrange(0, at + 1);
            assert(upto.drop_last() =~= values@.subrange(0, at as int));
            assert(upto.last() == value);
        }
        if value.is_greater_than(&top) {
            top = value;
        }
        at = at + 1;
    }
    assert(values@.subrange(0, at as int) =~= values@);
    top
}

/// What does not exceed a value does not exceed a greater one either.
proof fn lemma_not_exceeding_carries_over(small: Ratio, middle: Ratio, large: Ratio)
    requires
        !small.exceeds(middle),
        large.exceeds(middle),
    ensures
        !small.exceeds(large),
{
    let (sn, sd) = (small.numer as int, small.denom as int);
    let (mn, md) = (middle.numer as int, middle.denom as int);
    let (ln, ld) = (large.numer as int, large.denom as int);
    assert(sn * md <= mn * sd);
    assert(ln * md > mn * ld);
    assert(md > 0) by (nonlinear_arith)
        requires
            ln * md > mn * ld,
            mn >= 0,
            ld >= 0,
            md >= 0,
    ;
    assert(sn * ld <= ln * sd) by (nonlinear_arith)
        requires
            sn * md <= mn * sd,
            ln * md > mn * ld,
            md > 0,
            sn >= 0,
            sd >= 0,
            mn >= 0,
            ln >= 0,
            ld >= 0,
    ;
}

/// Puts two sweeps side by side, level by level, with the winner of each
/// level.
pub fn concurrency_rows(xfs: &ConcurrentBenchmarkResult, btrfs: &ConcurrentBenchmarkResult) -> (rows:
    Vec<ConcurrencyRow>)
    requires
        xfs.consistent(),
        btrfs.operations_per_sec@.len() >= xfs.thread_counts@.len(),
        btrfs.contention_ratios@.len() >= xfs.thread_counts@.len(),
    ensures
        rows@.len() == xfs.thread_counts@.len(),
        forall|level: int| 0 <= level < rows@.len() ==> #[trigger] rows@[level] == row_of(
            *xfs,
            *btrfs,
            level,
        ),
{
    let mut rows: Vec<ConcurrencyRow> = Vec::new();
    let mut level: usize = 0;
    while level < xfs.thread_counts.len()
        invariant
            level <= xfs.thread_counts@.len(),
            xfs.consistent(),
            btrfs.operations_per_sec@.len() >= xfs.thread_counts@.len(),
            btrfs.contention_ratios@.len() >= xfs.thread_counts@.len(),
            rows@.len() == level,
            forall|l: int| 0 <= l < level ==> #[trigger] rows@[l] == row_of(*xfs, *btrfs, l),
        decreases xfs.thread_counts@.len() - level,
    {
        let xfs_ops = xfs.operations_per_sec[level];
        let btrfs_ops = btrfs.operations_per_sec[level];
        rows.push(
            ConcurrencyRow {
                threads: xfs.thread_counts[level],
                xfs_ops,
                btrfs_ops,
                xfs_contention: xfs.contention_ratios[level],
                btrfs_contention: btrfs.contention_ratios[level],
                winner: faster(&xfs_ops, &btrfs_ops),
            },
        );
        level = level + 1;
    }
    rows
}

/// How the contention of two sweeps compares.
#[derive(Clone, Copy, Debug, PartialEq, Eq, Structural)]
pub struct ContentionSummary {
    /// The largest contention ratio of XFS.
    pub xfs_worst: Ratio,
    /// The largest contention ratio of btrfs.
    pub btrfs_worst: Ratio,
    /// The filesystem that kept its rate better as workers were added.
    pub steadier: FilesystemType,
}

/// How the rates of two benchmarks compare.
#[derive(Clone, Copy, Debug, PartialEq, Eq, Structural)]
pub struct PerformanceSummary {
    /// The filesystem with the higher rate in the sequential run.
    pub sequential_winner: FilesystemType,
    /// The highest rate of XFS at any level of the sweep.
    pub xfs_best: Ratio,
    /// The highest rate of btrfs at any level of the sweep.
    pub btrfs_best: Ratio,
    /// The filesystem with the higher of the two.
    pub concurrent_winner: FilesystemType,
}

/// Compares the contention of two sweeps: the largest contention ratio of
/// each, and the filesystem for which it is the smaller; btrfs when the two
/// are level.
pub fn contention_summary(xfs: &ConcurrentBenchmarkResult, btrfs: &ConcurrentBenchmarkResult) -> (summary:
    ContentionSummary)
    ensures
        summary.xfs_worst == largest_of(xfs.contention_ratios@),
        summary.btrfs_worst == largest_of(btrfs.contention_ratios@),
        summary.steadier == steadier_of(summary.xfs_worst, summary.btrfs_worst),
{
    let xfs_worst = largest(&xfs.contention_ratios);
    let btrfs_worst = largest(&btrfs.contention_ratios);
    let steadier = if btrfs_worst.is_greater_than(&xfs_worst) {
        FilesystemType::Xfs
    } else {
        FilesystemType::Btrfs
    };
    ContentionSummary { xfs_worst, btrfs_worst, steadier }
}

/// Compares the rates of two benchmarks: which filesystem was faster in the
/// sequential run, the best rate of each in the sweep, and which of these is
/// the higher; btrfs when the two are level.
pub fn performance_summary(xfs: &BenchmarkResult, btrfs: &BenchmarkResult) -> (summary:
    PerformanceSummary)
    ensures
        summary.sequential_winner == faster_of(xfs.operations_per_sec, btrfs.operations_per_sec),
        summary.xfs_best == largest_of(xfs.concurrent_results.operations_per_sec@),
        summary.btrfs_best == largest_of(btrfs.concurrent_results.operations_per_sec@),
        summary.concurrent_winner == faster_of(summary.xfs_best, summary.btrfs_best),
{
    let xfs_best = largest(&xfs.concurrent_results.operations_per_sec);
    let btrfs_best = largest(&btrfs.concurrent_results.operations_per_sec);
    PerformanceSummary {
        sequential_winner: faster(&xfs.operations_per_sec, &btrfs.operations_per_sec),
        xfs_best,
        btrfs_best,
        concurrent_winner: faster(&xfs_best, &btrfs_best),
    }
}

/// The results of the filesystems that were tested, in the order of the
/// tests.
pub struct ResultsReporter {
    results: Vec<(FilesystemType, BenchmarkResult)>,
}

impl View for ResultsReporter {
    type V = Seq<(FilesystemType, BenchmarkResult)>;

    closed spec fn view(&self) -> Seq<(FilesystemType, BenchmarkResult)> {
        self.results@
    }
}

/// Whether `at` is the place of the first result for `fs_type` in `results`.
pub open spec fn first_of(
    results: Seq<(FilesystemType, BenchmarkResult)>,
    fs_type: FilesystemType,
    at: int,
) -> bool {
    &&& 0 <= at < results.len()
    &&& results[at].0 == fs_type
    &&& forall|earlier: int| 0 <= earlier < at ==> (#[trigger] results[earlier]).0 != fs_type
}

impl ResultsReporter {
    /// A reporter for `results`.
    pub fn new(results: Vec<(FilesystemType, BenchmarkResult)>) -> (reporter: ResultsReporter)
        ensures
            reporter@ == results@,
    {
        ResultsReporter { results }
    }

    /// The number of results.
    pub fn len(&self) -> (count: usize)
        ensures
            count == self@.len(),
    {
        self.results.len()
    }

    /// The result at place `at`.
    pub fn get(&self, at: usize) -> (entry: Option<&(FilesystemType, BenchmarkResult)>)
        ensures
            entry is Some <==> at < self@.len(),
            entry is Some ==> *entry->Some_0 == self@[at as int],
    {
        if at < self.results.len() {
            Some(&self.results[at])
        } else {
            None
        }
    }

    /// The first result for `fs_type`, if there is one.
    pub fn find(&self, fs_type: FilesystemType) -> (found: Option<&BenchmarkResult>)
        ensures
            match found {
                Some(result) => exists|at: int|
                    first_of(self@, fs_type, at) && *result == (#[trigger] self@[at]).1,
                None => forall|at: int| 0 <= at < self@.len() ==> (#[trigger] self@[at]).0 != fs_type,
            },
    {
        let mut at: usize = 0;
        while at < self.results.len()
            invariant
                at <= self.results@.len(),
                forall|earlier: int| 0 <= earlier < at ==> (#[trigger] self.results@[earlier]).0 != fs_type,
            decreases self.results@.len() - at,
        {
            let same = match (self.results[at].0, fs_type) {
                (FilesystemType::Xfs, FilesystemType::Xfs) => true,
                (FilesystemType::Btrfs, FilesystemType::Btrfs) => true,
                _ => false,
            };
            if same {
                assert(first_of(self@, fs_type, at as int));
                return Some(&self.results[at].1);
            }
            at = at + 1;
        }
        None
    }

    /// Whether the two filesystems can be compared: there are exactly two
    /// results, one of them for XFS and one for btrfs.
    pub fn compares_both(&self) -> (both: bool)
        ensures
            both == (self@.len() == 2 && (exists|at: int| first_of(self@, FilesystemType::Xfs, at))
                && (exists|at: int| first_of(self@, FilesystemType::Btrfs, at))),
    {
        if self.results.len() != 2 {
            return false;
        }
        let xfs = self.find(FilesystemType::Xfs);
        let btrfs = self.find(FilesystemType::Btrfs);
        xfs.is_some() && btrfs.is_some()
    }
}

} // verus!

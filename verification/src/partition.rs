//! Splitting a run's operations between a fixed number of workers.
//!
//! Every worker is given one contiguous range of operation indices. All
//! workers but the last get `ceil(count / workers)` operations; the last one
//! gets what is left, and a worker whose range would begin at or after `count`
//! gets an empty range.

use vstd::arithmetic::div_mod::lemma_fundamental_div_mod;
use vstd::prelude::*;

verus! {

/// The half-open range `[start, end)` of operation indices given to one worker.
#[derive(Clone, Copy, Debug, PartialEq, Eq, Structural)]
pub struct WorkRange {
    pub start: u32,
    pub end: u32,
}

impl WorkRange {
    /// Whether `index` is one of the operations of this range.
    pub open spec fn contains(self, index: int) -> bool {
        self.start <= index < self.end
    }

    /// The number of operations in this range.
    pub open spec fn size(self) -> nat {
        if self.start <= self.end {
            (self.end - self.start) as nat
        } else {
            0
        }
    }

    /// The number of operations in the range.
    pub fn len(&self) -> (n: u32)
        ensures
            n == self.size(),
    {
        if self.start <= self.end {
            self.end - self.start
        } else {
            0
        }
    }

    /// Whether the range holds no operation.
    pub fn is_empty(&self) -> (empty: bool)
        ensures
            empty == (self.size() == 0),
    {
        self.start >= self.end
    }
}

/// The share of a full worker: `count` divided by `workers`, rounded up.
pub open spec fn share(count: nat, workers: nat) -> nat
    recommends
        workers >= 1,
{
    ((count + workers - 1) / (workers as int)) as nat
}

/// The smaller of two numbers.
pub open spec fn at_most(a: nat, limit: nat) -> nat {
    if a <= limit {
        a
    } else {
        limit
    }
}

/// The first index of worker `worker`'s range.
pub open spec fn range_start(count: nat, workers: nat, worker: nat) -> nat {
    at_most(worker * share(count, workers), count)
}

/// The index after the last one of worker `worker`'s range: one share
/// further than its first, but not beyond `count`.
pub open spec fn range_end(count: nat, workers: nat, worker: nat) -> nat {
    at_most(worker * share(count, workers) + share(count, workers), count)
}

/// The range of worker `worker` when `count` operations are split between
/// `workers` workers.
pub open spec fn range_of(count: u32, workers: u32, worker: u32) -> WorkRange {
    WorkRange {
        start: range_start(count as nat, workers as nat, worker as nat) as u32,
        end: range_end(count as nat, workers as nat, worker as nat) as u32,
    }
}

/// The worker that operation `index` falls to.
pub open spec fn owner(count: nat, workers: nat, index: nat) -> nat {
    index / share(count, workers)
}

/// Whether `ranges` cuts `[0, count)` into consecutive pieces: the first
/// begins at 0, each begins where the one before it ends, and the last ends
/// at `count`.
pub open spec fn tiles(ranges: Seq<WorkRange>, count: nat) -> bool {
    &&& ranges.len() >= 1
    &&& ranges[0].start == 0
    &&& ranges[ranges.len() - 1].end == count
    &&& forall|w: int| 0 <= w < ranges.len() ==> (#[trigger] ranges[w]).start <= ranges[w].end
    &&& forall|w: int|
        0 <= w < ranges.len() - 1 ==> (#[trigger] ranges[w]).end == ranges[w + 1].start
}

/// Whether one of `ranges` holds operation `index`.
pub open spec fn held(ranges: Seq<WorkRange>, index: int) -> bool {
    exists|w: int| 0 <= w < ranges.len() && #[trigger] ranges[w].contains(index)
}

/// Whether `ranges` holds each operation of `[0, count)` exactly once, and
/// nothing else: every operation below `count` lies in one of the ranges,
/// whatever lies in a range is an operation below `count`, and no two
/// ranges share an operation.
pub open spec fn covers_once(ranges: Seq<WorkRange>, count: nat) -> bool {
    &&& forall|index: int| 0 <= index < count ==> #[trigger] held(ranges, index)
    &&& forall|w: int, index: int|
        0 <= w < ranges.len() && #[trigger] ranges[w].contains(index) ==> 0 <= index < count
    &&& forall|first: int, second: int, index: int|
        0 <= first < ranges.len() && 0 <= second < ranges.len() && #[trigger] ranges[first].contains(
            index,
        ) && #[trigger] ranges[second].contains(index) ==> first == second
}

/// The number of operations in the first `workers` ranges of `ranges`.
pub open spec fn assigned(ranges: Seq<WorkRange>, workers: nat) -> nat
    decreases workers,
{
    if workers == 0 {
        0
    } else {
        assigned(ranges, (workers - 1) as nat) + ranges[workers - 1].size()
    }
}

/// The shares of all workers together are enough for every operation.
pub proof fn lemma_shares_suffice(count: nat, workers: nat)
    requires
        workers >= 1,
    ensures
        workers * share(count, workers) >= count,
        count >= 1 ==> share(count, workers) >= 1,
        share(count, workers) <= count,
{
    let x = (count + workers - 1) as int;
    let d = workers as int;
    lemma_fundamental_div_mod(x, d);
    let q = x / d;
    let r = x % d;
    assert(0 <= r < d);
    assert(x == d * q + r);
    assert(q >= 0) by (nonlinear_arith)
        requires
            x >= 0,
            d >= 1,
            x == d * q + r,
            0 <= r < d,
    ;
    assert(d * q >= count);
    assert(workers * share(count, workers) == d * q);
    if count >= 1 {
        assert(q >= 1) by (nonlinear_arith)
            requires
                d * q >= 1,
                d >= 1,
        ;
    }
    assert(q <= count) by (nonlinear_arith)
        requires
            x == d * q + r,
            0 <= r,
            d >= 1,
            x == count + d - 1,
            q >= 0,
    ;
}

/// The bounds of one worker's range are ordered, lie within `[0, count]`, and
/// the range ends where the next worker's begins.
pub proof fn lemma_range_bounds(count: nat, workers: nat, worker: nat)
    requires
        workers >= 1,
    ensures
        range_start(count, workers, worker) <= range_end(count, workers, worker) <= count,
        range_end(count, workers, worker) == range_start(count, workers, worker + 1),
        range_start(count, workers, 0) == 0,
        worker + 1 >= workers ==> range_end(count, workers, worker) == count,
{
    let per = share(count, workers);
    lemma_shares_suffice(count, workers);
    assert((worker + 1) * per == worker * per + per) by (nonlinear_arith);
    assert(0 * per == 0);
    if worker + 1 >= workers {
        assert((worker + 1) * per >= workers * per) by (nonlinear_arith)
            requires
                worker + 1 >= workers,
        ;
    }
}

/// Whether operation `index` lies in the range of worker `worker`.
pub open spec fn in_range(count: nat, workers: nat, worker: nat, index: nat) -> bool {
    range_start(count, workers, worker) <= index < range_end(count, workers, worker)
}

/// Whether operation `index` lies in the range of its owner and the owner is
/// one of the workers.
pub open spec fn has_owner(count: nat, workers: nat, index: nat) -> bool {
    &&& owner(count, workers, index) < workers
    &&& in_range(count, workers, owner(count, workers, index), index)
}

/// Operation `index` lies in the range of its owner, which is one of the
/// workers, and in the range of no other worker.
pub proof fn lemma_operation_has_one_owner(count: nat, workers: nat, index: nat)
    requires
        workers >= 1,
        index < count,
    ensures
        owner(count, workers, index) < workers,
        in_range(count, workers, owner(count, workers, index), index),
        forall|w: nat| #[trigger]
            in_range(count, workers, w, index) ==> w == owner(count, workers, index),
{
    let per = share(count, workers);
    lemma_shares_suffice(count, workers);
    let o = owner(count, workers, index);
    lemma_fundamental_div_mod(index as int, per as int);
    let rem = (index as int) % (per as int);
    assert(0 <= rem < per);
    assert(index == per * o + rem);
    assert(o * per <= index < o * per + per) by (nonlinear_arith)
        requires
            index == per * o + rem,
            0 <= rem < per,
    ;
    assert(o < workers) by (nonlinear_arith)
        requires
            o * per <= index,
            index < count,
            workers * per >= count,
            per >= 1,
    ;
    assert forall|w: nat| #[trigger] in_range(count, workers, w, index) implies w == o by {
        assert(w * per <= index);
        assert(index < w * per + per);
        assert(w == o) by (nonlinear_arith)
            requires
                w * per <= index < w * per + per,
                o * per <= index < o * per + per,
                per >= 1,
        ;
    }
}

/// Splitting is complete: the ranges of the workers together hold exactly the
/// operations of `[0, count)`, each of them once. Every operation below
/// `count` lies in the range of its owner, which is one of the workers;
/// whatever lies in a range is an operation below `count`; and no operation
/// lies in two ranges.
pub proof fn lemma_partition_complete(count: nat, workers: nat)
    requires
        workers >= 1,
    ensures
        forall|index: nat| index < count ==> #[trigger] has_owner(count, workers, index),
        forall|w: nat, index: nat| #[trigger] in_range(count, workers, w, index) ==> index < count,
        forall|first: nat, second: nat, index: nat|
            #[trigger] in_range(count, workers, first, index) && #[trigger] in_range(
                count,
                workers,
                second,
                index,
            ) ==> first == second,
{
    assert forall|index: nat| index < count implies #[trigger] has_owner(
        count,
        workers,
        index,
    ) by {
        lemma_operation_has_one_owner(count, workers, index);
    }
    assert forall|w: nat, index: nat| #[trigger]
        in_range(count, workers, w, index) implies index < count by {
        lemma_range_bounds(count, workers, w);
    }
    assert forall|first: nat, second: nat, index: nat|
        #[trigger] in_range(count, workers, first, index) && #[trigger] in_range(
            count,
            workers,
            second,
            index,
        ) implies first == second by {
        lemma_range_bounds(count, workers, first);
        lemma_operation_has_one_owner(count, workers, index);
    }
}

/// Ranges that tile `[0, count)` hold `count` operations between them.
pub proof fn lemma_tiles_assign_all(ranges: Seq<WorkRange>, count: nat)
    requires
        tiles(ranges, count),
    ensures
        assigned(ranges, ranges.len()) == count,
{
    lemma_assigned_prefix(ranges, count, ranges.len());
}

proof fn lemma_assigned_prefix(ranges: Seq<WorkRange>, count: nat, workers: nat)
    requires
        tiles(ranges, count),
        1 <= workers <= ranges.len(),
    ensures
        assigned(ranges, workers) == ranges[workers - 1].end,
    decreases workers,
{
    if workers == 1 {
        assert(assigned(ranges, 0) == 0);
        assert(ranges[0].start <= ranges[0].end);
    } else {
        lemma_assigned_prefix(ranges, count, (workers - 1) as nat);
        assert(ranges[workers - 2].end == ranges[workers - 2 + 1].start);
        assert(ranges[workers - 1].start <= ranges[workers - 1].end);
    }
}

/// The number of operations that a full worker gets: `count / workers`,
/// rounded up.
pub fn operations_per_worker(count: u32, workers: u32) -> (per: u32)
    requires
        workers >= 1,
    ensures
        per == share(count as nat, workers as nat),
{
    proof {
        lemma_shares_suffice(count as nat, workers as nat);
    }
    let padded: u64 = count as u64 + workers as u64 - 1;
    let per: u64 = padded / (workers as u64);
    per as u32
}

/// The range of operations for worker number `worker` (counted from 0) when
/// `count` operations are split between `workers` workers.
pub fn worker_range(count: u32, workers: u32, worker: u32) -> (range: WorkRange)
    requires
        workers >= 1,
    ensures
        range == range_of(count, workers, worker),
        range.start == range_start(count as nat, workers as nat, worker as nat),
        range.end == range_end(count as nat, workers as nat, worker as nat),
        range.start <= range.end <= count,
{
    let per: u64 = operations_per_worker(count, workers) as u64;
    proof {
        lemma_range_bounds(count as nat, workers as nat, worker as nat);
        assert(worker as u64 * per <= 0xffff_ffff * 0xffff_ffff) by (nonlinear_arith)
            requires
                worker <= 0xffff_ffff,
                per <= 0xffff_ffff,
        ;
    }
    let raw_start: u64 = worker as u64 * per;
    let raw_end: u64 = raw_start + per;
    let start: u64 = if raw_start <= count as u64 {
        raw_start
    } else {
        count as u64
    };
    let end: u64 = if raw_end <= count as u64 {
        raw_end
    } else {
        count as u64
    };
    WorkRange { start: start as u32, end: end as u32 }
}

/// Splits `count` operations between `workers` workers. The result holds one
/// range per worker, in worker order; together the ranges cover `[0, count)`
/// without gap or overlap.
pub fn partition(count: u32, workers: u32) -> (ranges: Vec<WorkRange>)
    requires
        workers >= 1,
    ensures
        ranges@.len() == workers,
        forall|w: int|
            0 <= w < workers ==> #[trigger] ranges@[w] == range_of(count, workers, w as u32),
        tiles(ranges@, count as nat),
        covers_once(ranges@, count as nat),
        assigned(ranges@, workers as nat) == count,
{
    let mut ranges: Vec<WorkRange> = Vec::new();
    let mut worker: u32 = 0;
    while worker < workers
        invariant
            workers >= 1,
            worker <= workers,
            ranges@.len() == worker,
            forall|w: int|
                0 <= w < worker ==> #[trigger] ranges@[w] == range_of(count, workers, w as u32),
        decreases workers - worker,
    {
        let range = worker_range(count, workers, worker);
        ranges.push(range);
        worker = worker + 1;
    }
    proof {
        let n = count as nat;
        let k = workers as nat;
        assert forall|w: int| 0 <= w < ranges@.len() implies (#[trigger] ranges@[w]).start
            <= ranges@[w].end by {
            lemma_range_bounds(n, k, w as nat);
        }
        assert forall|w: int| 0 <= w < ranges@.len() - 1 implies (#[trigger] ranges@[w]).end
            == ranges@[w + 1].start by {
            lemma_range_bounds(n, k, w as nat);
            lemma_range_bounds(n, k, (w + 1) as nat);
            assert(ranges@[w + 1] == range_of(count, workers, (w + 1) as u32));
        }
        lemma_range_bounds(n, k, 0);
        lemma_range_bounds(n, k, (k - 1) as nat);
        assert(ranges@[0] == range_of(count, workers, 0u32));
        assert(ranges@[workers - 1] == range_of(count, workers, (workers - 1) as u32));
        lemma_tiles_assign_all(ranges@, n);
        lemma_ranges_cover_once(count, workers, ranges@);
    }
    ranges
}

/// The ranges of all workers, listed in worker order, hold each operation of
/// `[0, count)` exactly once.
pub proof fn lemma_ranges_cover_once(count: u32, workers: u32, ranges: Seq<WorkRange>)
    requires
        workers >= 1,
        ranges.len() == workers,
        forall|w: int| 0 <= w < workers ==> #[trigger] ranges[w] == range_of(count, workers, w as u32),
    ensures
        covers_once(ranges, count as nat),
{
    let n = count as nat;
    let k = workers as nat;
    lemma_partition_complete(n, k);
    assert forall|w: int, index: int| 0 <= w < ranges.len() && index >= 0 implies #[trigger] ranges[w].contains(
        index,
    ) == in_range(n, k, w as nat, index as nat) by {
        lemma_range_bounds(n, k, w as nat);
        assert(ranges[w] == range_of(count, workers, w as u32));
    }
    assert forall|index: int| 0 <= index < count implies #[trigger] held(ranges, index) by {
        let w = owner(n, k, index as nat) as int;
        assert(has_owner(n, k, index as nat));
        assert(ranges[w].contains(index));
    }
    assert forall|w: int, index: int|
        0 <= w < ranges.len() && #[trigger] ranges[w].contains(index) implies 0 <= index
        < count by {
        assert(in_range(n, k, w as nat, index as nat));
    }
    assert forall|first: int, second: int, index: int|
        0 <= first < ranges.len() && 0 <= second < ranges.len() && #[trigger] ranges[first].contains(
            index,
        ) && #[trigger] ranges[second].contains(index) implies first == second by {
        assert(in_range(n, k, first as nat, index as nat));
        assert(in_range(n, k, second as nat, index as nat));
    }
}

} // verus!

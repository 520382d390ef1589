//! Measured times and the exact rates derived from them.
//!
//! A run's elapsed time is kept in whole nanoseconds. Rates and ratios are
//! kept as exact fractions of two integers, so nothing is rounded before a
//! value is shown: a caller divides `numer` by `denom` when it needs a number
//! to print. A fraction whose denominator is 0 comes from a run that took no
//! measurable time; its value is unbounded.

use vstd::prelude::*;

verus! {

/// Nanoseconds in one second.
pub const NANOS_PER_SEC: u128 = 1_000_000_000;

/// 2 to the power of 64.
pub const LIMB: u128 = 0x1_0000_0000_0000_0000;

/// The elapsed wall-clock time of one run.
#[derive(Clone, Copy, Debug, PartialEq, Eq, Structural)]
pub struct TimingSample {
    pub nanos: u128,
}

/// The exact fraction `numer / denom`.
#[derive(Clone, Copy, Debug, PartialEq, Eq, Structural)]
pub struct Ratio {
    pub numer: u128,
    pub denom: u128,
}

/// The product of two 128-bit numbers: `high * 2^128 + low`.
#[derive(Clone, Copy, Debug, PartialEq, Eq, Structural)]
pub struct Wide {
    pub high: u128,
    pub low: u128,
}

impl TimingSample {
    /// The time of `secs` whole seconds and `subsec_nanos` nanoseconds.
    pub fn from_parts(secs: u64, subsec_nanos: u32) -> (sample: TimingSample)
        ensures
            sample.nanos == secs * NANOS_PER_SEC + subsec_nanos,
    {
        TimingSample { nanos: secs as u128 * NANOS_PER_SEC + subsec_nanos as u128 }
    }

    /// The whole seconds of the time.
    pub fn whole_seconds(&self) -> (secs: u128)
        ensures
            secs == self.nanos / NANOS_PER_SEC,
    {
        self.nanos / NANOS_PER_SEC
    }

    /// The nanoseconds of the time beyond its whole seconds.
    pub fn subsec_nanos(&self) -> (nanos: u32)
        ensures
            nanos == self.nanos % NANOS_PER_SEC,
    {
        (self.nanos % NANOS_PER_SEC) as u32
    }
}

impl Wide {
    /// The number that the two halves stand for.
    pub open spec fn value(self) -> nat {
        (self.high * 0x1_0000_0000_0000_0000_0000_0000_0000_0000 + self.low) as nat
    }
}

impl Ratio {
    /// Whether the fraction is exactly 1.
    pub open spec fn is_one(self) -> bool {
        self.denom > 0 && self.numer == self.denom
    }

    /// Whether this fraction is greater than `other`, by cross-multiplication.
    /// A fraction with denominator 0 and a numerator above 0 is greater than
    /// every fraction that has a value.
    pub open spec fn exceeds(self, other: Ratio) -> bool {
        self.numer * other.denom > other.numer * self.denom
    }

    /// Whether this fraction is greater than `other`.
    pub fn is_greater_than(&self, other: &Ratio) -> (greater: bool)
        ensures
            greater == self.exceeds(*other),
    {
        let left = multiply_wide(self.numer, other.denom);
        let right = multiply_wide(other.numer, self.denom);
        left.high > right.high || (left.high == right.high && left.low > right.low)
    }

    /// Whether the fraction is exactly 1.
    pub fn equals_one(&self) -> (one: bool)
        ensures
            one == self.is_one(),
    {
        self.denom > 0 && self.numer == self.denom
    }
}

/// Multiplies two 128-bit numbers without losing the upper half.
pub fn multiply_wide(a: u128, b: u128) -> (product: Wide)
    ensures
        product.value() == a * b,
{
    let a_low: u128 = a % LIMB;
    let a_high: u128 = a / LIMB;
    let b_low: u128 = b % LIMB;
    let b_high: u128 = b / LIMB;
    proof {
        lemma_limb_product(a_low, b_low);
        lemma_limb_product(a_low, b_high);
        lemma_limb_product(a_high, b_low);
        lemma_limb_product(a_high, b_high);
    }
    let low_low: u128 = a_low * b_low;
    let low_high: u128 = a_low * b_high;
    let high_low: u128 = a_high * b_low;
    let high_high: u128 = a_high * b_high;
    let middle: u128 = low_low / LIMB + low_high % LIMB + high_low % LIMB;
    let low: u128 = (middle % LIMB) * LIMB + low_low % LIMB;
    let high: u128 = high_high + low_high / LIMB + high_low / LIMB + middle / LIMB;
    proof {
        let h = LIMB as int;
        let square = h * h;
        // The product, written out in the four partial products.
        assert(a * b == (a_high * b_high) * square + (a_low * b_high) * h + (a_high * b_low) * h
            + a_low * b_low) by (nonlinear_arith)
            requires
                a == a_high * h + a_low,
                b == b_high * h + b_low,
                square == h * h,
        ;
        // Each partial product and the middle sum, split into their limbs.
        lemma_shifted_limbs(low_high);
        lemma_shifted_limbs(high_low);
        lemma_shifted_limbs(middle);
        assert(low_low == (low_low / LIMB) * h + low_low % LIMB);
        assert(middle * h == (low_low / LIMB) * h + (low_high % LIMB) * h + (high_low % LIMB) * h);
        // The two halves of the result, put together again.
        let carried = high_high + low_high / LIMB + high_low / LIMB;
        assert(high * square == carried * square + (middle / LIMB) * square) by (nonlinear_arith)
            requires
                high == carried + middle / LIMB,
        ;
        assert(carried * square == high_high * square + (low_high / LIMB) * square + (high_low
            / LIMB) * square) by (nonlinear_arith)
            requires
                carried == high_high + low_high / LIMB + high_low / LIMB,
        ;
        assert(high * square + low == a * b);
    }
    Wide { high, low }
}

/// A number moved up by one limb, in terms of its own two limbs.
proof fn lemma_shifted_limbs(x: u128)
    ensures
        x * LIMB == (x / LIMB) * (LIMB * LIMB) + (x % LIMB) * LIMB,
        LIMB * LIMB == 0x1_0000_0000_0000_0000_0000_0000_0000_0000,
{
    assert(x == (x / LIMB) * LIMB + x % LIMB);
    assert(LIMB * LIMB == 0x1_0000_0000_0000_0000_0000_0000_0000_0000);
}

/// The product of two numbers below 2^64 is at most (2^64 - 1)^2.
proof fn lemma_limb_product(x: u128, y: u128)
    requires
        x < LIMB,
        y < LIMB,
    ensures
        x * y <= 0xffff_ffff_ffff_fffe_0000_0000_0000_0001,
{
    assert(x * y <= 0xffff_ffff_ffff_ffff * 0xffff_ffff_ffff_ffff) by (nonlinear_arith)
        requires
            0 <= x <= 0xffff_ffff_ffff_ffff,
            0 <= y <= 0xffff_ffff_ffff_ffff,
    ;
}

/// The rate, in operations per second, of a run that did `count` operations
/// in `elapsed`: the fraction `count * 10^9 / nanoseconds`.
pub open spec fn rate_of(count: u32, elapsed: TimingSample) -> Ratio {
    Ratio { numer: (count * NANOS_PER_SEC) as u128, denom: elapsed.nanos }
}

/// The rate, in megabytes per second, of a run that moved `count` files of
/// `file_size_mb` megabytes each in `elapsed`: the fraction
/// `file_size_mb * count * 10^9 / nanoseconds`.
pub open spec fn throughput_of(file_size_mb: u64, count: u32, elapsed: TimingSample) -> Ratio {
    Ratio { numer: (file_size_mb * count * NANOS_PER_SEC) as u128, denom: elapsed.nanos }
}

/// How much slower a run that took `elapsed` was than one of as many
/// operations that took `baseline`: the baseline's rate divided by the run's
/// rate, which is the run's time divided by the baseline's.
pub open spec fn contention_of(baseline: TimingSample, elapsed: TimingSample) -> Ratio {
    Ratio { numer: elapsed.nanos, denom: baseline.nanos }
}

/// Operations per second of a run that did `count` operations in `elapsed`.
pub fn operations_per_second(count: u32, elapsed: TimingSample) -> (rate: Ratio)
    ensures
        rate == rate_of(count, elapsed),
{
    Ratio { numer: count as u128 * NANOS_PER_SEC, denom: elapsed.nanos }
}

/// Megabytes per second of a run that moved `count` files of `file_size_mb`
/// megabytes each in `elapsed`.
pub fn megabytes_per_second(file_size_mb: u64, count: u32, elapsed: TimingSample) -> (rate: Ratio)
    ensures
        rate == throughput_of(file_size_mb, count, elapsed),
{
    proof {
        assert(file_size_mb * count <= 0xffff_ffff_ffff_ffff * 0xffff_ffff) by (nonlinear_arith)
            requires
                0 <= file_size_mb <= 0xffff_ffff_ffff_ffff,
                0 <= count <= 0xffff_ffff,
        ;
    }
    let moved: u128 = file_size_mb as u128 * count as u128;
    Ratio { numer: moved * NANOS_PER_SEC, denom: elapsed.nanos }
}

/// How much slower a run was than the baseline run of the same number of
/// operations.
pub fn contention_ratio(baseline: TimingSample, run: TimingSample) -> (ratio: Ratio)
    ensures
        ratio == contention_of(baseline, run),
{
    Ratio { numer: run.nanos, denom: baseline.nanos }
}

/// The average time of one operation in a run of `count` operations, rounded
/// down to whole nanoseconds.
pub fn average_per_operation(total: TimingSample, count: u32) -> (average: TimingSample)
    requires
        count > 0,
    ensures
        average.nanos == total.nanos / (count as u128),
{
    TimingSample { nanos: total.nanos / (count as u128) }
}

/// The contention ratio is the quotient of the two rates: multiplied by the
/// run's rate it gives the baseline's rate.
pub proof fn lemma_contention_is_rate_quotient(count: u32, baseline: TimingSample, run: TimingSample)
    ensures
        contention_of(baseline, run).numer * rate_of(count, run).numer * rate_of(
            count,
            baseline,
        ).denom == rate_of(count, baseline).numer * contention_of(baseline, run).denom * rate_of(
            count,
            run,
        ).denom,
{
    let c = (count * NANOS_PER_SEC) as int;
    let r = run.nanos as int;
    let b = baseline.nanos as int;
    assert(r * c * b == c * b * r) by (nonlinear_arith);
}

/// A run measured against itself has a contention ratio of exactly 1, unless
/// it took no time at all.
pub proof fn lemma_baseline_ratio_is_one(baseline: TimingSample)
    ensures
        contention_of(baseline, baseline).numer == contention_of(baseline, baseline).denom,
        baseline.nanos > 0 ==> contention_of(baseline, baseline).is_one(),
{
}

} // verus!

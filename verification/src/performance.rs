//! The schedule of a benchmark run: a settling period whose frames are not
//! measured, then measured frames until the benchmark's duration has passed;
//! and the averaging of the measured memory use.
use vstd::prelude::*;

verus! {

/// The settling period before frames are measured: two seconds, in
/// nanoseconds.
pub const SETTLE_NANOS: u128 = 2_000_000_000;

/// The longest span a `std::time::Duration` can hold, in nanoseconds.
pub const DURATION_MAX_NANOS: u128 = 18_446_744_073_709_551_615_999_999_999;

/// What one frame's update did.
#[derive(Clone, Copy, Debug, PartialEq, Eq)]
pub enum CollectorStep {
    /// The first frame: the run's clocks start now; nothing is measured.
    Started,
    /// Still settling: nothing is measured.
    Settling,
    /// The frame is measured; `finished` tells whether the run is over.
    Sampled { finished: bool },
}

/// Where a benchmark run stands.
pub struct CollectorSchedule {
    has_started: bool,
    has_printed: bool,
    benchmark_nanos: u128,
}

/// The time at which a run of `benchmark_nanos` ends, counted from its start:
/// the settling period plus the benchmark, capped at the longest span.
pub open spec fn run_end_nanos(benchmark_nanos: int) -> int {
    if benchmark_nanos + SETTLE_NANOS > DURATION_MAX_NANOS {
        DURATION_MAX_NANOS as int
    } else {
        benchmark_nanos + SETTLE_NANOS
    }
}

impl CollectorSchedule {
    pub closed spec fn started(&self) -> bool {
        self.has_started
    }

    pub closed spec fn printed(&self) -> bool {
        self.has_printed
    }

    pub closed spec fn benchmark(&self) -> int {
        self.benchmark_nanos as int
    }

    /// A run of `benchmark_nanos` that has not started and not reported.
    pub fn new(benchmark_nanos: u128) -> (s: CollectorSchedule)
        ensures
            !s.started(),
            !s.printed(),
            s.benchmark() == benchmark_nanos,
    {
        CollectorSchedule { has_started: false, has_printed: false, benchmark_nanos }
    }

    /// One frame's update, `elapsed_nanos` after the run's start.
    pub fn update(&mut self, elapsed_nanos: u128) -> (step: CollectorStep)
        ensures
            final(self).started(),
            final(self).printed() == old(self).printed(),
            final(self).benchmark() == old(self).benchmark(),
            !old(self).started() ==> step == CollectorStep::Started,
            old(self).started() && elapsed_nanos < SETTLE_NANOS ==> step == CollectorStep::Settling,
            old(self).started() && elapsed_nanos >= SETTLE_NANOS ==> step
                == (CollectorStep::Sampled {
                    finished: elapsed_nanos >= run_end_nanos(old(self).benchmark()),
                }),
    {
        if !self.has_started {
            self.has_started = true;
            return CollectorStep::Started;
        }
        if elapsed_nanos < SETTLE_NANOS {
            return CollectorStep::Settling;
        }
        let end = if self.benchmark_nanos > DURATION_MAX_NANOS - SETTLE_NANOS {
            DURATION_MAX_NANOS
        } else {
            self.benchmark_nanos + SETTLE_NANOS
        };
        CollectorStep::Sampled { finished: elapsed_nanos >= end }
    }

    /// Ends the run; tells whether its results are to be reported now, which
    /// is so the first time only.
    pub fn finalise(&mut self) -> (report: bool)
        ensures
            report == !old(self).printed(),
            final(self).printed(),
            final(self).started() == old(self).started(),
            final(self).benchmark() == old(self).benchmark(),
    {
        if self.has_printed {
            false
        } else {
            self.has_printed = true;
            true
        }
    }
}

/// A run is never over before its settling period and its benchmark have both
/// passed (unless that span exceeds the longest one), and it is over at any
/// time past them.
pub proof fn lemma_run_ends_after_benchmark(benchmark_nanos: int, elapsed: int)
    requires
        0 <= benchmark_nanos <= DURATION_MAX_NANOS,
    ensures
        elapsed >= run_end_nanos(benchmark_nanos) && benchmark_nanos + SETTLE_NANOS
            <= DURATION_MAX_NANOS ==> elapsed >= benchmark_nanos + SETTLE_NANOS,
        elapsed >= benchmark_nanos + SETTLE_NANOS ==> elapsed >= run_end_nanos(benchmark_nanos),
        run_end_nanos(benchmark_nanos) >= SETTLE_NANOS,
{
}

/// The sum of the samples `s`.
pub open spec fn sum_samples(s: Seq<u64>) -> int
    decreases s.len(),
{
    if s.len() == 0 {
        0
    } else {
        sum_samples(s.drop_last()) + s.last()
    }
}

proof fn lemma_sum_samples_prefix(s: Seq<u64>, k: int)
    requires
        0 <= k <= s.len(),
    ensures
        0 <= sum_samples(s.take(k)) <= sum_samples(s),
    decreases s.len() - k,
{
    if k < s.len() {
        lemma_sum_samples_prefix(s, k + 1);
        assert(s.take(k + 1).drop_last() =~= s.take(k));
        lemma_sum_samples_nonneg(s.take(k));
    } else {
        assert(s.take(k) =~= s);
        lemma_sum_samples_nonneg(s);
    }
}

proof fn lemma_sum_samples_nonneg(s: Seq<u64>)
    ensures
        sum_samples(s) >= 0,
    decreases s.len(),
{
    if s.len() > 0 {
        lemma_sum_samples_nonneg(s.drop_last());
    }
}

/// The average of the memory-use samples (rounded down), or 0 when there are
/// none.
pub fn average_memory_usage(usages: &Vec<u64>) -> (avg: u64)
    requires
        sum_samples(usages@) <= u64::MAX,
    ensures
        usages@.len() == 0 ==> avg == 0,
        usages@.len() > 0 ==> avg == sum_samples(usages@) / (usages@.len() as int),
{
    let n = usages.len();
    if n == 0 {
        return 0;
    }
    let mut total: u64 = 0;
    for i in 0..n
        invariant
            n == usages@.len(),
            sum_samples(usages@) <= u64::MAX,
            total == sum_samples(usages@.take(i as int)),
    {
        proof {
            lemma_sum_samples_prefix(usages@, i + 1);
            assert(usages@.take(i + 1).drop_last() =~= usages@.take(i as int));
        }
        total = total + usages[i];
    }
    assert(usages@.take(n as int) =~= usages@);
    total / (n as u64)
}

} // verus!

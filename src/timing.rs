use vstd::prelude::*;
use std::time::{Duration, Instant};

use crate::samples::BenchVec;

verus! {

/// std's `Instant`, a reading of the monotonic clock, carried opaquely.
#[verifier::external_type_specification]
#[verifier::external_body]
pub struct ExInstant(Instant);

/// Relies on `Instant::now`: reads the monotonic clock. Nothing is known of the value.
pub assume_specification[ Instant::now ]() -> Instant;

/// Relies on `Instant::elapsed`: the time since the instant, zero where the
/// clock reads earlier; it does not panic. Nothing is known of the value.
pub assume_specification[ Instant::elapsed ](i: &Instant) -> Duration;

/// Relies on `Duration::as_nanos`: the whole nanoseconds of the duration.
pub assume_specification[ Duration::as_nanos ](d: &Duration) -> u128;

/// One sample from two clock readings in nanoseconds: the time between them,
/// zero if the second reading is earlier, and `u64::MAX` if it does not fit.
pub open spec fn span(start: u128, end: u128) -> u64 {
    if end <= start {
        0
    } else if end - start > u64::MAX {
        u64::MAX
    } else {
        (end - start) as u64
    }
}

/// The sample measured between readings `start` and `end` of a clock.
pub fn elapsed_between(start: u128, end: u128) -> (r: u64)
    ensures
        r == span(start, end),
{
    if end <= start {
        0
    } else if end - start > u64::MAX as u128 {
        u64::MAX
    } else {
        (end - start) as u64
    }
}

/// Whether `x` is the sample between two readings that `clock` may return.
pub open spec fn measured_by<C: Fn() -> u128>(clock: C, x: u64) -> bool {
    exists|a: u128, b: u128| clock.ensures((), a) && clock.ensures((), b) && x == span(a, b)
}

/// Runs `workload` `n` times in a row, reading `clock` (in nanoseconds) just
/// before and just after each run, and returns one sample per run, in the
/// order of the runs. What the workload returns is dropped.
pub fn run_with_clock<T, W: Fn() -> T, C: Fn() -> u128>(n: usize, workload: &W, clock: &C) -> (r:
    BenchVec)
    requires
        workload.requires(()),
        clock.requires(()),
    ensures
        r@.len() == n,
        forall|i: int| 0 <= i < n ==> measured_by(*clock, #[trigger] r@[i]),
{
    let mut samples = BenchVec::new();
    let mut i: usize = 0;
    while i < n
        invariant
            i <= n,
            workload.requires(()),
            clock.requires(()),
            samples@.len() == i,
            forall|j: int| 0 <= j < i ==> measured_by(*clock, #[trigger] samples@[j]),
        decreases n - i,
    {
        let start = clock();
        let _ = workload();
        let end = clock();
        let sample = elapsed_between(start, end);
        samples.push(sample);
        assert(measured_by(*clock, samples@[i as int]));
        i += 1;
    }
    samples
}

/// Nanoseconds passed since `origin` on the monotonic clock.
fn nanos_since(origin: &Instant) -> u128 {
    let d = origin.elapsed();
    d.as_nanos()
}

/// Runs `func` `n` times in a row on the monotonic clock and returns one
/// sample per run, in the order of the runs.
pub fn bench_n_times<T, F: Fn() -> T>(n: usize, func: F) -> (r: BenchVec)
    requires
        func.requires(()),
    ensures
        r@.len() == n,
{
    let origin = Instant::now();
    let clock = || nanos_since(&origin);
    run_with_clock(n, &func, &clock)
}

} // verus!

use std::cell::Cell;

use benchvec::samples::StatsError;
use benchvec::session::{Session, DEFAULT_ITERATIONS};
use benchvec::timing::{bench_n_times, elapsed_between, run_with_clock};
use benchvec::workloads::{bitshift_byte, max_u64_multiplications};

const MS: u128 = 1_000_000;

/// A clock that moves forward by `step` nanoseconds on every reading.
fn stepping_clock(step: u128) -> impl Fn() -> u128 {
    let now = Cell::new(0u128);
    move || {
        let t = now.get();
        now.set(t + step);
        t
    }
}

#[test]
fn elapsed_between_values() {
    assert_eq!(elapsed_between(100, 350), 250);
    assert_eq!(elapsed_between(350, 100), 0);
    assert_eq!(elapsed_between(7, 7), 0);
    assert_eq!(elapsed_between(0, u64::MAX as u128 + 5), u64::MAX);
}

#[test]
fn run_gives_one_sample_per_invocation() {
    let calls = Cell::new(0u32);
    let work = || calls.set(calls.get() + 1);
    let clock = stepping_clock(MS);
    let v = run_with_clock(4, &work, &clock);
    assert_eq!(v.len(), 4);
    assert_eq!(calls.get(), 4);
}

#[test]
fn run_samples_in_invocation_order() {
    let start = Cell::new(0u128);
    let clock = || start.get();
    let round = Cell::new(0u128);
    let work = || {
        let r = round.get() + 1;
        round.set(r);
        start.set(start.get() + r * 10);
    };
    let v = run_with_clock(4, &work, &clock);
    assert_eq!(v.inner, vec![10, 20, 30, 40]);
}

#[test]
fn run_zero_times_is_empty() {
    let clock = stepping_clock(MS);
    let v = run_with_clock(0, &|| 1u8, &clock);
    assert_eq!(v.len(), 0);
    assert_eq!(v.average(), Err(StatsError::EmptySample));
}

#[test]
fn bench_n_times_on_real_clock() {
    let v = bench_n_times(3, || 2 + 2);
    assert_eq!(v.len(), 3);
}

#[test]
fn session_defaults() {
    let s = Session::new();
    assert_eq!(s.iterations, DEFAULT_ITERATIONS);
    assert_eq!(s.len(), 0);
    assert!(s.comparisons().is_empty());
}

#[test]
fn session_end_to_end_with_mock_clock() {
    let mut s = Session::new();
    s.iterations(5)
        .bench_with_clock("constant".to_string(), || (), stepping_clock(MS));
    assert_eq!(s.len(), 1);
    let samples = &s.entries[0].samples;
    assert_eq!(s.entries[0].name, "constant");
    assert_eq!(samples.len(), 5);
    assert!(samples.inner.iter().all(|d| *d as u128 == MS));
    assert_eq!(samples.average(), Ok(1_000_000));
    let (sum, den) = samples.dispersion_terms().unwrap();
    assert_eq!((sum, den), (5_000_000, 4));
    let d = (sum as f64 / den as f64).sqrt();
    assert!(d.is_finite());
    assert_eq!(d, 1_250_000f64.sqrt());
}

#[test]
fn session_iterations_not_retroactive() {
    let mut s = Session::new();
    s.iterations(2)
        .bench_with_clock("a".to_string(), || (), stepping_clock(10))
        .iterations(3)
        .bench_with_clock("b".to_string(), || (), stepping_clock(10));
    assert_eq!(s.entries[0].samples.len(), 2);
    assert_eq!(s.entries[1].samples.len(), 3);
    assert_eq!(s.iterations, 3);
}

#[test]
fn session_compares_each_with_previous() {
    let mut s = Session::new();
    s.iterations(3)
        .bench_with_clock("slow".to_string(), || (), stepping_clock(100))
        .bench_with_clock("fast".to_string(), || (), stepping_clock(60))
        .bench_with_clock("same".to_string(), || (), stepping_clock(60));
    let c = s.comparisons();
    assert_eq!(c.len(), 2);
    let first = c[0].unwrap();
    assert_eq!((first.inner, first.positive), (40, false));
    let second = c[1].unwrap();
    assert_eq!((second.inner, second.positive), (0, false));
    // entries are kept; a second walk gives the same result
    assert_eq!(s.comparisons(), c);
    assert_eq!(s.len(), 3);
}

#[test]
fn session_record_and_empty_comparison() {
    let mut s = Session::new();
    s.record("none".to_string(), benchvec::samples::BenchVec::new())
        .record("one".to_string(), benchvec::samples::BenchVec::from_vec(&vec![5]));
    assert_eq!(s.comparisons(), vec![Err(StatsError::EmptySample)]);
}

#[test]
fn session_bench_on_real_clock() {
    let mut s = Session::new();
    s.iterations(4).bench("add".to_string(), || 1 + 1);
    assert_eq!(s.entries[0].samples.len(), 4);
}

#[test]
fn max_u64_product() {
    assert_eq!(max_u64_multiplications(0), 0);
    assert_eq!(max_u64_multiplications(3), u64::MAX as u128 * u64::MAX as u128);
}

#[test]
fn bitshift_stays_zero() {
    assert_eq!(bitshift_byte(0), 0);
    assert_eq!(bitshift_byte(9), 0);
}

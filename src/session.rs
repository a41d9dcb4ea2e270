use vstd::prelude::*;

use crate::compare::DurationDifference;
use crate::samples::{comparison, BenchVec, StatsError};
use crate::timing::{bench_n_times, measured_by, run_with_clock};

verus! {

/// How many times a session runs each workload unless told otherwise.
pub const DEFAULT_ITERATIONS: usize = 1000;

/// One benchmarked workload: its name and its samples.
#[derive(Debug)]
pub struct Entry {
    pub name: String,
    pub samples: BenchVec,
}

/// A chained benchmarking session: the iteration count for workloads
/// benchmarked from now on, and the entries benchmarked so far, in order.
#[derive(Debug)]
pub struct Session {
    pub iterations: usize,
    pub entries: Vec<Entry>,
}

impl Session {
    /// Whether the iteration count is positive.
    pub open spec fn wf(&self) -> bool {
        self.iterations >= 1
    }

    /// The samples of each entry, in order.
    pub open spec fn sample_sets(&self) -> Seq<Seq<u64>> {
        Seq::new(self.entries@.len(), |k: int| self.entries@[k].samples@)
    }

    /// The names of the entries, in order.
    pub open spec fn names(&self) -> Seq<Seq<char>> {
        Seq::new(self.entries@.len(), |k: int| self.entries@[k].name@)
    }

    /// What comparing each entry with the one benchmarked before it gives.
    pub open spec fn comparisons_spec(&self) -> Seq<Result<DurationDifference, StatsError>> {
        let sets = self.sample_sets();
        Seq::new(
            if sets.len() == 0 { 0 } else { (sets.len() - 1) as nat },
            |k: int| comparison(sets[k + 1], sets[k]),
        )
    }

    /// A new session with no entries that runs each workload `DEFAULT_ITERATIONS` times.
    pub fn new() -> (r: Self)
        ensures
            r.wf(),
            r.iterations == DEFAULT_ITERATIONS,
            r.entries@.len() == 0,
    {
        Session { iterations: DEFAULT_ITERATIONS, entries: Vec::new() }
    }

    /// Sets how many times the workloads benchmarked from now on are run.
    /// Entries benchmarked before keep their samples.
    pub fn iterations(&mut self, n: usize) -> (r: &mut Self)
        requires
            n >= 1,
        ensures
            r.wf(),
            r.iterations == n,
            r.entries@ == old(self).entries@,
            *final(self) == *final(r),
    {
        self.iterations = n;
        self
    }

    /// Adds an entry with already measured samples at the end.
    pub fn record(&mut self, name: String, samples: BenchVec) -> (r: &mut Self)
        ensures
            r.iterations == old(self).iterations,
            r.sample_sets() == old(self).sample_sets().push(samples@),
            r.names() == old(self).names().push(name@),
            *final(self) == *final(r),
    {
        let ghost name_view = name@;
        let ghost samples_view = samples@;
        self.entries.push(Entry { name, samples });
        assert(self.sample_sets() =~= old(self).sample_sets().push(samples_view));
        assert(self.names() =~= old(self).names().push(name_view));
        self
    }

    /// Runs `func` the configured number of times on the monotonic clock and
    /// adds its samples under `name`.
    pub fn bench<T, F: Fn() -> T>(&mut self, name: String, func: F) -> (r: &mut Self)
        requires
            func.requires(()),
        ensures
            r.iterations == old(self).iterations,
            r.sample_sets().drop_last() == old(self).sample_sets(),
            r.sample_sets().len() == old(self).sample_sets().len() + 1,
            r.sample_sets().last().len() == old(self).iterations,
            r.names() == old(self).names().push(name@),
            *final(self) == *final(r),
    {
        let samples = bench_n_times(self.iterations, func);
        let ghost s = samples@;
        let r = self.record(name, samples);
        assert(r.sample_sets().last() == s);
        assert(r.sample_sets().drop_last() =~= old(self).sample_sets());
        r
    }

    /// Runs `func` the configured number of times, timed with `clock` (in
    /// nanoseconds), and adds its samples under `name`.
    pub fn bench_with_clock<T, F: Fn() -> T, C: Fn() -> u128>(
        &mut self,
        name: String,
        func: F,
        clock: C,
    ) -> (r: &mut Self)
        requires
            func.requires(()),
            clock.requires(()),
        ensures
            r.iterations == old(self).iterations,
            r.sample_sets().drop_last() == old(self).sample_sets(),
            r.sample_sets().len() == old(self).sample_sets().len() + 1,
            r.sample_sets().last().len() == old(self).iterations,
            forall|i: int|
                0 <= i < old(self).iterations ==> measured_by(
                    clock,
                    #[trigger] r.sample_sets().last()[i],
                ),
            r.names() == old(self).names().push(name@),
            *final(self) == *final(r),
    {
        let samples = run_with_clock(self.iterations, &func, &clock);
        let ghost s = samples@;
        let r = self.record(name, samples);
        assert(r.sample_sets().last() == s);
        assert(r.sample_sets().drop_last() =~= old(self).sample_sets());
        r
    }

    /// Compares each entry with the one benchmarked before it, in order:
    /// element `k` compares entry `k + 1` (first) with entry `k` (second).
    /// The entries are kept, so a later call walks them again from the start.
    pub fn comparisons(&self) -> (r: Vec<Result<DurationDifference, StatsError>>)
        ensures
            r@ == self.comparisons_spec(),
    {
        let n = self.entries.len();
        let mut out: Vec<Result<DurationDifference, StatsError>> = Vec::new();
        if n == 0 {
            assert(out@ =~= self.comparisons_spec());
            return out;
        }
        let mut k: usize = 0;
        while k + 1 < n
            invariant
                n == self.entries@.len(),
                n >= 1,
                k + 1 <= n,
                out@ == self.comparisons_spec().take(k as int),
            decreases n - k,
        {
            let earlier = BenchVec::from_vec(&self.entries[k].samples.inner);
            let c = self.entries[k + 1].samples.compare(earlier);
            out.push(c);
            k += 1;
            assert(out@ =~= self.comparisons_spec().take(k as int));
        }
        assert(out@ =~= self.comparisons_spec());
        out
    }

    /// Number of entries benchmarked so far.
    pub fn len(&self) -> (r: usize)
        ensures
            r == self.entries@.len(),
    {
        self.entries.len()
    }
}

} // verus!

use vstd::prelude::*;
use rayon::iter::{IntoParallelRefIterator, ParallelIterator};
use vstd::seq_lib::group_to_multiset_ensures;

use crate::compare::{compare_means, difference, DurationDifference};

verus! {

/// How many samples a short preview of a sample set shows at most.
pub const PREVIEW_LEN: usize = 10;

/// Total of a sequence of nanosecond samples.
pub open spec fn total(s: Seq<u64>) -> int
    decreases s.len(),
{
    if s.len() == 0 {
        0
    } else {
        total(s.drop_last()) + s.last() as int
    }
}

/// Mean of a non-empty sequence of samples, rounded down to whole nanoseconds.
pub open spec fn mean(s: Seq<u64>) -> int
    recommends
        s.len() > 0,
{
    total(s) / (s.len() as int)
}

/// What comparing the samples `a` with the samples `b` gives: the difference
/// of their means, or the empty-sample error if either holds no samples.
pub open spec fn comparison(a: Seq<u64>, b: Seq<u64>) -> Result<DurationDifference, StatsError> {
    if a.len() == 0 || b.len() == 0 {
        Err(StatsError::EmptySample)
    } else {
        Ok(difference(mean(a) as u64, mean(b) as u64))
    }
}

/// Why a statistic cannot be computed from a sample set.
#[derive(Debug, Clone, Copy, PartialEq, Eq, Structural)]
pub enum StatsError {
    /// The sample set holds no samples.
    EmptySample,
    /// The dispersion divides by `count - 1`, which is zero for one sample.
    DegenerateDispersion,
}

/// An ordered, append-only set of timing samples, each a duration in
/// nanoseconds, in the order in which they were measured.
#[derive(Debug, Clone)]
pub struct BenchVec {
    pub inner: Vec<u64>,
}

impl View for BenchVec {
    type V = Seq<u64>;

    open spec fn view(&self) -> Seq<u64> {
        self.inner@
    }
}

/// The total of a concatenation is the sum of the totals.
pub proof fn lemma_total_concat(a: Seq<u64>, b: Seq<u64>)
    ensures
        total(a + b) == total(a) + total(b),
    decreases b.len(),
{
    if b.len() == 0 {
        assert(a + b =~= a);
    } else {
        lemma_total_concat(a, b.drop_last());
        assert((a + b).drop_last() =~= a + b.drop_last());
    }
}

/// Every sample is at most `u64::MAX`, so the total is at most that many times the length.
pub proof fn lemma_total_bound(s: Seq<u64>)
    ensures
        0 <= total(s) <= s.len() * (u64::MAX as int),
    decreases s.len(),
{
    if s.len() > 0 {
        lemma_total_bound(s.drop_last());
        assert(s.len() * (u64::MAX as int) == (s.len() - 1) * (u64::MAX as int) + u64::MAX)
            by (nonlinear_arith);
    }
}

/// Taking one sample out of the middle lowers the total by that sample.
proof fn lemma_total_remove(s: Seq<u64>, i: int)
    requires
        0 <= i < s.len(),
    ensures
        total(s) == total(s.remove(i)) + s[i] as int,
{
    let pre = s.subrange(0, i);
    let post = s.subrange(i + 1, s.len() as int);
    assert(s =~= pre + seq![s[i]] + post);
    assert(s.remove(i) =~= pre + post);
    lemma_total_concat(pre + seq![s[i]], post);
    lemma_total_concat(pre, seq![s[i]]);
    lemma_total_concat(pre, post);
    let one = seq![s[i]];
    assert(one.drop_last() =~= Seq::<u64>::empty());
    assert(total(one.drop_last()) == 0);
    assert(total(one) == s[i] as int);
}

/// The total of samples depends only on which samples there are, not on
/// their order: any two sequences with the same multiset of samples, such as
/// the results of appending the same sample sets in different orders, have
/// the same total.
pub proof fn lemma_total_reorder(s: Seq<u64>, t: Seq<u64>)
    requires
        s.to_multiset() == t.to_multiset(),
    ensures
        total(s) == total(t),
    decreases s.len(),
{
    broadcast use group_to_multiset_ensures;

    if s.len() == 0 {
        assert(s.to_multiset().len() == 0);
        assert(t.to_multiset().len() == t.len());
    } else {
        let x = s.last();
        assert(s.drop_last().push(x) =~= s);
        assert(s.to_multiset().count(x) > 0);
        assert(t.contains(x));
        let i = choose|i: int| 0 <= i < t.len() && t[i] == x;
        assert(s.drop_last().to_multiset() =~= t.remove(i).to_multiset());
        lemma_total_reorder(s.drop_last(), t.remove(i));
        lemma_total_remove(t, i);
    }
}

/// Appending sample sets one after another in either order gives the same total.
pub proof fn lemma_total_append_commutes(a: Seq<u64>, b: Seq<u64>)
    ensures
        total(a + b) == total(b + a),
{
    lemma_total_concat(a, b);
    lemma_total_concat(b, a);
}

/// A sample set of `n >= 1` samples that all equal `d` has mean exactly `d`.
pub proof fn lemma_uniform_mean(d: u64, n: nat)
    requires
        n >= 1,
    ensures
        total(Seq::new(n, |i: int| d)) == n * d,
        mean(Seq::new(n, |i: int| d)) == d,
    decreases n,
{
    let s = Seq::new(n, |i: int| d);
    assert(s.last() == d);
    if n > 1 {
        lemma_uniform_mean(d, (n - 1) as nat);
        assert(s.drop_last() =~= Seq::new((n - 1) as nat, |i: int| d));
        assert(n * d == (n - 1) * d + d) by (nonlinear_arith);
    } else {
        assert(s.drop_last() =~= Seq::<u64>::empty());
        assert(total(s) == total(s.drop_last()) + d);
    }
    let t = total(s);
    assert(t == n * d);
    assert(t / (n as int) == d as int) by (nonlinear_arith)
        requires n >= 1, t == n * d;
}

/// The mean of non-empty samples fits in a sample.
proof fn lemma_mean_bound(s: Seq<u64>)
    requires
        s.len() > 0,
    ensures
        0 <= mean(s) <= u64::MAX,
{
    lemma_total_bound(s);
    let n = s.len() as int;
    let t = total(s);
    let m = u64::MAX as int;
    assert(0 <= t / n <= m) by (nonlinear_arith)
        requires n > 0, 0 <= t <= n * m, m > 0;
}

/// Sums nanosecond samples with rayon's parallel `sum`.
/// Relies on `ParallelIterator::sum` over `u128`: each part is summed with
/// `Iterator::sum` and the parts are added, so on integers whose total fits
/// the result is the exact total, whatever way the work is split.
#[verifier::external_body]
fn parallel_total(v: &Vec<u64>) -> (r: u128)
    requires
        total(v@) <= u128::MAX,
    ensures
        r == total(v@),
{
    v.par_iter().map(widen).sum::<u128>()
}

/// A sample as a `u128`, for summing.
fn widen(x: &u64) -> (r: u128)
    ensures
        r == *x,
{
    *x as u128
}

impl BenchVec {
    /// Creates an empty sample set.
    pub fn new() -> (r: Self)
        ensures
            r@ == Seq::<u64>::empty(),
    {
        BenchVec { inner: Vec::new() }
    }

    /// Creates a sample set holding a copy of `vec`.
    pub fn from_vec(vec: &Vec<u64>) -> (r: Self)
        ensures
            r@ == vec@,
    {
        BenchVec { inner: vec.clone() }
    }

    /// Adds one sample at the end.
    pub fn push(&mut self, item: u64) -> (r: &mut Self)
        ensures
            r@ == old(self)@.push(item),
            *final(self) == *final(r),
    {
        self.inner.push(item);
        self
    }

    /// Appends the samples of `other` after those of `self`, in their order.
    pub fn append(&mut self, other: Self) -> (r: &mut Self)
        ensures
            r@ == old(self)@ + other@,
            *final(self) == *final(r),
    {
        let mut rest = other.inner;
        self.inner.append(&mut rest);
        self
    }

    /// Number of samples.
    pub fn len(&self) -> (r: usize)
        ensures
            r == self@.len(),
    {
        self.inner.len()
    }

    /// Total of all samples in nanoseconds.
    pub fn sum(&self) -> (r: u128)
        ensures
            r == total(self@),
    {
        let n = self.inner.len();
        proof {
            lemma_total_bound(self@);
            let m = u64::MAX as int;
            assert(n * m <= u128::MAX) by (nonlinear_arith)
                requires 0 <= n <= u64::MAX, m == u64::MAX;
        }
        parallel_total(&self.inner)
    }

    /// Mean of the samples in nanoseconds, rounded down.
    pub fn average(&self) -> (r: Result<u64, StatsError>)
        ensures
            self@.len() == 0 ==> r == Err::<u64, StatsError>(StatsError::EmptySample),
            self@.len() > 0 ==> r == Ok::<u64, StatsError>(mean(self@) as u64),
    {
        let n = self.inner.len();
        if n == 0 {
            return Err(StatsError::EmptySample);
        }
        let s = self.sum();
        proof {
            lemma_mean_bound(self@);
        }
        Ok((s / (n as u128)) as u64)
    }

    /// The two operands of the dispersion `sqrt(sum / (count - 1))`: the total
    /// in nanoseconds and `count - 1`. The square root itself is left to the
    /// caller.
    pub fn dispersion_terms(&self) -> (r: Result<(u128, u128), StatsError>)
        ensures
            self@.len() == 0 ==> r == Err::<(u128, u128), StatsError>(StatsError::EmptySample),
            self@.len() == 1 ==> r == Err::<(u128, u128), StatsError>(
                StatsError::DegenerateDispersion,
            ),
            self@.len() >= 2 ==> r == Ok::<(u128, u128), StatsError>(
                (total(self@) as u128, (self@.len() - 1) as u128),
            ),
    {
        let n = self.inner.len();
        if n == 0 {
            Err(StatsError::EmptySample)
        } else if n == 1 {
            Err(StatsError::DegenerateDispersion)
        } else {
            Ok((self.sum(), (n - 1) as u128))
        }
    }

    /// Compares the means of `self` and `other`.
    pub fn compare(&self, other: Self) -> (r: Result<DurationDifference, StatsError>)
        ensures
            r == comparison(self@, other@),
    {
        let a = match self.average() {
            Ok(a) => a,
            Err(e) => return Err(e),
        };
        let b = match other.average() {
            Ok(b) => b,
            Err(e) => return Err(e),
        };
        Ok(compare_means(a, b))
    }

    /// The first samples, at most `PREVIEW_LEN` of them, and whether any were left out.
    pub fn preview(&self) -> (r: (Vec<u64>, bool))
        ensures
            self@.len() <= PREVIEW_LEN ==> r.0@ == self@ && !r.1,
            self@.len() > PREVIEW_LEN ==> r.0@ == self@.take(PREVIEW_LEN as int) && r.1,
    {
        let n = self.inner.len();
        let k = if n <= PREVIEW_LEN { n } else { PREVIEW_LEN };
        let mut out: Vec<u64> = Vec::new();
        let mut i: usize = 0;
        while i < k
            invariant
                k <= n == self@.len(),
                i <= k,
                out@ == self@.take(i as int),
            decreases k - i,
        {
            out.push(self.inner[i]);
            i += 1;
            assert(out@ =~= self@.take(i as int));
        }
        assert(self@.take(n as int) =~= self@);
        (out, n > PREVIEW_LEN)
    }
}

} // verus!

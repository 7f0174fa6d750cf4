//! Sample lists: ordering them and reading order statistics off them.
//!
//! Latencies, hop counts, downtime and reconnect durations are all kept as
//! plain lists of `u64` samples. Every statistic over such a list is defined
//! on the list in ascending order; percentiles use the nearest-rank rule.

use vstd::prelude::*;
use vstd::relations::{sorted_by, total_ordering};
use vstd::seq_lib::lemma_sorted_unique;

verus! {

/// The usual order on samples, as a relation.
pub open spec fn leq() -> spec_fn(u64, u64) -> bool {
    |a: u64, b: u64| a <= b
}

/// No sample is followed by a smaller one.
pub open spec fn ascending(s: Seq<u64>) -> bool {
    forall|i: int, j: int| 0 <= i <= j < s.len() ==> s[i] <= s[j]
}

/// The samples of `s` in ascending order.
pub open spec fn sorted(s: Seq<u64>) -> Seq<u64> {
    s.sort_by(leq())
}

/// Sum of all samples, as a mathematical integer.
pub open spec fn total(s: Seq<u64>) -> nat
    decreases s.len(),
{
    if s.len() == 0 {
        0
    } else {
        total(s.drop_last()) + s.last() as nat
    }
}

/// Index picked by the nearest-rank rule in a list of `n > 0` samples for the
/// `percent`-th percentile: `(n - 1) * percent / 100`, rounded to the nearest
/// integer, halves rounded up.
pub open spec fn nearest_rank(n: nat, percent: nat) -> int {
    ((n - 1) * percent + 50) / 100
}

/// The `percent`-th percentile of an ascending list by the nearest-rank rule.
/// Absent for an empty list, and for a rank past the end (`percent > 100`).
pub open spec fn quantile(s: Seq<u64>, percent: nat) -> Option<u64> {
    if 0 < s.len() && nearest_rank(s.len(), percent) < s.len() {
        Some(s[nearest_rank(s.len(), percent)])
    } else {
        None
    }
}

/// First sample of an ascending list: its minimum. Absent when empty.
pub open spec fn smallest(s: Seq<u64>) -> Option<u64> {
    if s.len() > 0 {
        Some(s.first())
    } else {
        None
    }
}

/// Last sample of an ascending list: its maximum. Absent when empty.
pub open spec fn largest(s: Seq<u64>) -> Option<u64> {
    if s.len() > 0 {
        Some(s.last())
    } else {
        None
    }
}

/// The `percent`-th percentile of samples in any order: the nearest-rank
/// percentile of the samples in ascending order. Absent without samples.
pub open spec fn percentile(samples: Seq<u64>, percent: nat) -> Option<u64> {
    if samples.len() == 0 {
        None
    } else {
        quantile(sorted(samples), percent)
    }
}

/// The smallest of the samples. Absent without samples.
pub open spec fn minimum(samples: Seq<u64>) -> Option<u64> {
    if samples.len() == 0 {
        None
    } else {
        smallest(sorted(samples))
    }
}

/// The largest of the samples. Absent without samples.
pub open spec fn maximum(samples: Seq<u64>) -> Option<u64> {
    if samples.len() == 0 {
        None
    } else {
        largest(sorted(samples))
    }
}

proof fn lemma_leq_total()
    ensures
        total_ordering(leq()),
{
}

/// `sorted(s)` is ascending and holds exactly the samples of `s`.
pub proof fn lemma_sorted(s: Seq<u64>)
    ensures
        ascending(sorted(s)),
        sorted(s).to_multiset() == s.to_multiset(),
        sorted(s).len() == s.len(),
{
    lemma_leq_total();
    s.lemma_sort_by_ensures(leq());
    let t = sorted(s);
    assert(sorted_by(t, leq()));
    assert forall|i: int, j: int| 0 <= i <= j < t.len() implies t[i] <= t[j] by {
        if i < j {
            assert(leq()(t[i], t[j]));
        }
    }
    s.to_multiset_ensures();
    t.to_multiset_ensures();
}

/// An ascending list with the samples of `s` is `sorted(s)`: the order of a
/// list of integers is determined by what it holds.
pub proof fn lemma_ascending_is_sorted(a: Seq<u64>, s: Seq<u64>)
    requires
        ascending(a),
        a.to_multiset() == s.to_multiset(),
    ensures
        a == sorted(s),
{
    lemma_leq_total();
    lemma_sorted(s);
    let t = sorted(s);
    assert(sorted_by(a, leq())) by {
        assert forall|i: int, j: int| 0 <= i < j < a.len() implies #[trigger] leq()(
            a[i],
            a[j],
        ) by {}
    }
    s.lemma_sort_by_ensures(leq());
    lemma_sorted_unique(a, t, leq());
}

/// A total never exceeds what as many maximal samples would sum to.
pub proof fn lemma_total_bound(s: Seq<u64>)
    ensures
        total(s) <= s.len() * u64::MAX,
    decreases s.len(),
{
    if s.len() > 0 {
        lemma_total_bound(s.drop_last());
        assert(total(s.drop_last()) + s.last() <= (s.len() - 1) * u64::MAX + u64::MAX);
        assert((s.len() - 1) * u64::MAX + u64::MAX == s.len() * u64::MAX) by (nonlinear_arith);
    }
}

/// Sorts a sample list in place with `sort_unstable` of the standard library,
/// which documents that it leaves the slice in ascending order; it moves
/// elements and neither adds nor drops any.
#[verifier::external_body]
fn sort_unstable(v: &mut Vec<u64>)
    ensures
        ascending(final(v)@),
        final(v)@.to_multiset() == old(v)@.to_multiset(),
{
    v.sort_unstable();
}

/// Puts the samples of `v` in ascending order.
pub fn sort_samples(v: &mut Vec<u64>)
    ensures
        final(v)@ == sorted(old(v)@),
{
    let ghost before = v@;
    sort_unstable(v);
    proof {
        lemma_ascending_is_sorted(v@, before);
    }
}

/// Nearest-rank percentile of an ascending sample list.
///
/// The rank is `round((n - 1) * percent / 100)`, halves rounded up, and the
/// result is the sample at that rank: for five samples the median is the
/// third and the 90th percentile the fifth. An empty list has no percentile.
pub fn quantil(samples: &[u64], percent: u64) -> (q: Option<u64>)
    ensures
        q == quantile(samples@, percent as nat),
{
    let n = samples.len();
    if n == 0 {
        return None;
    }
    let steps: u128 = (n - 1) as u128;
    assert(steps * (percent as u128) + 50 <= u128::MAX) by (nonlinear_arith)
        requires
            steps <= u64::MAX,
            percent <= u64::MAX,
    ;
    let rank: u128 = (steps * (percent as u128) + 50) / 100;
    if rank < n as u128 {
        Some(samples[rank as usize])
    } else {
        None
    }
}

/// Sum of all samples. It cannot overflow: a list holds fewer than 2^64
/// samples of less than 2^64 each.
pub fn sum_samples(samples: &[u64]) -> (sum: u128)
    ensures
        sum == total(samples@),
{
    let mut sum: u128 = 0;
    let mut i: usize = 0;
    while i < samples.len()
        invariant
            i <= samples.len(),
            sum == total(samples@.take(i as int)),
        decreases samples.len() - i,
    {
        proof {
            let next = samples@.take(i + 1);
            assert(next.drop_last() == samples@.take(i as int));
            lemma_total_bound(next);
            assert(next.len() * u64::MAX <= usize::MAX * u64::MAX) by (nonlinear_arith)
                requires
                    next.len() <= usize::MAX,
            ;
            assert(usize::MAX * u64::MAX <= u64::MAX * u64::MAX) by (nonlinear_arith)
                requires
                    usize::MAX <= u64::MAX,
            ;
        }
        sum = sum + samples[i] as u128;
        i = i + 1;
    }
    proof {
        assert(samples@.take(i as int) == samples@);
    }
    sum
}

/// Smallest sample of an ascending list.
pub fn first_sample(samples: &[u64]) -> (m: Option<u64>)
    ensures
        m == smallest(samples@),
{
    if samples.len() > 0 {
        Some(samples[0])
    } else {
        None
    }
}

/// Largest sample of an ascending list.
pub fn last_sample(samples: &[u64]) -> (m: Option<u64>)
    ensures
        m == largest(samples@),
{
    if samples.len() > 0 {
        Some(samples[samples.len() - 1])
    } else {
        None
    }
}

} // verus!

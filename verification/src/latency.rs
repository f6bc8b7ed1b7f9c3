//! The figures of the kernel shell's latency and throughput measurements:
//! a run of samples put in ascending order, the minimum, maximum, mean and
//! median drawn from it, and the message rate of a burst.

use vstd::prelude::*;

verus! {

broadcast use vstd::seq_lib::to_multiset_insert;

/// Where `x` goes in `s`: before the first element that is not smaller.
pub open spec fn insert_position(s: Seq<u64>, x: u64) -> nat
    decreases s.len(),
{
    if s.len() == 0 || x <= s[0] {
        0
    } else {
        1 + insert_position(s.drop_first(), x)
    }
}

/// `s` with `x` placed before its first element that is not smaller.
pub open spec fn insert_in_order(s: Seq<u64>, x: u64) -> Seq<u64> {
    s.insert(insert_position(s, x) as int, x)
}

/// The samples in ascending order, each sample placed in turn.
pub open spec fn sorted_samples(s: Seq<u64>) -> Seq<u64>
    decreases s.len(),
{
    if s.len() == 0 {
        s
    } else {
        insert_in_order(sorted_samples(s.drop_last()), s.last())
    }
}

/// No element is greater than one after it.
pub open spec fn ascending(s: Seq<u64>) -> bool {
    forall|i: int, j: int| 0 <= i <= j < s.len() ==> s[i] <= s[j]
}

/// The sum of the samples.
pub open spec fn total(s: Seq<u64>) -> int
    decreases s.len(),
{
    if s.len() == 0 {
        0
    } else {
        total(s.drop_last()) + s.last()
    }
}

/// The insert position is the number of leading elements smaller than `x`.
proof fn lemma_insert_position(s: Seq<u64>, x: u64)
    ensures
        insert_position(s, x) <= s.len(),
        forall|j: int| 0 <= j < insert_position(s, x) ==> s[j] < x,
        insert_position(s, x) < s.len() ==> x <= s[insert_position(s, x) as int],
    decreases s.len(),
{
    if s.len() > 0 && x > s[0] {
        lemma_insert_position(s.drop_first(), x);
        assert forall|j: int| 0 <= j < insert_position(s, x) implies s[j] < x by {
            if j > 0 {
                assert(s[j] == s.drop_first()[j - 1]);
            }
        }
    }
}

/// A position before which every element is smaller than `x` and at which
/// the element is not smaller (or the end) is the insert position.
proof fn lemma_position_found(s: Seq<u64>, x: u64, k: int)
    requires
        0 <= k <= s.len(),
        forall|j: int| 0 <= j < k ==> s[j] < x,
        k < s.len() ==> x <= s[k],
    ensures
        insert_position(s, x) == k,
    decreases s.len(),
{
    if k > 0 {
        assert forall|j: int| 0 <= j < k - 1 implies s.drop_first()[j] < x by {
            assert(s.drop_first()[j] == s[j + 1]);
        }
        if k - 1 < s.len() - 1 {
            assert(s.drop_first()[k - 1] == s[k]);
        }
        lemma_position_found(s.drop_first(), x, k - 1);
    }
}

/// Placing `x` in an ascending sequence keeps it ascending and adds `x` to
/// what it holds.
proof fn lemma_insert_in_order(s: Seq<u64>, x: u64)
    requires
        ascending(s),
    ensures
        ascending(insert_in_order(s, x)),
        insert_in_order(s, x).to_multiset() == s.to_multiset().insert(x),
        insert_in_order(s, x).len() == s.len() + 1,
{
    lemma_insert_position(s, x);
    let k = insert_position(s, x) as int;
    let r = insert_in_order(s, x);
    assert forall|i: int, j: int| 0 <= i <= j < r.len() implies r[i] <= r[j] by {
        if j < k {
        } else if j == k {
            if i < k {
                assert(r[i] == s[i]);
            }
        } else if i < k {
            assert(r[i] == s[i]);
            assert(r[j] == s[j - 1]);
        } else if i == k {
            assert(r[j] == s[j - 1]);
            assert(x <= s[k]);
        } else {
            assert(r[i] == s[i - 1]);
            assert(r[j] == s[j - 1]);
        }
    }
}

/// The samples in ascending order are in ascending order and hold the same
/// samples, each as many times.
pub proof fn lemma_sorted_samples(s: Seq<u64>)
    ensures
        ascending(sorted_samples(s)),
        sorted_samples(s).to_multiset() == s.to_multiset(),
        sorted_samples(s).len() == s.len(),
    decreases s.len(),
{
    broadcast use vstd::seq_lib::group_to_multiset_ensures;

    if s.len() == 0 {
    } else {
        lemma_sorted_samples(s.drop_last());
        lemma_insert_in_order(sorted_samples(s.drop_last()), s.last());
        assert(s =~= s.drop_last().push(s.last()));
    }
}

/// A prefix sums to no more than the whole.
proof fn lemma_total_prefix(s: Seq<u64>, i: int)
    requires
        0 <= i <= s.len(),
    ensures
        total(s.take(i)) <= total(s),
    decreases s.len(),
{
    if i < s.len() {
        assert(s.drop_last().take(i) =~= s.take(i));
        lemma_total_prefix(s.drop_last(), i);
    } else {
        assert(s.take(i) =~= s);
    }
}

/// Samples that all lie between `lo` and `hi` sum to between `n * lo` and
/// `n * hi`.
proof fn lemma_total_bounds(s: Seq<u64>, lo: int, hi: int)
    requires
        forall|i: int| 0 <= i < s.len() ==> lo <= #[trigger] s[i] <= hi,
    ensures
        s.len() * lo <= total(s) <= s.len() * hi,
    decreases s.len(),
{
    if s.len() > 0 {
        let t = s.drop_last();
        assert forall|i: int| 0 <= i < t.len() implies lo <= #[trigger] t[i] <= hi by {
            assert(t[i] == s[i]);
        }
        lemma_total_bounds(t, lo, hi);
        let n = t.len() as int;
        assert(s.last() == s[n]);
        assert((n + 1) * lo == n * lo + lo) by (nonlinear_arith);
        assert((n + 1) * hi == n * hi + hi) by (nonlinear_arith);
    }
}

/// The figures of a run keep their order: the minimum is no more than the
/// median or the mean, and neither is more than the maximum.
pub proof fn lemma_latency_figures_ordered(samples: Seq<u64>)
    requires
        samples.len() > 0,
    ensures
        ({
            let s = sorted_samples(samples);
            let n = samples.len() as int;
            &&& s[0] <= s[n / 2] <= s[n - 1]
            &&& s[0] <= total(samples) / n <= s[n - 1]
        }),
{
    broadcast use vstd::seq_lib::group_to_multiset_ensures;

    lemma_sorted_samples(samples);
    let s = sorted_samples(samples);
    let n = samples.len() as int;
    let lo = s[0] as int;
    let hi = s[n - 1] as int;
    assert forall|i: int| 0 <= i < samples.len() implies lo <= #[trigger] samples[i] <= hi by {
        let x = samples[i];
        assert(samples.contains(x));
        assert(samples.to_multiset().count(x) > 0);
        assert(s.to_multiset().count(x) > 0);
        assert(s.contains(x));
        let k = choose|k: int| 0 <= k < s.len() && s[k] == x;
        assert(s[0] <= s[k] <= s[n - 1]);
    }
    lemma_total_bounds(samples, lo, hi);
    let t = total(samples);
    assert(lo <= t / n <= hi) by (nonlinear_arith)
        requires
            n > 0,
            n * lo <= t <= n * hi,
    ;
}

/// Places `x` in `v` before its first element that is not smaller.
fn insert_sample(v: &mut Vec<u64>, x: u64)
    ensures
        final(v)@ == insert_in_order(old(v)@, x),
{
    let mut k: usize = 0;
    while k < v.len() && v[k] < x
        invariant
            k <= v.len(),
            forall|j: int| 0 <= j < k ==> v@[j] < x,
        decreases v.len() - k,
    {
        k = k + 1;
    }
    proof {
        lemma_position_found(v@, x, k as int);
    }
    v.insert(k, x);
}

/// The samples in ascending order.
pub fn sort_samples(samples: &Vec<u64>) -> (sorted: Vec<u64>)
    ensures
        sorted@ == sorted_samples(samples@),
{
    let mut sorted: Vec<u64> = Vec::new();
    let n = samples.len();
    let mut i: usize = 0;
    while i < n
        invariant
            n == samples.len(),
            i <= n,
            sorted@ == sorted_samples(samples@.take(i as int)),
        decreases n - i,
    {
        let ghost prefix = samples@.take(i as int + 1);
        assert(prefix.drop_last() =~= samples@.take(i as int));
        insert_sample(&mut sorted, samples[i]);
        i = i + 1;
    }
    assert(samples@.take(n as int) =~= samples@);
    sorted
}

/// The figures of a run of latency samples, in nanoseconds.
#[derive(Clone, Copy, Debug, PartialEq, Eq, Structural)]
pub struct LatencySummary {
    pub count: usize,
    pub min: u64,
    pub max: u64,
    /// The sum divided by the count, rounded down.
    pub avg: u64,
    /// The sample at half the count (rounded down) in ascending order.
    pub median: u64,
}

/// The figures of `samples`: none for an empty run. The sum must fit in
/// a `u64`, as adding the samples up overflows otherwise.
pub fn latency_summary(samples: &Vec<u64>) -> (r: Option<LatencySummary>)
    requires
        total(samples@) <= u64::MAX,
    ensures
        r is None <==> samples.len() == 0,
        r matches Some(x) ==> {
            let s = sorted_samples(samples@);
            &&& x.count == samples.len()
            &&& x.min == s[0]
            &&& x.max == s[s.len() - 1]
            &&& x.median == s[(s.len() / 2) as int]
            &&& x.avg == total(samples@) / (samples.len() as int)
        },
{
    let n = samples.len();
    if n == 0 {
        return None;
    }
    let sorted = sort_samples(samples);
    proof {
        lemma_sorted_samples(samples@);
    }
    let mut sum: u64 = 0;
    let mut i: usize = 0;
    while i < n
        invariant
            n == samples.len(),
            i <= n,
            sum == total(samples@.take(i as int)),
            total(samples@) <= u64::MAX,
        decreases n - i,
    {
        proof {
            let prefix = samples@.take(i as int + 1);
            assert(prefix.drop_last() =~= samples@.take(i as int));
            lemma_total_prefix(samples@, i as int + 1);
        }
        sum = sum + samples[i];
        i = i + 1;
    }
    assert(samples@.take(n as int) =~= samples@);
    Some(LatencySummary {
        count: n,
        min: sorted[0],
        max: sorted[n - 1],
        avg: sum / (n as u64),
        median: sorted[n / 2],
    })
}

/// Messages per second of a burst: the messages delivered times a billion,
/// over the nanoseconds it took; none when no time passed.
pub open spec fn burst_rate_spec(delivered: u64, elapsed_ns: u64) -> int {
    if elapsed_ns > 0 {
        (delivered * 1_000_000_000) / (elapsed_ns as int)
    } else {
        0
    }
}

/// The message rate of a burst. Where time passed, the delivered count
/// times a billion must fit in a `u64`, as the product overflows otherwise.
pub fn burst_rate(delivered: u64, elapsed_ns: u64) -> (r: u64)
    requires
        elapsed_ns == 0 || delivered * 1_000_000_000 <= u64::MAX,
    ensures
        r == burst_rate_spec(delivered, elapsed_ns),
{
    if elapsed_ns > 0 {
        (delivered * 1_000_000_000) / elapsed_ns
    } else {
        0
    }
}

} // verus!

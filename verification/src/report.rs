use vstd::prelude::*;
use vstd::relations::{sorted_by, total_ordering};
use vstd::seq_lib::lemma_sorted_unique;
use crate::metrics::RequestMetrics;

verus! {

/// Ascending order on durations in nanoseconds.
pub open spec fn nanos_leq() -> spec_fn(u64, u64) -> bool {
    |x: u64, y: u64| x <= y
}

/// The sum of a list of durations, in nanoseconds.
pub open spec fn sum_nanos(s: Seq<u64>) -> int
    decreases s.len(),
{
    if s.len() == 0 {
        0
    } else {
        sum_nanos(s.drop_last()) + s.last()
    }
}

/// The latency figures of the final report, each in nanoseconds.
/// The median is the element at index `len / 2` of the ascending order —
/// the upper median for even-length lists, never an interpolated value.
/// The average is the integer mean, saturated at `u64::MAX`.
#[derive(PartialEq, Eq, Structural, Clone, Copy, Debug)]
pub struct LatencyStats {
    pub min_nanos: u64,
    pub median_nanos: u64,
    pub max_nanos: u64,
    pub avg_nanos: u64,
}

/// The statistics of a non-empty duration list: min, upper median and max
/// of the ascending order, and the saturated integer mean.
pub open spec fn spec_stats(s: Seq<u64>) -> LatencyStats
    recommends
        s.len() > 0,
{
    let t = s.sort_by(nanos_leq());
    let len = s.len() as int;
    let avg = sum_nanos(s) / len;
    LatencyStats {
        min_nanos: t[0],
        median_nanos: t[len / 2],
        max_nanos: t[len - 1],
        avg_nanos: if avg > u64::MAX { u64::MAX } else { avg as u64 },
    }
}

/// What summarizing a run yields: nothing when no request completed,
/// otherwise the four latency figures.
pub open spec fn spec_summary(s: Seq<u64>) -> Option<LatencyStats> {
    if s.len() == 0 {
        Option::None
    } else {
        Option::Some(spec_stats(s))
    }
}

/// Summarizing the same final metrics state twice yields identical
/// statistics: the summary is a function of the recorded durations alone.
pub proof fn lemma_summary_idempotent(a: Seq<u64>, b: Seq<u64>)
    requires
        a == b,
    ensures
        spec_summary(a) == spec_summary(b),
{
}

fn copy_times(v: &Vec<u64>) -> (r: Vec<u64>)
    ensures
        r@ == v@,
{
    let mut r: Vec<u64> = Vec::new();
    let n = v.len();
    let mut i: usize = 0;
    while i < n
        invariant
            i <= n,
            n == v@.len(),
            r@ == v@.take(i as int),
        decreases n - i,
    {
        r.push(v[i]);
        proof {
            assert(v@.take(i + 1) =~= v@.take(i as int).push(v@[i as int]));
        }
        i += 1;
    }
    proof {
        assert(v@.take(n as int) =~= v@);
    }
    r
}

/// Sorts the durations ascending, in place.
fn sort_nanos(v: &mut Vec<u64>)
    ensures
        final(v)@ == old(v)@.sort_by(nanos_leq()),
{
    broadcast use vstd::seq_lib::group_to_multiset_ensures;

    let ghost leq = nanos_leq();
    let n = v.len();
    let mut i: usize = 0;
    while i < n
        invariant
            i <= n,
            n == v@.len(),
            v@.to_multiset() == old(v)@.to_multiset(),
            forall|a: int, b: int| 0 <= a < b < i ==> v@[a] <= v@[b],
        decreases n - i,
    {
        let mut j: usize = i;
        while j > 0 && v[j - 1] > v[j]
            invariant
                j <= i < n,
                n == v@.len(),
                v@.to_multiset() == old(v)@.to_multiset(),
                forall|a: int, b: int| 0 <= a < b <= i && b != j ==> v@[a] <= v@[b],
            decreases j,
        {
            let ghost before = v@;
            let x = v[j - 1];
            let y = v[j];
            v[j - 1] = y;
            v[j] = x;
            proof {
                broadcast use vstd::multiset::group_multiset_axioms;

                let s1 = before.update(j - 1, y);
                assert(v@ =~= s1.update(j as int, x));
                vstd::seq_lib::to_multiset_update(before, j - 1, y);
                vstd::seq_lib::to_multiset_update(s1, j as int, x);
                assert(s1.to_multiset() == before.to_multiset().insert(y).remove(x));
                assert(s1[j as int] == y);
                assert(v@.to_multiset() == s1.to_multiset().insert(x).remove(y));
                assert(before.to_multiset().count(x) > 0) by {
                    before.to_multiset_ensures();
                    assert(before.contains(x)) by {
                        assert(before[j - 1] == x);
                    }
                }
                assert(v@.to_multiset() =~= before.to_multiset());
            }
            j = j - 1;
        }
        i = i + 1;
    }
    proof {
        assert forall|a: int, b: int| 0 <= a < b < v@.len() implies leq(v@[a], v@[b]) by {
            assert(v@[a] <= v@[b]);
        }
        assert(sorted_by(v@, leq));
        assert(total_ordering(leq));
        old(v)@.lemma_sort_by_ensures(leq);
        lemma_sorted_unique(v@, old(v)@.sort_by(leq), leq);
    }
}

fn sum_times(v: &Vec<u64>) -> (total: u128)
    ensures
        total == sum_nanos(v@),
{
    let n = v.len();
    let mut acc: u128 = 0;
    let mut i: usize = 0;
    while i < n
        invariant
            i <= n,
            n == v@.len(),
            acc == sum_nanos(v@.take(i as int)),
            acc <= i * (u64::MAX as int),
        decreases n - i,
    {
        let x = v[i];
        proof {
            assert(acc + x <= (i + 1) * (u64::MAX as int)) by (nonlinear_arith)
                requires
                    acc <= i * (u64::MAX as int),
                    x <= u64::MAX,
            ;
            assert((i + 1) * (u64::MAX as int) <= u128::MAX) by (nonlinear_arith)
                requires
                    0 <= i + 1 <= 0x1_0000_0000_0000_0000,
            ;
        }
        acc = acc + x as u128;
        proof {
            assert(v@.take(i + 1).drop_last() =~= v@.take(i as int));
            assert(v@.take(i + 1).last() == v@[i as int]);
        }
        i = i + 1;
    }
    proof {
        assert(v@.take(n as int) =~= v@);
    }
    acc
}

/// The report builder's computation: sorts a copy of the recorded
/// durations ascending and reads off the minimum, the upper median, the
/// maximum and the saturated integer mean. Yields nothing exactly when no
/// request completed — the "no requests" report path, not an error.
pub fn summarize(metrics: &RequestMetrics) -> (r: Option<LatencyStats>)
    ensures
        r == spec_summary(metrics.request_times@),
        r is None <==> metrics.request_times@.len() == 0,
{
    let n = metrics.request_times.len();
    if n == 0 {
        return Option::None;
    }
    let total = sum_times(&metrics.request_times);
    let mut times = copy_times(&metrics.request_times);
    sort_nanos(&mut times);
    proof {
        metrics.request_times@.lemma_sort_by_ensures(nanos_leq());
        metrics.request_times@.to_multiset_ensures();
        times@.to_multiset_ensures();
        assert(times@.to_multiset() == metrics.request_times@.to_multiset());
        assert(times@.len() == n);
    }
    let avg128 = total / (n as u128);
    let avg = if avg128 > u64::MAX as u128 {
        u64::MAX
    } else {
        avg128 as u64
    };
    Option::Some(
        LatencyStats {
            min_nanos: times[0],
            median_nanos: times[n / 2],
            max_nanos: times[n - 1],
            avg_nanos: avg,
        },
    )
}

/// One horizontal rule of the report table: a `+`, then `width + 2`
/// dashes for each of the two columns, fenced by `+` signs.
pub open spec fn separator_chars(label_width: int, value_width: int) -> Seq<char> {
    seq!['+'] + Seq::new((label_width + 2) as nat, |i: int| '-') + seq!['+'] + Seq::new(
        (value_width + 2) as nat,
        |i: int| '-',
    ) + seq!['+']
}

fn push_dashes(s: &mut String, count: usize)
    ensures
        final(s)@ == old(s)@ + Seq::new(count as nat, |i: int| '-'),
{
    proof {
        reveal_strlit("-");
    }
    let mut k: usize = 0;
    while k < count
        invariant
            k <= count,
            s@ == old(s)@ + Seq::new(k as nat, |i: int| '-'),
            "-"@ == seq!['-'],
        decreases count - k,
    {
        s.append("-");
        proof {
            assert(old(s)@ + Seq::new((k + 1) as nat, |i: int| '-') =~= old(s)@ + Seq::new(
                k as nat,
                |i: int| '-',
            ) + "-"@);
        }
        k = k + 1;
    }
    proof {
        assert(s@ =~= old(s)@ + Seq::new(count as nat, |i: int| '-'));
    }
}

/// Builds one horizontal rule of the report table, sized to the two
/// column widths.
pub fn create_separator(label_width: usize, value_width: usize) -> (r: String)
    requires
        label_width + value_width + 7 <= usize::MAX,
    ensures
        r@ == separator_chars(label_width as int, value_width as int),
{
    proof {
        reveal_strlit("+");
    }
    let mut s = String::new();
    s.append("+");
    push_dashes(&mut s, label_width + 2);
    s.append("+");
    push_dashes(&mut s, value_width + 2);
    s.append("+");
    proof {
        assert(s@ =~= separator_chars(label_width as int, value_width as int));
    }
    s
}

} // verus!

//! Frame-time statistics over one sampling window.
//!
//! Durations are whole microseconds and rates are thousandths of an event per
//! second. Every quotient is rounded down; nothing else is rounded.

use vstd::prelude::*;
use vstd::relations::{sorted_by, total_ordering};
use vstd::seq_lib::{lemma_sorted_unique, to_multiset_build, to_multiset_insert};

verus! {

/// Thousandths of an event per second that one event per microsecond makes.
pub const RATE_SCALE: u64 = 1_000_000_000;

/// Distance between two durations.
pub open spec fn gap(a: u64, b: u64) -> nat {
    if a >= b {
        (a - b) as nat
    } else {
        (b - a) as nat
    }
}

/// Sum of the distances between each sample and the one before it.
pub open spec fn gap_total(s: Seq<u64>) -> nat
    decreases s.len(),
{
    if s.len() < 2 {
        0
    } else {
        gap_total(s.drop_last()) + gap(s[s.len() - 2], s[s.len() - 1])
    }
}

/// Mean distance between consecutive samples, rounded down; zero when there
/// are fewer than two samples.
pub open spec fn mean_gap(s: Seq<u64>) -> nat {
    if s.len() < 2 {
        0
    } else {
        gap_total(s) / ((s.len() - 1) as nat)
    }
}

/// Sum of a sequence of durations.
pub open spec fn total(s: Seq<u64>) -> nat
    decreases s.len(),
{
    if s.len() == 0 {
        0
    } else {
        total(s.drop_last()) + s.last() as nat
    }
}

/// The order that puts the slower of two frames first.
pub open spec fn slower_first() -> spec_fn(u64, u64) -> bool {
    |a: u64, b: u64| a >= b
}

/// No sample is followed by a larger one.
pub open spec fn descending(s: Seq<u64>) -> bool {
    forall|i: int, j: int| 0 <= i < j < s.len() ==> s[i] >= s[j]
}

/// The samples of `s` from the slowest frame to the fastest.
pub open spec fn slowest_first(s: Seq<u64>) -> Seq<u64> {
    s.sort_by(slower_first())
}

/// How many of `n` samples make up the slowest hundredth: `n / 100` rounded
/// up.
pub open spec fn slow_tail_count(n: nat) -> nat {
    (n + 99) / 100
}

/// Rate of the slowest hundredth of a window: as many events as that tail has
/// frames, in the time those frames took together.
pub open spec fn one_percent_low(s: Seq<u64>) -> nat {
    let k = slow_tail_count(s.len());
    rate_milli(k, total(slowest_first(s).take(k as int)))
}

/// Events per second, in thousandths and rounded down, when `count` events
/// took `micros` microseconds in all. Zero when no time passed. A rate beyond
/// the 64-bit range is reported as the largest 64-bit value.
pub open spec fn rate_milli(count: nat, micros: nat) -> nat {
    if micros == 0 {
        0
    } else if count * (RATE_SCALE as nat) / micros > u64::MAX {
        u64::MAX as nat
    } else {
        count * (RATE_SCALE as nat) / micros
    }
}

/// The distances along a window add up to no more than their number times
/// the largest duration.
proof fn lemma_gap_total_bound(s: Seq<u64>)
    ensures
        s.len() >= 1 ==> gap_total(s) <= (s.len() - 1) * u64::MAX,
        s.len() == 0 ==> gap_total(s) == 0,
    decreases s.len(),
{
    if s.len() >= 2 {
        lemma_gap_total_bound(s.drop_last());
    }
}

/// Every statistic of a window fits in 64 bits: the jitter because no two
/// durations lie further apart than the largest duration, the rates because
/// they are cut off there.
pub proof fn lemma_statistics_fit(s: Seq<u64>, count: nat, micros: nat)
    ensures
        mean_gap(s) <= u64::MAX,
        rate_milli(count, micros) <= u64::MAX,
        one_percent_low(s) <= u64::MAX,
{
    if s.len() >= 2 {
        lemma_gap_total_bound(s);
        let pairs = (s.len() - 1) as nat;
        let sum = gap_total(s);
        assert(sum / pairs <= u64::MAX) by (nonlinear_arith)
            requires
                pairs > 0,
                sum <= pairs * u64::MAX,
        ;
    }
}

/// `slow_tail_count(n)` is the least count whose hundredfold reaches `n`. For
/// a window that is not empty it lies between one and the number of samples.
pub proof fn lemma_slow_tail_count(n: nat)
    ensures
        100 * slow_tail_count(n) >= n,
        n > 0 ==> 100 * (slow_tail_count(n) - 1) < n,
        n > 0 ==> 1 <= slow_tail_count(n) <= n,
        n == 0 ==> slow_tail_count(n) == 0,
{
}

/// A descending arrangement of the samples of `s` is `slowest_first(s)`:
/// there is only one.
pub proof fn lemma_slowest_first_unique(s: Seq<u64>, arranged: Seq<u64>)
    requires
        descending(arranged),
        arranged.to_multiset() == s.to_multiset(),
    ensures
        arranged == slowest_first(s),
{
    let order = slower_first();
    assert(total_ordering(order));
    assert(sorted_by(arranged, order));
    s.lemma_sort_by_ensures(order);
    lemma_sorted_unique(arranged, s.sort_by(order), order);
}

/// `slowest_first(s)` is descending and holds each sample of `s` as often as
/// `s` does.
pub proof fn lemma_slowest_first(s: Seq<u64>)
    ensures
        descending(slowest_first(s)),
        slowest_first(s).to_multiset() == s.to_multiset(),
        slowest_first(s).len() == s.len(),
{
    let order = slower_first();
    assert(total_ordering(order));
    s.lemma_sort_by_ensures(order);
    let sorted = s.sort_by(order);
    assert forall|i: int, j: int| 0 <= i < j < sorted.len() implies sorted[i] >= sorted[j] by {
        assert(order(sorted[i], sorted[j]));
    }
    vstd::seq_lib::to_multiset_len(s);
    vstd::seq_lib::to_multiset_len(sorted);
}

/// Computes [`rate_milli`].
pub fn events_per_second_milli(count: u64, micros: u128) -> (rate: u64)
    ensures
        rate == rate_milli(count as nat, micros as nat),
{
    if micros == 0 {
        return 0;
    }
    assert(count * RATE_SCALE <= u64::MAX * RATE_SCALE) by (nonlinear_arith);
    let scaled: u128 = (count as u128) * (RATE_SCALE as u128);
    let quotient: u128 = scaled / micros;
    if quotient > u64::MAX as u128 {
        u64::MAX
    } else {
        quotient as u64
    }
}

/// Frame-time jitter of a window: the mean distance between consecutive frame
/// durations, in microseconds.
pub fn jitter_micros(samples: &Vec<u64>) -> (jitter: u64)
    ensures
        jitter == mean_gap(samples@),
{
    let n: usize = samples.len();
    if n < 2 {
        return 0;
    }
    let mut sum: u128 = 0;
    let mut i: usize = 1;
    while i < n
        invariant
            1 <= i <= n,
            n == samples.len(),
            sum == gap_total(samples@.take(i as int)),
            sum <= (i - 1) * u64::MAX,
        decreases n - i,
    {
        let later: u64 = samples[i];
        let earlier: u64 = samples[i - 1];
        let distance: u64 = if later >= earlier {
            later - earlier
        } else {
            earlier - later
        };
        proof {
            let grown = samples@.take(i as int + 1);
            assert(grown.drop_last() =~= samples@.take(i as int));
        }
        sum = sum + distance as u128;
        i = i + 1;
    }
    proof {
        assert(samples@.take(n as int) =~= samples@);
    }
    let pairs: u128 = (n - 1) as u128;
    let mean: u128 = sum / pairs;
    assert(mean <= u64::MAX) by (nonlinear_arith)
        requires
            mean == sum / pairs,
            pairs > 0,
            sum <= pairs * u64::MAX,
    ;
    mean as u64
}

/// Where `value` goes into a descending vector: the first index whose sample
/// is smaller than `value`, or the length when there is none.
fn insertion_point(sorted: &Vec<u64>, value: u64) -> (at: usize)
    requires
        descending(sorted@),
    ensures
        at <= sorted.len(),
        forall|i: int| 0 <= i < at ==> sorted[i] >= value,
        forall|i: int| at <= i < sorted.len() ==> sorted[i] < value,
{
    let mut low: usize = 0;
    let mut high: usize = sorted.len();
    while low < high
        invariant
            low <= high <= sorted.len(),
            descending(sorted@),
            forall|i: int| 0 <= i < low ==> sorted[i] >= value,
            forall|i: int| high <= i < sorted.len() ==> sorted[i] < value,
        decreases high - low,
    {
        let middle: usize = low + (high - low) / 2;
        if sorted[middle] >= value {
            low = middle + 1;
        } else {
            high = middle;
        }
    }
    low
}

/// Arranges the samples of a window from the slowest frame to the fastest.
pub fn sort_slowest_first(samples: &Vec<u64>) -> (sorted: Vec<u64>)
    ensures
        sorted@ == slowest_first(samples@),
        descending(sorted@),
        sorted@.to_multiset() == samples@.to_multiset(),
        sorted.len() == samples.len(),
{
    let n: usize = samples.len();
    let mut sorted: Vec<u64> = Vec::with_capacity(n);
    let mut taken: usize = 0;
    assert(sorted@ =~= samples@.take(0));
    while taken < n
        invariant
            taken <= n,
            n == samples.len(),
            sorted.len() == taken,
            descending(sorted@),
            sorted@.to_multiset() == samples@.take(taken as int).to_multiset(),
        decreases n - taken,
    {
        let value: u64 = samples[taken];
        let at: usize = insertion_point(&sorted, value);
        let ghost before = sorted@;
        sorted.insert(at, value);
        proof {
            to_multiset_insert(before, at as int, value);
            to_multiset_build(samples@.take(taken as int), value);
            assert(samples@.take(taken as int + 1) =~= samples@.take(taken as int).push(value));
            assert forall|i: int, j: int| 0 <= i < j < sorted@.len() implies sorted@[i]
                >= sorted@[j] by {
                if j < at {
                    assert(sorted@[i] == before[i] && sorted@[j] == before[j]);
                } else if j == at {
                    assert(sorted@[i] == before[i]);
                } else if i < at {
                    assert(sorted@[i] == before[i] && sorted@[j] == before[j - 1]);
                } else if i == at {
                    assert(sorted@[j] == before[j - 1]);
                } else {
                    assert(sorted@[i] == before[i - 1] && sorted@[j] == before[j - 1]);
                }
            }
        }
        taken = taken + 1;
    }
    proof {
        assert(samples@.take(n as int) =~= samples@);
        lemma_slowest_first_unique(samples@, sorted@);
    }
    sorted
}

/// Number of samples in the slowest hundredth of a window of `n` samples.
pub fn slow_tail_len(n: usize) -> (k: usize)
    ensures
        k == slow_tail_count(n as nat),
        k <= n,
        n > 0 ==> k >= 1,
{
    if n % 100 == 0 {
        n / 100
    } else {
        n / 100 + 1
    }
}

/// The 1%-low rate of a window: the frame rate that the slowest hundredth of
/// its frames, at least one frame, would give alone. Zero for an empty window
/// and for a tail that took no time.
pub fn one_percent_low_milli(samples: &Vec<u64>) -> (rate: u64)
    ensures
        rate == one_percent_low(samples@),
{
    let sorted: Vec<u64> = sort_slowest_first(samples);
    let k: usize = slow_tail_len(samples.len());
    let mut sum: u128 = 0;
    let mut i: usize = 0;
    while i < k
        invariant
            i <= k <= sorted.len(),
            sum == total(sorted@.take(i as int)),
            sum <= i * u64::MAX,
        decreases k - i,
    {
        proof {
            assert(sorted@.take(i as int + 1).drop_last() =~= sorted@.take(i as int));
        }
        sum = sum + sorted[i] as u128;
        i = i + 1;
    }
    events_per_second_milli(k as u64, sum)
}

} // verus!

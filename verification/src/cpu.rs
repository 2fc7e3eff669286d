//! Trailing CPU-utilization averages over a bounded, newest-first sample
//! history. Samples and averages are in hundredths of a percent, so the
//! rational average can be compared against a whole-percent threshold exactly.

use std::collections::VecDeque;
use vstd::prelude::*;

verus! {

/// At most 15 minutes of history at one sample per second.
pub const CPU_VECDEQUE_LEN: usize = 900;

/// One sample's reading together with the two trailing averages, as reported
/// to the frontend. `pause`/`resume` are `None` while the history is shorter
/// than the respective window.
#[derive(Debug, Clone, Copy, PartialEq, Eq, Structural)]
pub struct CpuMeasure {
    pub current: u32,
    pub pause: Option<u32>,
    pub resume: Option<u32>,
}

/// The sum of the first `k` samples (the `k` newest).
pub open spec fn sum_prefix(s: Seq<u32>, k: int) -> int
    recommends
        k <= s.len(),
    decreases k,
{
    if k <= 0 {
        0
    } else {
        sum_prefix(s, k - 1) + s[k - 1]
    }
}

/// The mean of the `limit` newest samples, rounded down; `None` while fewer
/// than `limit` samples exist, and for an empty window.
pub open spec fn cpu_average_spec(s: Seq<u32>, limit: u16) -> Option<u32> {
    if limit == 0 || s.len() < limit {
        None
    } else {
        Some((sum_prefix(s, limit as int) / (limit as int)) as u32)
    }
}

/// The mean of the `span` newest samples is at or below `threshold` whole
/// percent, compared exactly (no rounding): a full window whose sum is at most
/// `threshold` per sample.
pub open spec fn window_at_or_below(s: Seq<u32>, span: u16, threshold: u8) -> bool {
    &&& span >= 1
    &&& s.len() >= span
    &&& sum_prefix(s, span as int) <= (threshold as int) * 100 * (span as int)
}

/// The mean of the `span` newest samples is at or above `threshold` whole
/// percent, compared exactly.
pub open spec fn window_at_or_above(s: Seq<u32>, span: u16, threshold: u8) -> bool {
    &&& span >= 1
    &&& s.len() >= span
    &&& sum_prefix(s, span as int) >= (threshold as int) * 100 * (span as int)
}

proof fn lemma_scaled_threshold_fits(scaled: int, span: int)
    requires
        0 <= scaled <= 25500,
        0 <= span <= 0xffff,
    ensures
        0 <= scaled * span <= 25500 * 0xffff,
{
    assert(0 <= scaled * span <= 25500 * 0xffff) by (nonlinear_arith)
        requires
            0 <= scaled <= 25500,
            0 <= span <= 0xffff,
    ;
}

proof fn lemma_sum_prefix_bound(s: Seq<u32>, k: int)
    requires
        0 <= k <= s.len(),
    ensures
        0 <= sum_prefix(s, k) <= k * 0xffff_ffff,
    decreases k,
{
    if k > 0 {
        lemma_sum_prefix_bound(s, k - 1);
        assert(k * 0xffff_ffff == (k - 1) * 0xffff_ffff + 0xffff_ffff) by (nonlinear_arith);
    }
}

proof fn lemma_mul_le(a: int, b: int, m: int)
    requires
        0 <= a <= b,
        0 <= m,
    ensures
        a * m <= b * m,
{
    assert(a * m <= b * m) by (nonlinear_arith)
        requires
            0 <= a <= b,
            0 <= m,
    ;
}

/// The sum of the `k` newest samples; `k` must not exceed the history length,
/// and window lengths fit in 16 bits.
fn sum_first(samples: &VecDeque<u32>, k: usize) -> (r: u64)
    requires
        k <= samples@.len(),
        k <= 0xffff,
    ensures
        r == sum_prefix(samples@, k as int),
{
    let mut total: u64 = 0;
    let mut i: usize = 0;
    while i < k
        invariant
            i <= k <= samples@.len(),
            k <= 0xffff,
            total == sum_prefix(samples@, i as int),
        decreases k - i,
    {
        proof {
            lemma_sum_prefix_bound(samples@, i + 1);
            lemma_mul_le(i + 1, 0xffff, 0xffff_ffff);
        }
        total = total + (samples[i] as u64);
        i = i + 1;
    }
    total
}

/// Calculate the average cpu usage over the previous `limit` samples.
pub fn cpu_average(samples: &VecDeque<u32>, limit: u16) -> (r: Option<u32>)
    ensures
        r == cpu_average_spec(samples@, limit),
{
    if limit == 0 || samples.len() < limit as usize {
        return None;
    }
    let total = sum_first(samples, limit as usize);
    let mean = total / (limit as u64);
    proof {
        lemma_sum_prefix_bound(samples@, limit as int);
        assert(sum_prefix(samples@, limit as int) / (limit as int) <= 0xffff_ffff) by {
            vstd::arithmetic::div_mod::lemma_div_is_ordered(
                sum_prefix(samples@, limit as int),
                (limit as int) * 0xffff_ffff,
                limit as int,
            );
            vstd::arithmetic::div_mod::lemma_div_multiples_vanish(0xffff_ffff, limit as int);
        }
    }
    Some(mean as u32)
}

/// Whether a full `span`-sample window exists whose exact mean is at or below
/// `threshold` whole percent.
pub fn window_is_at_or_below(samples: &VecDeque<u32>, span: u16, threshold: u8) -> (r: bool)
    ensures
        r == window_at_or_below(samples@, span, threshold),
{
    if span == 0 || samples.len() < span as usize {
        return false;
    }
    let total = sum_first(samples, span as usize);
    let scaled: u64 = (threshold as u64) * 100;
    proof {
        lemma_scaled_threshold_fits(scaled as int, span as int);
    }
    total <= scaled * (span as u64)
}

/// Whether a full `span`-sample window exists whose exact mean is at or above
/// `threshold` whole percent.
pub fn window_is_at_or_above(samples: &VecDeque<u32>, span: u16, threshold: u8) -> (r: bool)
    ensures
        r == window_at_or_above(samples@, span, threshold),
{
    if span == 0 || samples.len() < span as usize {
        return false;
    }
    let total = sum_first(samples, span as usize);
    let scaled: u64 = (threshold as u64) * 100;
    proof {
        lemma_scaled_threshold_fits(scaled as int, span as int);
    }
    total >= scaled * (span as u64)
}

/// Push the newest sample at the front, evicting the oldest sample when the
/// history is at capacity.
pub fn record_sample(samples: &mut VecDeque<u32>, sample: u32)
    requires
        old(samples)@.len() <= CPU_VECDEQUE_LEN,
    ensures
        final(samples)@.len() <= CPU_VECDEQUE_LEN,
        old(samples)@.len() < CPU_VECDEQUE_LEN ==> final(samples)@ == seq![sample] + old(
            samples,
        )@,
        old(samples)@.len() == CPU_VECDEQUE_LEN ==> final(samples)@ == seq![sample] + old(
            samples,
        )@.subrange(0, CPU_VECDEQUE_LEN - 1),
{
    if samples.len() >= CPU_VECDEQUE_LEN {
        samples.pop_back();
    }
    samples.push_front(sample);
}

} // verus!

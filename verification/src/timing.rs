//! Back-dated per-sample timestamp reconstruction.
//!
//! A driver callback delivers one batch of `n` samples together with a single
//! arrival timestamp, which denotes the arrival time of the *last* sample of
//! the batch.  Earlier samples are pushed backward in time at the configured
//! sample period: the sample `back` positions before the newest one is dated
//! `base_ts - back * 1e9 / sample_rate` nanoseconds.

use vstd::prelude::*;
use vstd::arithmetic::div_mod::{
    lemma_div_is_ordered, lemma_div_multiples_vanish, lemma_div_pos_is_pos,
    lemma_hoist_over_denominator,
};
use vstd::arithmetic::mul::{lemma_mul_inequality, lemma_mul_is_commutative};

verus! {

/// Nanoseconds in one second.
pub const NANOS_PER_SEC: u64 = 1_000_000_000;

/// How far (in nanoseconds) the sample `back` positions before the newest
/// sample of a batch lies before the batch's arrival timestamp.
pub open spec fn spec_back_offset_ns(sample_rate: int, back: int) -> int {
    (back * 1_000_000_000) / sample_rate
}

/// Reconstructed timestamp of the sample at index `i` (0-based, in increasing
/// time order) of a batch of `n` samples whose last sample arrived at
/// `base_ts`.
pub open spec fn spec_sample_ts(base_ts: int, sample_rate: int, n: int, i: int) -> int {
    base_ts - spec_back_offset_ns(sample_rate, n - 1 - i)
}

/// The offset grows with the distance from the newest sample.
proof fn lemma_back_offset_ordered(sample_rate: int, back1: int, back2: int)
    requires
        1 <= sample_rate,
        0 <= back1 <= back2,
    ensures
        spec_back_offset_ns(sample_rate, back1) <= spec_back_offset_ns(sample_rate, back2),
{
    lemma_mul_inequality(back1, back2, 1_000_000_000);
    lemma_div_is_ordered(back1 * 1_000_000_000, back2 * 1_000_000_000, sample_rate);
}

/// Stepping one sample further back moves the offset by at least one full
/// sample period, itself at least one nanosecond whenever the rate does not
/// exceed one sample per nanosecond.
proof fn lemma_back_offset_step(sample_rate: int, back: int)
    requires
        1 <= sample_rate <= 1_000_000_000,
        0 <= back,
    ensures
        spec_back_offset_ns(sample_rate, back) + 1_000_000_000int / sample_rate
            <= spec_back_offset_ns(sample_rate, back + 1),
        1 <= 1_000_000_000int / sample_rate,
{
    let g: int = 1_000_000_000;
    let q = g / sample_rate;
    lemma_div_pos_is_pos(g, sample_rate);
    // back * g / rate + q == (back * g + q * rate) / rate
    lemma_hoist_over_denominator(back * g, q, sample_rate as nat);
    // q * rate <= g, so (back * g + q * rate) / rate <= (back * g + g) / rate
    assert(q * sample_rate <= g) by {
        lemma_div_multiples_vanish(q, sample_rate);
        assert(sample_rate * q == q * sample_rate) by {
            lemma_mul_is_commutative(sample_rate, q);
        }
        assert((g / sample_rate) * sample_rate + g % sample_rate == g) by {
            vstd::arithmetic::div_mod::lemma_fundamental_div_mod(g, sample_rate);
            lemma_mul_is_commutative(sample_rate, g / sample_rate);
        }
    }
    lemma_div_is_ordered(back * g + q * sample_rate, back * g + g, sample_rate);
    assert((back + 1) * g == back * g + g) by {
        vstd::arithmetic::mul::lemma_mul_is_distributive_add_other_way(g, back, 1);
    }
    assert(g / sample_rate >= 1) by {
        lemma_div_is_ordered(sample_rate, g, sample_rate);
        vstd::arithmetic::div_mod::lemma_div_by_self(sample_rate);
    }
}

/// For every batch size, the newest sample carries the arrival timestamp
/// itself, and the reconstructed timestamps are strictly increasing whenever
/// the sample rate does not exceed one sample per nanosecond (at a higher
/// rate the integer sample period vanishes and neighbours may coincide).
pub proof fn lemma_timestamps_strictly_increasing(
    base_ts: int,
    sample_rate: int,
    n: int,
)
    requires
        1 <= sample_rate,
    ensures
        sample_rate <= 1_000_000_000 ==> forall|i: int|
            0 <= i < n - 1 ==> #[trigger] spec_sample_ts(base_ts, sample_rate, n, i)
                < spec_sample_ts(base_ts, sample_rate, n, i + 1),
        n >= 1 ==> spec_sample_ts(base_ts, sample_rate, n, n - 1) == base_ts,
{
    if sample_rate <= 1_000_000_000 {
        assert forall|i: int| 0 <= i < n - 1 implies #[trigger] spec_sample_ts(
            base_ts,
            sample_rate,
            n,
            i,
        ) < spec_sample_ts(base_ts, sample_rate, n, i + 1) by {
            lemma_back_offset_step(sample_rate, n - 1 - (i + 1));
        }
    }
    if n >= 1 {
        assert(spec_back_offset_ns(sample_rate, 0) == 0) by {
            vstd::arithmetic::div_mod::lemma_div_of0(sample_rate);
        }
    }
}

/// When the sample rate divides one second exactly, consecutive reconstructed
/// timestamps are spaced at exactly `1e9 / sample_rate` nanoseconds.
pub proof fn lemma_timestamp_spacing_exact(
    base_ts: int,
    sample_rate: int,
    n: int,
)
    requires
        1 <= sample_rate,
        1_000_000_000int % sample_rate == 0,
    ensures
        forall|i: int|
            0 <= i < n - 1 ==> spec_sample_ts(base_ts, sample_rate, n, i + 1)
                - #[trigger] spec_sample_ts(base_ts, sample_rate, n, i)
                == 1_000_000_000int / sample_rate,
{
    let g: int = 1_000_000_000;
    let q = g / sample_rate;
    assert(q * sample_rate == g) by {
        vstd::arithmetic::div_mod::lemma_fundamental_div_mod(g, sample_rate);
        lemma_mul_is_commutative(sample_rate, q);
    }
    assert forall|back: int| 0 <= back implies #[trigger] spec_back_offset_ns(sample_rate, back)
        == back * q by {
        assert(back * g == sample_rate * (back * q)) by {
            vstd::arithmetic::mul::lemma_mul_is_associative(back, q, sample_rate);
            lemma_mul_is_commutative(back * q, sample_rate);
        }
        lemma_div_multiples_vanish(back * q, sample_rate);
    }
    assert forall|i: int| 0 <= i < n - 1 implies spec_sample_ts(base_ts, sample_rate, n, i + 1)
        - #[trigger] spec_sample_ts(base_ts, sample_rate, n, i) == q by {
        let b = n - 1 - (i + 1);
        assert((b + 1) * q == b * q + q) by {
            vstd::arithmetic::mul::lemma_mul_is_distributive_add_other_way(q, b, 1);
        }
    }
}

/// Reconstructs the per-sample timestamps of a batch of `n` samples whose last
/// sample arrived at `base_ts`, in increasing time order.
pub fn reconstruct_timestamps(base_ts: u64, sample_rate: u64, n: usize) -> (r: Vec<u64>)
    requires
        1 <= sample_rate,
        n * 1_000_000_000 <= u64::MAX,
        spec_sample_ts(base_ts as int, sample_rate as int, n as int, 0) >= 0,
    ensures
        r@.len() == n,
        forall|i: int|
            0 <= i < n ==> r@[i] == spec_sample_ts(base_ts as int, sample_rate as int, n as int, i),
{
    let mut r: Vec<u64> = Vec::new();
    let mut i: usize = 0;
    while i < n
        invariant
            i <= n,
            1 <= sample_rate,
            n * 1_000_000_000 <= u64::MAX,
            spec_sample_ts(base_ts as int, sample_rate as int, n as int, 0) >= 0,
            r@.len() == i,
            forall|j: int|
                0 <= j < i ==> r@[j] == spec_sample_ts(
                    base_ts as int,
                    sample_rate as int,
                    n as int,
                    j,
                ),
        decreases n - i,
    {
        let back = (n - 1 - i) as u64;
        proof {
            lemma_mul_inequality(back as int, n as int, 1_000_000_000);
            lemma_div_pos_is_pos(back as int * 1_000_000_000, sample_rate as int);
            // the oldest sample has the largest offset, and even it fits
            lemma_back_offset_ordered(sample_rate as int, back as int, n as int - 1);
        }
        let offset = back * NANOS_PER_SEC / sample_rate;
        r.push(base_ts - offset);
        i += 1;
    }
    r
}

} // verus!

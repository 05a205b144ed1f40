use vstd::prelude::*;
use crate::math::div_trunc;
use crate::math::SCALE;

verus! {

/// How many channel histograms the histogram pass fills.
pub const HISTOGRAM_NUM_BINS: usize = 256;

/// How often `v` occurs in `s`.
pub open spec fn count_val(s: Seq<u8>, v: u8) -> nat
    decreases s.len(),
{
    if s.len() == 0 {
        0
    } else {
        count_val(s.drop_last(), v) + if s.last() == v {
            1nat
        } else {
            0nat
        }
    }
}

/// The total of all bins.
pub open spec fn sum_bins(s: Seq<u32>) -> int
    decreases s.len(),
{
    if s.len() == 0 {
        0
    } else {
        sum_bins(s.drop_last()) + s.last()
    }
}

proof fn lemma_count_le(s: Seq<u8>, v: u8)
    ensures
        count_val(s, v) <= s.len(),
    decreases s.len(),
{
    if s.len() > 0 {
        lemma_count_le(s.drop_last(), v);
    }
}

proof fn lemma_sum_update(s: Seq<u32>, j: int, x: u32)
    requires
        0 <= j < s.len(),
    ensures
        sum_bins(s.update(j, x)) == sum_bins(s) + x - s[j],
    decreases s.len(),
{
    let t = s.update(j, x);
    if j == s.len() - 1 {
        assert(t.drop_last() =~= s.drop_last());
    } else {
        assert(t.drop_last() =~= s.drop_last().update(j, x));
        lemma_sum_update(s.drop_last(), j, x);
    }
}

/// The channel histogram of one plane of samples: 256 bins, each
/// holding how often its value occurs. The bins of any histogram sum
/// to the number of samples counted.
pub fn compute_histogram(samples: &Vec<u8>) -> (r: Vec<u32>)
    requires
        samples@.len() <= u32::MAX,
    ensures
        r@.len() == HISTOGRAM_NUM_BINS,
        forall|v: u8| #[trigger] r@[v as int] == count_val(samples@, v),
        sum_bins(r@) == samples@.len(),
{
    let mut bins: Vec<u32> = Vec::new();
    let mut b: usize = 0;
    while b < HISTOGRAM_NUM_BINS
        invariant
            0 <= b <= HISTOGRAM_NUM_BINS,
            bins@.len() == b,
            forall|j: int| 0 <= j < b ==> bins@[j] == 0,
            sum_bins(bins@) == 0,
        decreases HISTOGRAM_NUM_BINS - b,
    {
        let ghost before = bins@;
        bins.push(0);
        proof {
            assert(bins@.drop_last() =~= before);
            assert(sum_bins(bins@) == sum_bins(before) + 0);
        }
        b = b + 1;
    }
    proof {
        assert forall|v: u8| #[trigger] bins@[v as int] == count_val(
            samples@.take(0),
            v,
        ) by {
            assert(samples@.take(0).len() == 0);
        };
    }
    let n = samples.len();
    let mut i: usize = 0;
    while i < n
        invariant
            0 <= i <= n,
            n == samples@.len(),
            n <= u32::MAX,
            bins@.len() == HISTOGRAM_NUM_BINS,
            forall|v: u8| #[trigger] bins@[v as int] == count_val(samples@.take(i as int), v),
            sum_bins(bins@) == i,
        decreases n - i,
    {
        let sample = samples[i];
        proof {
            lemma_count_le(samples@.take(i as int), sample);
            assert(bins@[sample as int] == count_val(samples@.take(i as int), sample));
            lemma_sum_update(bins@, sample as int, (bins@[sample as int] + 1) as u32);
        }
        let current = bins[sample as usize];
        bins.set(sample as usize, current + 1);
        proof {
            assert forall|v: u8| #[trigger] bins@[v as int] == count_val(
                samples@.take(i + 1),
                v,
            ) by {
                assert(samples@.take(i + 1).drop_last() =~= samples@.take(i as int));
                assert(samples@.take(i + 1).last() == samples@[i as int]);
            };
        }
        i = i + 1;
    }
    proof {
        assert(samples@.take(n as int) =~= samples@);
    }
    bins
}

/// The sum of one channel over fixed-point pixels.
pub open spec fn channel_sum(s: Seq<i64>, ) -> int
    decreases s.len(),
{
    if s.len() == 0 {
        0
    } else {
        channel_sum(s.drop_last()) + s.last()
    }
}

/// The per-channel means of an image given as fixed-point samples: the
/// channel sums divided by the pixel count, the statistics the
/// contrast pass reads back.
pub fn compute_basic_statistics(r: &Vec<i64>, g: &Vec<i64>, b: &Vec<i64>) -> (means: (
    i64,
    i64,
    i64,
))
    requires
        1 <= r@.len() <= u32::MAX,
        r@.len() == g@.len() && g@.len() == b@.len(),
        forall|i: int| 0 <= i < r@.len() ==> 0 <= #[trigger] r@[i] <= SCALE,
        forall|i: int| 0 <= i < g@.len() ==> 0 <= #[trigger] g@[i] <= SCALE,
        forall|i: int| 0 <= i < b@.len() ==> 0 <= #[trigger] b@[i] <= SCALE,
    ensures
        means.0 == div_trunc(channel_sum(r@), r@.len() as int),
        means.1 == div_trunc(channel_sum(g@), g@.len() as int),
        means.2 == div_trunc(channel_sum(b@), b@.len() as int),
{
    let mean_r = channel_mean(r);
    let mean_g = channel_mean(g);
    let mean_b = channel_mean(b);
    (mean_r, mean_g, mean_b)
}

fn channel_mean(s: &Vec<i64>) -> (m: i64)
    requires
        1 <= s@.len() <= u32::MAX,
        forall|i: int| 0 <= i < s@.len() ==> 0 <= #[trigger] s@[i] <= SCALE,
    ensures
        m == div_trunc(channel_sum(s@), s@.len() as int),
{
    let n = s.len();
    let mut sum: i64 = 0;
    let mut i: usize = 0;
    while i < n
        invariant
            0 <= i <= n,
            n == s@.len(),
            n <= u32::MAX,
            forall|j: int| 0 <= j < n ==> 0 <= #[trigger] s@[j] <= SCALE,
            sum == channel_sum(s@.take(i as int)),
            0 <= sum <= i * SCALE,
        decreases n - i,
    {
        proof {
            assert(s@.take(i + 1).drop_last() =~= s@.take(i as int));
            assert(s@.take(i + 1).last() == s@[i as int]);
            assert((i + 1) * SCALE == i * SCALE + SCALE) by (nonlinear_arith);
            assert(i * SCALE <= 4294967295i64 * 10000) by (nonlinear_arith)
                requires
                    0 <= i <= 4294967295i64,
                    SCALE == 10000;
        }
        sum = sum + s[i];
        i = i + 1;
    }
    proof {
        assert(s@.take(n as int) =~= s@);
    }
    crate::math::div_i64(sum, n as i64)
}

/// The top of the histogram plot's value axis: the tallest bin, capped
/// at ten times the average bin height so one spike cannot flatten the
/// plot.
pub fn histogram_plot_cap(max_value: u32, num_pixels: u32, num_bins: u32) -> (r: u64)
    requires
        num_bins > 0,
    ensures
        r == if max_value as int <= 10 * num_pixels / (num_bins as int) {
            max_value as int
        } else {
            10 * num_pixels / (num_bins as int)
        },
{
    let cap = 10 * (num_pixels as u64) / (num_bins as u64);
    if (max_value as u64) <= cap {
        max_value as u64
    } else {
        cap
    }
}

/// One channel of one pixel pushed through the exposure gain of a
/// whole number of stops: each stop doubles (or halves) the sample.
pub fn apply_exposure_stops(sample: i64, stops: u32) -> (r: i64)
    requires
        0 <= sample <= SCALE,
        stops <= 16,
    ensures
        r == sample * vstd::arithmetic::power2::pow2(stops as nat),
{
    proof {
        vstd::arithmetic::power2::lemma2_to64();
        assert(sample * vstd::arithmetic::power2::pow2(stops as nat) <= 10000int * 65536)
            by (nonlinear_arith)
            requires
                0 <= sample <= 10000,
                1 <= vstd::arithmetic::power2::pow2(stops as nat) <= 65536;
        assert(sample * vstd::arithmetic::power2::pow2(stops as nat) >= 0) by (nonlinear_arith)
            requires
                0 <= sample,
                vstd::arithmetic::power2::pow2(stops as nat) >= 0;
    }
    proof {
        vstd::arithmetic::power2::lemma2_to64();
        assert(sample * vstd::arithmetic::power2::pow2(0) == sample) by (nonlinear_arith)
            requires
                vstd::arithmetic::power2::pow2(0) == 1;
        assert(sample * vstd::arithmetic::power2::pow2(0) <= sample
            * vstd::arithmetic::power2::pow2(stops as nat)) by (nonlinear_arith)
            requires
                0 <= sample,
                1 <= vstd::arithmetic::power2::pow2(stops as nat),
                vstd::arithmetic::power2::pow2(0) == 1;
    }
    let mut result: i64 = sample;
    let mut k: u32 = 0;
    while k < stops
        invariant
            0 <= k <= stops,
            stops <= 16,
            0 <= sample <= SCALE,
            result == sample * vstd::arithmetic::power2::pow2(k as nat),
            result <= sample * vstd::arithmetic::power2::pow2(stops as nat),
        decreases stops - k,
    {
        proof {
            vstd::arithmetic::power2::lemma2_to64();
            vstd::arithmetic::power2::lemma_pow2_strictly_increases(
                k as nat,
                stops as nat,
            );
            assert(sample * vstd::arithmetic::power2::pow2((k + 1) as nat) == 2 * (sample
                * vstd::arithmetic::power2::pow2(k as nat))) by (nonlinear_arith)
                requires
                    vstd::arithmetic::power2::pow2((k + 1) as nat) == 2
                        * vstd::arithmetic::power2::pow2(k as nat);
            vstd::arithmetic::power2::lemma_pow2_unfold((k + 1) as nat);
            assert(sample * vstd::arithmetic::power2::pow2((k + 1) as nat) <= sample
                * vstd::arithmetic::power2::pow2(stops as nat)) by (nonlinear_arith)
                requires
                    0 <= sample,
                    vstd::arithmetic::power2::pow2((k + 1) as nat)
                        <= vstd::arithmetic::power2::pow2(stops as nat);
            assert(vstd::arithmetic::power2::pow2((k + 1) as nat)
                <= vstd::arithmetic::power2::pow2(stops as nat)) by {
                if k + 1 < stops {
                    vstd::arithmetic::power2::lemma_pow2_strictly_increases(
                        (k + 1) as nat,
                        stops as nat,
                    );
                }
            };
            assert(sample * vstd::arithmetic::power2::pow2(stops as nat) <= 10000int * 65536)
                by (nonlinear_arith)
                requires
                    0 <= sample <= 10000,
                    1 <= vstd::arithmetic::power2::pow2(stops as nat) <= 65536;
        }
        result = result * 2;
        k = k + 1;
    }
    result
}

} // verus!

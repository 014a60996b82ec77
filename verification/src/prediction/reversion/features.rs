//! The state of the market at one tick.

use vstd::prelude::*;
use std::collections::VecDeque;
use crate::double::Double;
use crate::prediction::reversion::quality::DataQuality;
use crate::prediction::reversion::regime::RegimeDistribution;

verus! {

#[derive(Clone, Copy, Debug, PartialEq, Eq, Structural)]
pub struct VolatilityState {
    pub rolling_sigma: Double,
    pub ewma_sigma: Double,
    pub blended_sigma: Double,
    /// The share of past values that are not larger.
    pub vol_percentile: Double,
}

impl VolatilityState {
    /// The blended value, and at least 0.00000001, so that it can be divided by.
    pub fn safe_sigma(&self) -> (r: Double)
        ensures
            r == self.blended_sigma.larger(Double { bits: 0x3e45_798e_e230_8c3a }),
            (Double { bits: 0x3e45_798e_e230_8c3a }).at_most(r),
    {
        self.blended_sigma.max(Double { bits: 0x3e45_798e_e230_8c3a })
    }
}

impl Default for VolatilityState {
    fn default() -> (r: Self)
        ensures
            r == (VolatilityState {
                rolling_sigma: Double::zero_spec(),
                ewma_sigma: Double::zero_spec(),
                blended_sigma: Double::zero_spec(),
                vol_percentile: Double::zero_spec(),
            }),
    {
        VolatilityState {
            rolling_sigma: Double::zero(),
            ewma_sigma: Double::zero(),
            blended_sigma: Double::zero(),
            vol_percentile: Double::zero(),
        }
    }
}

#[derive(Clone, Copy, Debug, PartialEq, Eq, Structural)]
pub struct OrderFlowFeatures {
    /// The imbalance of the book, from minus one to one.
    pub ofi: Double,
    pub cumulative_delta: Double,
    pub volume_zscore: Double,
    pub volume_surge: bool,
}

impl OrderFlowFeatures {
    /// The features, with a surge where the volume's score exceeds the threshold.
    pub fn new(ofi: Double, cumulative_delta: Double, volume_zscore: Double, threshold: Double) -> (r:
        Self)
        ensures
            r == (OrderFlowFeatures {
                ofi,
                cumulative_delta,
                volume_zscore,
                volume_surge: threshold.below(volume_zscore),
            }),
    {
        OrderFlowFeatures {
            ofi,
            cumulative_delta,
            volume_zscore,
            volume_surge: threshold.lt(volume_zscore),
        }
    }
}

#[derive(Clone, Copy, Debug, PartialEq, Eq, Structural)]
pub struct MomentumFeatures {
    pub velocity_sigma_per_tick: Double,
    /// Whether the price moves away from its equilibrium (one) or back to it (minus one).
    pub momentum_displacement_cosine: Double,
    pub momentum_zscore: Double,
}

#[derive(Clone, Copy, Debug, PartialEq, Eq, Structural)]
pub struct FeatureSnapshot {
    pub timestamp_us: i64,
    pub price: Double,
    pub equilibrium: Double,
    /// The distance from the equilibrium in standard deviations, with its sign.
    pub deviation_sigma: Double,
    pub stretch_score: Double,
    pub equilibrium_confidence: Double,
    pub volatility: VolatilityState,
    pub order_flow: OrderFlowFeatures,
    pub momentum: MomentumFeatures,
    pub regime: RegimeDistribution,
    pub tod_sin: Double,
    pub tod_cos: Double,
    pub data_quality: DataQuality,
}

impl FeatureSnapshot {
    /// On which side of its equilibrium the price is.
    pub fn displacement_sign(&self) -> (r: Double)
        ensures
            r == self.deviation_sigma.sign(),
    {
        self.deviation_sigma.signum()
    }

    /// The distance from the equilibrium.
    pub fn abs_deviation_sigma(&self) -> (r: Double)
        ensures
            r == self.deviation_sigma.magnitude(),
    {
        self.deviation_sigma.abs()
    }

    /// Whether the data is reliable: a confidence above one half, and younger than two seconds.
    pub fn is_trustworthy(&self) -> (r: bool)
        ensures
            r == ((Double { bits: 0x3fe0_0000_0000_0000 }).below(self.data_quality.confidence)
                && self.data_quality.feed_age_ms < 2_000),
    {
        Double { bits: 0x3fe0_0000_0000_0000 }.lt(self.data_quality.confidence)
            && self.data_quality.feed_age_ms < 2_000
    }
}

/// The last values of a series.
pub struct RecentValues {
    capacity: usize,
    values: VecDeque<Double>,
}

impl View for RecentValues {
    type V = Seq<Double>;

    closed spec fn view(&self) -> Seq<Double> {
        self.values@
    }
}

/// How many of the values are not larger than `limit`.
pub open spec fn count_at_most(values: Seq<Double>, limit: Double) -> nat
    decreases values.len(),
{
    if values.len() == 0 {
        0
    } else {
        count_at_most(values.drop_last(), limit) + (if values.last().at_most(limit) {
            1nat
        } else {
            0nat
        })
    }
}

impl RecentValues {
    /// The number of values that are kept.
    pub closed spec fn limit(&self) -> usize {
        self.capacity
    }

    /// There are not more values than are kept; the last one always is.
    pub open spec fn wf(&self) -> bool {
        self@.len() <= self.limit() || self@.len() == 1
    }

    /// An empty series that keeps the last `capacity` values, and the last one in any case.
    pub fn new(capacity: usize) -> (r: Self)
        ensures
            r@ == Seq::<Double>::empty(),
            r.limit() == capacity,
            r.wf(),
    {
        RecentValues { capacity, values: VecDeque::new() }
    }

    /// Adds a value. The result is the one that it drives out.
    pub fn push(&mut self, value: Double) -> (r: Option<Double>)
        requires
            old(self).wf(),
        ensures
            final(self).wf(),
            final(self).limit() == old(self).limit(),
            old(self)@.len() < old(self).limit() || old(self)@.len() == 0 ==> r is None
                && final(self)@ == old(self)@.push(value),
            0 < old(self)@.len() && old(self)@.len() >= old(self).limit() ==> r == Some(
                old(self)@[0],
            ) && final(self)@ == old(self)@.skip(1).push(value),
    {
        let mut out: Option<Double> = None;
        let ghost before = self.values@;
        if self.values.len() >= self.capacity {
            out = self.values.pop_front();
            assert(before.len() > 0 ==> self.values@ =~= before.skip(1));
        }
        self.values.push_back(value);
        out
    }

    /// The number of values.
    pub fn len(&self) -> (r: usize)
        ensures
            r == self@.len(),
    {
        self.values.len()
    }

    /// The value that was added last.
    pub fn last(&self) -> (r: Option<Double>)
        ensures
            r == (if self@.len() == 0 { None } else { Some(self@.last()) }),
    {
        let n: usize = self.values.len();
        if n == 0 {
            None
        } else {
            Some(self.values[n - 1])
        }
    }

    /// How many of the values are not larger than `limit`.
    pub fn rank_of(&self, limit: Double) -> (r: usize)
        ensures
            r == count_at_most(self@, limit),
            r <= self@.len(),
    {
        let mut count: usize = 0;
        let mut i: usize = 0;
        while i < self.values.len()
            invariant
                i <= self.values@.len(),
                count == count_at_most(self.values@.take(i as int), limit),
                count <= i,
            decreases self.values@.len() - i,
        {
            assert(self.values@.take(i + 1).drop_last() =~= self.values@.take(i as int));
            assert(self.values@.take(i + 1).last() == self.values@[i as int]);
            if self.values[i].le(limit) {
                count = count + 1;
            }
            i = i + 1;
        }
        assert(self.values@.take(i as int) =~= self.values@);
        count
    }
}

/// A further value counts exactly where it is not above the limit, and a higher limit counts at
/// least as many.
pub proof fn law_rank_counts_values(values: Seq<Double>, value: Double, limit: Double, higher: Double)
    requires
        limit.at_most(higher),
    ensures
        count_at_most(values.push(value), limit) == count_at_most(values, limit) + (if !value.nan()
            && value.rank() <= limit.rank() {
            1int
        } else {
            0int
        }),
        count_at_most(Seq::empty(), limit) == 0,
        count_at_most(values, limit) <= count_at_most(values, higher) <= values.len(),
    decreases values.len(),
{
    assert(values.push(value).drop_last() =~= values);
    if values.len() > 0 {
        law_rank_counts_values(values.drop_last(), value, limit, higher);
    }
}

} // verus!

//! The four layers in a row.
//!
//! [`Pipeline::ingest`] takes a tick through the first three; a bucket that it closes becomes a
//! [`CleanPrice`] in [`Pipeline::publish`].

use vstd::prelude::*;
use crate::double::Double;
use crate::prediction::btc_aggregator::aggregator;
use crate::prediction::btc_aggregator::aggregator::{
    into_candle, AddedSums, Aggregator, AggregatorConfig, BucketState, BucketTotals, Candle,
};
use crate::prediction::btc_aggregator::kalman::{KalmanConfig, KalmanSmoother, KalmanStep};
use crate::prediction::btc_aggregator::outlier_gate;
use crate::prediction::btc_aggregator::outlier_gate::{OutlierGate, OutlierGateConfig};
use crate::prediction::btc_aggregator::spike_filter;
use crate::prediction::btc_aggregator::spike_filter::{SpikeFilter, SpikeFilterConfig, SpikeReading};
use crate::prediction::btc_aggregator::tick::Exchange;

verus! {

#[derive(Clone, Copy, Debug, PartialEq, Eq, Structural)]
pub struct PipelineConfig {
    pub spike: SpikeFilterConfig,
    pub outlier: OutlierGateConfig,
    pub aggregator: AggregatorConfig,
    pub kalman: KalmanConfig,
}

impl Default for PipelineConfig {
    /// Each layer with its own defaults.
    fn default() -> (r: Self)
        ensures
            r == (PipelineConfig {
                spike: SpikeFilterConfig::standard(),
                outlier: OutlierGateConfig::standard(),
                aggregator: AggregatorConfig::standard(),
                kalman: KalmanConfig::standard(),
            }),
    {
        PipelineConfig {
            spike: SpikeFilterConfig::default(),
            outlier: OutlierGateConfig::default(),
            aggregator: AggregatorConfig::default(),
            kalman: KalmanConfig::default(),
        }
    }
}

/// A cleaned price of one bucket.
#[derive(Clone, Copy, Debug, PartialEq, Eq)]
pub struct CleanPrice {
    /// The beginning of the bucket.
    pub timestamp_ms: u64,
    pub smoothed: Double,
    pub raw_vwmp: Double,
    pub kalman_gain: Double,
    pub candle: Candle,
}

/// What became of the ticks.
#[derive(Clone, Copy, Debug, PartialEq, Eq, Structural)]
pub struct PipelineStats {
    pub ticks_received: u64,
    pub ticks_spike_rejected: u64,
    pub ticks_outlier_rejected: u64,
    pub ticks_accepted: u64,
    pub candles_emitted: u64,
}

impl PipelineStats {
    /// Before the first tick.
    pub open spec fn zero() -> PipelineStats {
        PipelineStats {
            ticks_received: 0,
            ticks_spike_rejected: 0,
            ticks_outlier_rejected: 0,
            ticks_accepted: 0,
            candles_emitted: 0,
        }
    }

    /// Every tick is either rejected by one of the two filters or accepted.
    pub open spec fn balanced(self) -> bool {
        self.ticks_received == self.ticks_spike_rejected + self.ticks_outlier_rejected
            + self.ticks_accepted
    }
}

impl Default for PipelineStats {
    fn default() -> (r: Self)
        ensures
            r == PipelineStats::zero(),
    {
        PipelineStats {
            ticks_received: 0,
            ticks_spike_rejected: 0,
            ticks_outlier_rejected: 0,
            ticks_accepted: 0,
            candles_emitted: 0,
        }
    }
}

/// A tick of an exchange, and what the layers' arithmetic says of it.
#[derive(Clone, Copy, Debug, PartialEq, Eq, Structural)]
pub struct TickReading {
    pub exchange: Exchange,
    pub received_ms: u64,
    /// The middle between the average bid and the average ask, where there are both.
    pub mid: Option<Double>,
    /// The price against the exchange's moving average.
    pub spike: SpikeReading,
    /// The price's score in the pool of all exchanges.
    pub z: Double,
    /// The sums of the exchange in the current bucket with this tick.
    pub sums: AddedSums,
}

/// How far a tick gets.
#[derive(Clone, Copy, Debug, PartialEq, Eq, Structural)]
pub enum Passage {
    Spike,
    Outlier,
    Accepted,
}

#[derive(Debug)]
pub struct Pipeline {
    pub spike: SpikeFilter,
    pub outlier: OutlierGate,
    pub aggregator: Aggregator,
    pub kalman: KalmanSmoother,
    pub stats: PipelineStats,
}

impl Pipeline {
    /// One where the current bucket has a tick, and else zero.
    pub open spec fn open_buckets(self) -> int {
        if self.aggregator.bucket is Some && self.aggregator.bucket->0.tick_count > 0 {
            1
        } else {
            0
        }
    }

    /// Whether a bucket has been closed that no candle was made of.
    pub open spec fn owes_candle(self) -> bool {
        self.stats.candles_emitted + self.open_buckets() < self.stats.ticks_accepted
    }

    /// The prices that are compared are numbers, the current bucket is well-formed, and the counts
    /// are balanced. Every candle and the current bucket
    /// have an accepted tick of their own.
    pub open spec fn wf(self) -> bool {
        &&& self.outlier.numbers()
        &&& self.aggregator.wf()
        &&& self.stats.balanced()
        &&& self.stats.candles_emitted + self.open_buckets() <= self.stats.ticks_accepted
    }

    /// Whether one more tick can be counted by every layer.
    pub open spec fn countable(self, tick: TickReading) -> bool {
        &&& self.stats.ticks_received < u64::MAX
        &&& self.spike.countable(tick.exchange)
        &&& self.aggregator.target(tick.received_ms).countable(tick.exchange)
    }

    /// How far a tick gets.
    pub open spec fn passage(self, tick: TickReading) -> Passage {
        if !self.spike.passes(tick.exchange, tick.mid, tick.spike) {
            Passage::Spike
        } else if !self.outlier.passes(tick.exchange, tick.received_ms, tick.z) {
            Passage::Outlier
        } else {
            Passage::Accepted
        }
    }

    /// The counts after a tick.
    pub open spec fn counted(self, tick: TickReading) -> PipelineStats {
        let s = self.stats;
        let received = (s.ticks_received + 1) as u64;
        match self.passage(tick) {
            Passage::Spike => PipelineStats {
                ticks_received: received,
                ticks_spike_rejected: (s.ticks_spike_rejected + 1) as u64,
                ..s
            },
            Passage::Outlier => PipelineStats {
                ticks_received: received,
                ticks_outlier_rejected: (s.ticks_outlier_rejected + 1) as u64,
                ..s
            },
            Passage::Accepted => PipelineStats {
                ticks_received: received,
                ticks_accepted: (s.ticks_accepted + 1) as u64,
                ..s
            },
        }
    }

    /// The pipeline after a tick: no layer behind the one that rejects it sees it.
    pub open spec fn after(self, tick: TickReading) -> Pipeline {
        let passage = self.passage(tick);
        Pipeline {
            spike: self.spike.after(tick.exchange, tick.mid, tick.spike),
            outlier: if passage is Spike {
                self.outlier
            } else {
                self.outlier.after(tick.exchange, tick.mid->0, tick.received_ms, tick.z)
            },
            aggregator: if passage is Accepted {
                self.aggregator.after(tick.exchange, tick.received_ms, tick.mid, tick.sums)
            } else {
                self.aggregator
            },
            kalman: self.kalman,
            stats: self.counted(tick),
        }
    }

    /// The bucket that a tick closes; only an accepted one closes any.
    pub open spec fn closing(self, tick: TickReading) -> Option<BucketState> {
        if self.passage(tick) is Accepted {
            self.aggregator.closing(tick.received_ms)
        } else {
            None
        }
    }

    /// The price of a closed bucket.
    pub open spec fn clean_price(
        self,
        bucket: BucketState,
        totals: BucketTotals,
        scaled: Double,
        step: KalmanStep,
    ) -> CleanPrice {
        let candle = aggregator::candle_of(bucket, self.aggregator.cfg.bucket_ms, totals);
        let smoothed = self.kalman.output(candle.vwmp, scaled, step);
        CleanPrice {
            timestamp_ms: candle.open_ms,
            smoothed: smoothed.estimate,
            raw_vwmp: candle.vwmp,
            kalman_gain: smoothed.gain,
            candle,
        }
    }

    /// A pipeline that has seen no tick.
    pub fn new(cfg: PipelineConfig) -> (r: Self)
        requires
            cfg.aggregator.bucket_ms > 0,
        ensures
            r.wf(),
            r.stats == PipelineStats::zero(),
            r.kalman == KalmanSmoother::fresh(cfg.kalman),
            r.aggregator == (Aggregator { cfg: cfg.aggregator, bucket: None }),
            r.spike.cfg == cfg.spike,
            r.outlier.cfg == cfg.outlier,
            forall|e: Exchange| (#[trigger] r.spike.state.at(e)) is None,
            forall|e: Exchange| (#[trigger] r.outlier.latest.at(e)) is None,
    {
        Pipeline {
            spike: SpikeFilter::new(cfg.spike),
            outlier: OutlierGate::new(cfg.outlier),
            aggregator: Aggregator::new(cfg.aggregator),
            kalman: KalmanSmoother::new(cfg.kalman),
            stats: PipelineStats::default(),
        }
    }

    /// Takes a tick through the first three layers. The result is the bucket that it closes.
    pub fn ingest(&mut self, tick: &TickReading) -> (r: Option<BucketState>)
        requires
            old(self).wf(),
            old(self).countable(*tick),
        ensures
            r == old(self).closing(*tick),
            *final(self) == old(self).after(*tick),
            final(self).wf(),
            r is Some ==> final(self).owes_candle(),
    {
        self.stats.ticks_received = self.stats.ticks_received + 1;
        if !self.spike.accept(tick.exchange, tick.mid, tick.spike) {
            self.stats.ticks_spike_rejected = self.stats.ticks_spike_rejected + 1;
            return None;
        }
        let price = match tick.mid {
            Some(p) => p,
            None => return None,
        };
        proof {
            outlier_gate::law_numbers_are_judged(
                self.outlier,
                tick.exchange,
                price,
                tick.received_ms,
            );
        }
        if !self.outlier.accept(tick.exchange, price, tick.received_ms, tick.z) {
            self.stats.ticks_outlier_rejected = self.stats.ticks_outlier_rejected + 1;
            return None;
        }
        self.stats.ticks_accepted = self.stats.ticks_accepted + 1;
        self.aggregator.ingest(tick.exchange, tick.received_ms, tick.mid, tick.sums)
    }

    /// Smooths the price of a closed bucket that no candle was made of yet, where `scaled` and `step` are the filter's
    /// arithmetic on that price.
    pub fn publish(
        &mut self,
        bucket: &BucketState,
        totals: &BucketTotals,
        scaled: Double,
        step: KalmanStep,
    ) -> (r: CleanPrice)
        requires
            bucket.first_price is Some,
            bucket.open_ms + old(self).aggregator.cfg.bucket_ms <= u64::MAX,
            old(self).wf(),
            old(self).owes_candle(),
        ensures
            final(self).wf(),
            r == old(self).clean_price(*bucket, *totals, scaled, step),
            *final(self) == (Pipeline {
                kalman: old(self).kalman.after(r.raw_vwmp, step),
                stats: PipelineStats {
                    candles_emitted: (old(self).stats.candles_emitted + 1) as u64,
                    ..old(self).stats
                },
                ..*old(self)
            }),
    {
        let candle = into_candle(bucket, self.aggregator.cfg.bucket_ms, totals);
        let smoothed = self.kalman.update(candle.vwmp, scaled, step);
        self.stats.candles_emitted = self.stats.candles_emitted + 1;
        CleanPrice {
            timestamp_ms: candle.open_ms,
            smoothed: smoothed.estimate,
            raw_vwmp: candle.vwmp,
            kalman_gain: smoothed.gain,
            candle,
        }
    }

    /// Closes the current bucket now. The result goes to [`Pipeline::publish`].
    pub fn flush(&mut self) -> (r: Option<BucketState>)
        requires
            old(self).wf(),
        ensures
            r == aggregator::completed(
                old(self).aggregator.bucket,
                old(self).aggregator.cfg.min_ticks,
            ),
            *final(self) == (Pipeline {
                aggregator: Aggregator { bucket: None, ..old(self).aggregator },
                ..*old(self)
            }),
            final(self).wf(),
            r is Some ==> final(self).owes_candle(),
    {
        self.aggregator.flush()
    }

    /// Resets the last layer; called when a new window begins.
    pub fn reset_smoother(&mut self)
        ensures
            *final(self) == (Pipeline {
                kalman: KalmanSmoother::fresh(old(self).kalman.cfg),
                ..*old(self)
            }),
    {
        self.kalman.reset();
    }

    /// What became of the ticks.
    pub fn stats(&self) -> (r: &PipelineStats)
        ensures
            *r == self.stats,
    {
        &self.stats
    }

    /// The number of rejected ticks.
    pub fn rejected(&self) -> (r: u64)
        requires
            self.wf(),
        ensures
            r == self.stats.ticks_spike_rejected + self.stats.ticks_outlier_rejected,
            r == self.stats.ticks_received - self.stats.ticks_accepted,
    {
        self.stats.ticks_spike_rejected + self.stats.ticks_outlier_rejected
    }
}

/// Every tick is counted once, and in one place.
pub proof fn law_every_tick_is_counted_once(p: Pipeline, tick: TickReading)
    requires
        p.stats.balanced(),
        p.stats.ticks_received < u64::MAX,
    ensures
        p.after(tick).stats.balanced(),
        p.after(tick).stats.ticks_received == p.stats.ticks_received + 1,
{
}

/// There are never more candles than accepted ticks, nor more of these than ticks.
pub proof fn law_candles_are_made_of_ticks(p: Pipeline)
    requires
        p.wf(),
    ensures
        p.stats.candles_emitted <= p.stats.ticks_accepted <= p.stats.ticks_received,
{
}

/// A rejected tick reaches no bucket.
pub proof fn law_rejected_tick_reaches_no_bucket(p: Pipeline, tick: TickReading)
    requires
        !(p.passage(tick) is Accepted),
    ensures
        p.after(tick).aggregator == p.aggregator,
        p.after(tick).kalman == p.kalman,
        p.closing(tick) is None,
{
}

/// A spike is not seen by the comparison across exchanges.
pub proof fn law_spike_reaches_no_other_exchange(p: Pipeline, tick: TickReading)
    requires
        p.passage(tick) is Spike,
    ensures
        p.after(tick).outlier == p.outlier,
{
}

/// The first price after a reset is not smoothed.
pub proof fn law_first_price_after_reset(
    p: Pipeline,
    bucket: BucketState,
    totals: BucketTotals,
    scaled: Double,
    step: KalmanStep,
)
    ensures
        ({
            let reset = Pipeline { kalman: KalmanSmoother::fresh(p.kalman.cfg), ..p };
            let price = reset.clean_price(bucket, totals, scaled, step);
            price.smoothed == price.raw_vwmp
        }),
{
}

/// A published price is the average over the exchanges of its bucket, weighted by volume and
/// trust, wherever their weights add up to more than zero. It stands under the beginning of the
/// bucket; the first one is published as it is, and every later one as the filter's step moved it.
pub proof fn law_published_price_is_the_average(
    p: Pipeline,
    bucket: BucketState,
    totals: BucketTotals,
    scaled: Double,
    step: KalmanStep,
)
    ensures
        ({
            let price = p.clean_price(bucket, totals, scaled, step);
            let average = if !totals.weight.nan() && totals.weight.rank() > 0 {
                totals.average
            } else {
                bucket.last_price
            };
            &&& price.raw_vwmp == average
            &&& price.candle.vwmp == average
            &&& price.timestamp_ms == bucket.open_ms
            &&& price.candle.open_ms == bucket.open_ms
            &&& !p.kalman.initialized ==> price.smoothed == average && price.kalman_gain.bits
                == 0x3ff0_0000_0000_0000
            &&& p.kalman.initialized ==> price.smoothed == step.estimate && price.kalman_gain
                == step.gain
            &&& p.kalman.after(price.raw_vwmp, step).estimate == price.smoothed
        }),
{
}

/// A tick reaches the current bucket exactly where it has a price above zero, is no large change
/// on its own exchange and no outlier among the others; it is then counted as accepted, and else
/// as rejected by the first layer that stopped it.
pub proof fn law_accepted_tick_has_passed_both_filters(p: Pipeline, tick: TickReading)
    requires
        p.stats.ticks_received < u64::MAX,
        p.stats.balanced(),
    ensures
        ({
            let priced = tick.mid is Some && !tick.mid->0.nan() && tick.mid->0.rank() > 0;
            let seen = p.spike.state.at(tick.exchange);
            let large = seen is Some && seen->0.accepted >= p.spike.cfg.warmup_ticks
                && p.spike.cfg.max_change_frac.below(tick.spike.change);
            let judged = outlier_gate::recent_peers(p.outlier, tick.exchange, tick.received_ms) + 1
                >= p.outlier.cfg.min_exchanges;
            let outlier = judged && p.outlier.cfg.z_threshold.below(tick.z);
            let before = p.stats;
            let after = p.after(tick).stats;
            &&& p.passage(tick) is Spike <==> !priced || large
            &&& p.passage(tick) is Outlier <==> priced && !large && outlier
            &&& p.passage(tick) is Accepted <==> priced && !large && !outlier
            &&& after.ticks_spike_rejected == before.ticks_spike_rejected + (if !priced || large {
                1int
            } else {
                0int
            })
            &&& after.ticks_outlier_rejected == before.ticks_outlier_rejected + (if priced && !large
                && outlier {
                1int
            } else {
                0int
            })
            &&& after.ticks_accepted == before.ticks_accepted + (if priced && !large && !outlier {
                1int
            } else {
                0int
            })
            &&& after.candles_emitted == before.candles_emitted
            &&& p.passage(tick) is Accepted ==> p.after(tick).aggregator.bucket is Some && p.after(
                tick,
            ).aggregator.bucket->0.last_price == tick.mid->0
        }),
{
    let other = if tick.exchange is Binance { Exchange::Kraken } else { Exchange::Binance };
    outlier_gate::law_outlier_is_judged_by_recent_peers(
        p.outlier,
        tick.exchange,
        Double::zero_spec(),
        tick.received_ms,
        tick.z,
        other,
    );
}

/// Before the first tick nothing has been counted.
pub proof fn law_nothing_is_counted_at_first()
    ensures
        PipelineStats::zero().ticks_received == 0,
        PipelineStats::zero().ticks_spike_rejected == 0,
        PipelineStats::zero().ticks_outlier_rejected == 0,
        PipelineStats::zero().ticks_accepted == 0,
        PipelineStats::zero().candles_emitted == 0,
{
}

} // verus!

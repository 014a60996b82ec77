//! Layer 1: a tick that is too far from its own exchange's moving average is a spike.

use vstd::prelude::*;
use crate::double::Double;
use crate::prediction::btc_aggregator::tick::{Exchange, ExchangeTable};

verus! {

#[derive(Clone, Copy, Debug, PartialEq, Eq, Structural)]
pub struct SpikeFilterConfig {
    /// The largest change of the price, as a part of the average, that is no spike.
    pub max_change_frac: Double,
    /// The weight of a new price in the average.
    pub ema_alpha: Double,
    /// The number of ticks that are accepted before any is a spike.
    pub warmup_ticks: usize,
}

impl SpikeFilterConfig {
    /// The values that are taken by default.
    pub open spec fn standard() -> SpikeFilterConfig {
        SpikeFilterConfig {
            max_change_frac: Double { bits: 0x3f68_9374_bc6a_7efa },
            ema_alpha: Double { bits: 0x3fb9_9999_9999_999a },
            warmup_ticks: 3,
        }
    }
}

impl Default for SpikeFilterConfig {
    /// A change of 0.003, a weight of 0.1, and three ticks.
    fn default() -> (r: Self)
        ensures
            r == SpikeFilterConfig::standard(),
    {
        SpikeFilterConfig {
            max_change_frac: Double { bits: 0x3f68_9374_bc6a_7efa },
            ema_alpha: Double { bits: 0x3fb9_9999_9999_999a },
            warmup_ticks: 3,
        }
    }
}

/// The moving average of one exchange, and what became of its ticks.
#[derive(Clone, Copy, Debug, PartialEq, Eq, Structural)]
pub struct ExchangeState {
    pub ema: Double,
    pub accepted: usize,
    pub rejected: usize,
}

/// A tick's price against its exchange's moving average ([`SpikeFilter::ema`]).
#[derive(Clone, Copy, Debug, PartialEq, Eq, Structural)]
pub struct SpikeReading {
    /// The distance of the price from the average, as a part of the average.
    pub change: Double,
    /// The average with the price in it.
    pub blended: Double,
}

#[derive(Debug)]
pub struct SpikeFilter {
    pub cfg: SpikeFilterConfig,
    pub state: ExchangeTable<ExchangeState>,
}

/// Whether a tick has a price that can be judged.
pub open spec fn has_price(mid: Option<Double>) -> bool {
    mid is Some && Double::zero_spec().below(mid->0)
}

impl SpikeFilter {
    /// Whether a tick passes: it has a price, and that is the first one of its exchange, or
    /// one of the first few, or close enough to the average.
    pub open spec fn passes(
        self,
        exchange: Exchange,
        mid: Option<Double>,
        reading: SpikeReading,
    ) -> bool {
        has_price(mid) && match self.state.at(exchange) {
            None => true,
            Some(s) => s.accepted < self.cfg.warmup_ticks || !self.cfg.max_change_frac.below(
                reading.change,
            ),
        }
    }

    /// The filter after a tick. A tick without a price is not counted.
    pub open spec fn after(
        self,
        exchange: Exchange,
        mid: Option<Double>,
        reading: SpikeReading,
    ) -> SpikeFilter {
        if !has_price(mid) {
            self
        } else {
            let next = match self.state.at(exchange) {
                None => ExchangeState { ema: mid->0, accepted: 1, rejected: 0 },
                Some(s) => if self.passes(exchange, mid, reading) {
                    ExchangeState {
                        ema: reading.blended,
                        accepted: (s.accepted + 1) as usize,
                        ..s
                    }
                } else {
                    ExchangeState { rejected: (s.rejected + 1) as usize, ..s }
                },
            };
            SpikeFilter { state: self.state.with(exchange, next), ..self }
        }
    }

    /// Whether one more tick of an exchange can be counted.
    pub open spec fn countable(self, exchange: Exchange) -> bool {
        self.state.at(exchange) matches Some(s) ==> s.accepted < usize::MAX && s.rejected
            < usize::MAX
    }

    /// A filter that has seen no tick.
    pub fn new(cfg: SpikeFilterConfig) -> (r: Self)
        ensures
            r == (SpikeFilter { cfg, state: ExchangeTable::<ExchangeState>::none() }),
    {
        SpikeFilter { cfg, state: ExchangeTable::new() }
    }

    /// Whether a tick goes on to the next layer. The first tick of an exchange always does,
    /// where it has a price; the reading is not looked at then.
    pub fn accept(&mut self, exchange: Exchange, mid: Option<Double>, reading: SpikeReading) -> (r:
        bool)
        requires
            old(self).countable(exchange),
        ensures
            r == old(self).passes(exchange, mid, reading),
            *final(self) == old(self).after(exchange, mid, reading),
    {
        let price = match mid {
            Some(p) => p,
            None => return false,
        };
        if !Double::zero().lt(price) {
            return false;
        }
        match self.state.get(exchange) {
            None => {
                self.state.set(exchange, ExchangeState { ema: price, accepted: 1, rejected: 0 });
                true
            },
            Some(s) => {
                if s.accepted >= self.cfg.warmup_ticks && self.cfg.max_change_frac.lt(
                    reading.change,
                ) {
                    self.state.set(
                        exchange,
                        ExchangeState {
                            ema: s.ema,
                            accepted: s.accepted,
                            rejected: s.rejected + 1,
                        },
                    );
                    false
                } else {
                    self.state.set(
                        exchange,
                        ExchangeState {
                            ema: reading.blended,
                            accepted: s.accepted + 1,
                            rejected: s.rejected,
                        },
                    );
                    true
                }
            },
        }
    }

    /// The moving average of an exchange.
    pub fn ema(&self, exchange: Exchange) -> (r: Option<Double>)
        ensures
            r == (match self.state.at(exchange) {
                Some(s) => Some(s.ema),
                None => None,
            }),
    {
        match self.state.get(exchange) {
            Some(s) => Some(s.ema),
            None => None,
        }
    }

    /// The accepted and the rejected ticks of each exchange that has had any.
    pub fn stats(&self) -> (r: Vec<(Exchange, usize, usize)>)
        ensures
            forall|e: Exchange, a: usize, x: usize| #[trigger]
                r@.contains((e, a, x)) <==> (self.state.at(e) is Some && self.state.at(e)->0.accepted
                    == a && self.state.at(e)->0.rejected == x),
            forall|i: int, j: int|
                0 <= i < j < r@.len() ==> (#[trigger] r@[i]).0 != (#[trigger] r@[j]).0,
    {
        let mut out: Vec<(Exchange, usize, usize)> = Vec::new();
        if let Some(s) = &self.state.binance {
            out.push((Exchange::Binance, s.accepted, s.rejected));
        }
        let ghost first = out@;
        if let Some(s) = &self.state.coinbase {
            out.push((Exchange::Coinbase, s.accepted, s.rejected));
        }
        let ghost second = out@;
        if let Some(s) = &self.state.kraken {
            out.push((Exchange::Kraken, s.accepted, s.rejected));
        }
        let ghost third = out@;
        if let Some(s) = &self.state.bitstamp {
            out.push((Exchange::Bitstamp, s.accepted, s.rejected));
        }
        proof {
            assert forall|e: Exchange, a: usize, x: usize| #[trigger]
                out@.contains((e, a, x)) <==> (self.state.at(e) is Some && self.state.at(
                    e,
                )->0.accepted == a && self.state.at(e)->0.rejected == x) by {
                let item = (e, a, x);
                if self.state.at(e) is Some && self.state.at(e)->0.accepted == a && self.state.at(
                    e,
                )->0.rejected == x {
                    if e is Binance {
                        assert(out@[0] == item);
                    } else if e is Coinbase {
                        assert(out@[first.len() as int] == item);
                    } else if e is Kraken {
                        assert(out@[second.len() as int] == item);
                    } else {
                        assert(out@[third.len() as int] == item);
                    }
                }
            }
        }
        out
    }
}

/// What happens on one exchange is no matter to another's ticks.
pub proof fn law_exchanges_are_judged_alone(
    f: SpikeFilter,
    exchange: Exchange,
    mid: Option<Double>,
    reading: SpikeReading,
    other: Exchange,
    other_mid: Option<Double>,
    other_reading: SpikeReading,
)
    requires
        other != exchange,
    ensures
        f.after(exchange, mid, reading).passes(other, other_mid, other_reading) == f.passes(
            other,
            other_mid,
            other_reading,
        ),
{
}

/// A spike leaves the moving average as it was.
pub proof fn law_spike_leaves_average(
    f: SpikeFilter,
    exchange: Exchange,
    mid: Option<Double>,
    reading: SpikeReading,
)
    requires
        !f.passes(exchange, mid, reading),
        f.state.at(exchange) is Some,
    ensures
        f.after(exchange, mid, reading).state.at(exchange) is Some,
        f.after(exchange, mid, reading).state.at(exchange)->0.ema == f.state.at(exchange)->0.ema,
        f.after(exchange, mid, reading).state.at(exchange)->0.accepted == f.state.at(
            exchange,
        )->0.accepted,
{
}

/// A tick is stopped where it has no price above zero, or where its exchange has had enough
/// accepted ticks and the change against the average is above the limit; no other tick is.
pub proof fn law_spike_is_a_large_change(
    f: SpikeFilter,
    exchange: Exchange,
    mid: Option<Double>,
    reading: SpikeReading,
)
    ensures
        ({
            let priced = mid is Some && !mid->0.nan() && mid->0.rank() > 0;
            let known = f.state.at(exchange);
            let large = !reading.change.nan() && !f.cfg.max_change_frac.nan()
                && reading.change.rank() > f.cfg.max_change_frac.rank();
            !f.passes(exchange, mid, reading) <==> !priced || (known is Some && known->0.accepted
                >= f.cfg.warmup_ticks && large)
        }),
{
}

/// The average follows the accepted prices: the first price of an exchange is its average, every
/// later accepted one is blended into it, and each tick with a price is counted once, as accepted
/// or as rejected, for its own exchange alone.
pub proof fn law_average_follows_accepted_prices(
    f: SpikeFilter,
    exchange: Exchange,
    mid: Option<Double>,
    reading: SpikeReading,
    other: Exchange,
)
    requires
        f.countable(exchange),
        other != exchange,
    ensures
        ({
            let after = f.after(exchange, mid, reading);
            let was = f.state.at(exchange);
            let is = after.state.at(exchange);
            let priced = mid is Some && !mid->0.nan() && mid->0.rank() > 0;
            &&& after.cfg == f.cfg
            &&& after.state.at(other) == f.state.at(other)
            &&& !priced ==> is == was
            &&& priced ==> is is Some
            &&& priced && was is None ==> is->0.ema == mid->0 && is->0.accepted == 1
                && is->0.rejected == 0
            &&& was is Some && f.passes(exchange, mid, reading) ==> is->0.ema == reading.blended
                && is->0.accepted == was->0.accepted + 1 && is->0.rejected == was->0.rejected
            &&& priced && was is Some && !f.passes(exchange, mid, reading) ==> is->0.ema
                == was->0.ema && is->0.accepted == was->0.accepted && is->0.rejected
                == was->0.rejected + 1
        }),
{
}

/// By default a change of more than 0.003 of the average is a spike, from the fourth tick on, and a
/// new price has a weight of 0.1.
pub proof fn law_standard_spike_is_three_per_mille()
    ensures
        SpikeFilterConfig::standard().max_change_frac.bits == 0x3f68_9374_bc6a_7efa,
        SpikeFilterConfig::standard().ema_alpha.bits == 0x3fb9_9999_9999_999a,
        SpikeFilterConfig::standard().warmup_ticks == 3,
{
}

} // verus!

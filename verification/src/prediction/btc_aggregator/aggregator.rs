//! Layer 3: ticks are gathered in time buckets of equal width.
//!
//! A bucket is closed by the first tick of another one. The sums over a bucket's ticks and the
//! averages over its exchanges are handed to the aggregator.

use vstd::prelude::*;
use crate::double::Double;
use crate::prediction::btc_aggregator::tick::{Exchange, ExchangeTable};

verus! {

#[derive(Clone, Copy, Debug, PartialEq, Eq, Structural)]
pub struct AggregatorConfig {
    /// The width of a bucket in milliseconds.
    pub bucket_ms: u64,
    /// The number of ticks that a bucket needs to become a candle.
    pub min_ticks: usize,
    /// Whether an exchange's weight is multiplied by the trust in it.
    pub use_trust_weight: bool,
}

impl AggregatorConfig {
    /// The values that are taken by default.
    pub open spec fn standard() -> AggregatorConfig {
        AggregatorConfig { bucket_ms: 250, min_ticks: 1, use_trust_weight: true }
    }
}

impl Default for AggregatorConfig {
    fn default() -> (r: Self)
        ensures
            r == AggregatorConfig::standard(),
    {
        AggregatorConfig { bucket_ms: 250, min_ticks: 1, use_trust_weight: true }
    }
}

impl AggregatorConfig {
    /// What an exchange's volume is multiplied with to give its weight.
    pub fn trust(&self, exchange: Exchange) -> (r: Double)
        ensures
            r == (if self.use_trust_weight {
                exchange.trust()
            } else {
                Double { bits: 0x3ff0_0000_0000_0000 }
            }),
    {
        if self.use_trust_weight {
            exchange.trust_weight()
        } else {
            Double { bits: 0x3ff0_0000_0000_0000 }
        }
    }
}

/// What an exchange's ticks add up to in a bucket.
#[derive(Clone, Copy, Debug, PartialEq, Eq, Structural)]
pub struct ExchangeSums {
    /// Prices times weights.
    pub weighted: Double,
    /// Weights.
    pub weight: Double,
    /// Volumes.
    pub volume: Double,
    pub ticks: usize,
}

/// The sums of an exchange with one more tick, computed from [`Aggregator::sums`].
#[derive(Clone, Copy, Debug, PartialEq, Eq, Structural)]
pub struct AddedSums {
    pub weighted: Double,
    pub weight: Double,
    pub volume: Double,
}

/// A bucket and its ticks so far.
#[derive(Clone, Copy, Debug, PartialEq, Eq)]
pub struct BucketState {
    pub open_ms: u64,
    pub first_price: Option<Double>,
    pub high: Double,
    pub low: Double,
    pub last_price: Double,
    pub tick_count: usize,
    pub per_exchange: ExchangeTable<ExchangeSums>,
}

impl BucketState {
    /// A bucket without a tick: its high is minus infinity and its low is infinity.
    pub open spec fn empty(open_ms: u64) -> BucketState {
        BucketState {
            open_ms,
            first_price: None,
            high: Double { bits: 0xfff0_0000_0000_0000 },
            low: Double { bits: 0x7ff0_0000_0000_0000 },
            last_price: Double::zero_spec(),
            tick_count: 0,
            per_exchange: ExchangeTable::none(),
        }
    }

    /// The number of an exchange's ticks.
    pub open spec fn ticks_of(self, exchange: Exchange) -> usize {
        match self.per_exchange.at(exchange) {
            Some(s) => s.ticks,
            None => 0,
        }
    }

    /// The bucket with one more tick. A tick without a price adds nothing.
    pub open spec fn with_tick(self, exchange: Exchange, mid: Option<Double>, added: AddedSums) -> BucketState {
        match mid {
            None => self,
            Some(price) => BucketState {
                first_price: if self.first_price is Some { self.first_price } else { Some(price) },
                high: if self.high.below(price) { price } else { self.high },
                low: if price.below(self.low) { price } else { self.low },
                last_price: price,
                tick_count: (self.tick_count + 1) as usize,
                per_exchange: self.per_exchange.with(
                    exchange,
                    ExchangeSums {
                        weighted: added.weighted,
                        weight: added.weight,
                        volume: added.volume,
                        ticks: (self.ticks_of(exchange) + 1) as usize,
                    },
                ),
                ..self
            },
        }
    }

    /// Whether one more tick can be counted.
    pub open spec fn countable(self, exchange: Exchange) -> bool {
        self.tick_count < usize::MAX && self.ticks_of(exchange) < usize::MAX
    }

    /// The numbers of all exchanges' ticks, added up.
    pub open spec fn all_ticks(self) -> int {
        self.ticks_of(Exchange::Binance) + self.ticks_of(Exchange::Coinbase) + self.ticks_of(
            Exchange::Kraken,
        ) + self.ticks_of(Exchange::Bitstamp)
    }

    /// The bucket has a first price exactly where it has a tick, its ticks are those of the
    /// exchanges, and the first and the last price are between its low and its high.
    pub open spec fn wf(self) -> bool {
        &&& self.first_price is Some <==> self.tick_count > 0
        &&& self.tick_count == self.all_ticks()
        &&& !self.high.nan() && !self.low.nan()
        &&& self.first_price matches Some(price) ==> price.nan() || spans(self, price)
        &&& self.tick_count > 0 ==> self.last_price.nan() || spans(self, self.last_price)
    }

    fn new(open_ms: u64) -> (r: Self)
        ensures
            r == BucketState::empty(open_ms),
    {
        BucketState {
            open_ms,
            first_price: None,
            high: Double { bits: 0xfff0_0000_0000_0000 },
            low: Double { bits: 0x7ff0_0000_0000_0000 },
            last_price: Double::zero(),
            tick_count: 0,
            per_exchange: ExchangeTable::new(),
        }
    }

    /// Adds a tick.
    fn ingest(&mut self, exchange: Exchange, mid: Option<Double>, added: AddedSums)
        requires
            old(self).countable(exchange),
            old(self).wf(),
        ensures
            *final(self) == old(self).with_tick(exchange, mid, added),
            final(self).wf(),
    {
        let price = match mid {
            Some(p) => p,
            None => return,
        };
        let ticks: usize = match self.per_exchange.get(exchange) {
            Some(s) => s.ticks,
            None => 0,
        };
        self.per_exchange.set(
            exchange,
            ExchangeSums {
                weighted: added.weighted,
                weight: added.weight,
                volume: added.volume,
                ticks: ticks + 1,
            },
        );
        if self.first_price.is_none() {
            self.first_price = Some(price);
        }
        if self.high.lt(price) {
            self.high = price;
        }
        if price.lt(self.low) {
            self.low = price;
        }
        self.last_price = price;
        self.tick_count = self.tick_count + 1;
    }
}

/// What an exchange contributed to a candle.
#[derive(Clone, Copy, Debug, PartialEq, Eq, Structural)]
pub struct ExchangeContribution {
    pub mid_vwap: Double,
    pub volume: Double,
    pub weight: Double,
    pub ticks: usize,
}

/// Whether an exchange's weight in a bucket is not zero.
pub open spec fn weighs(sums: ExchangeSums) -> bool {
    sums.weight.nan() || sums.weight.rank() != 0
}

/// The averages over the exchanges of a bucket. Only exchanges that
/// [`contributes`] go into them.
#[derive(Clone, Copy, Debug, PartialEq, Eq)]
pub struct BucketTotals {
    /// The weighted price of each exchange: its weighted sum divided by its weight.
    pub mids: ExchangeTable<Double>,
    /// The sum of the weights.
    pub weight: Double,
    /// The sum of the volumes.
    pub volume: Double,
    /// The prices of the exchanges, averaged by their weights.
    pub average: Double,
}

/// A completed bucket.
#[derive(Clone, Copy, Debug, PartialEq, Eq)]
pub struct Candle {
    pub open_ms: u64,
    pub close_ms: u64,
    pub open: Double,
    pub high: Double,
    pub low: Double,
    pub close: Double,
    /// The average price, weighted by volume and trust.
    pub vwmp: Double,
    pub volume: Double,
    pub tick_count: usize,
    pub exchange_contributions: ExchangeTable<ExchangeContribution>,
}

/// Whether an exchange goes into the averages of a bucket: it has ticks, and their weight is
/// not zero.
pub fn contributes(sums: &ExchangeSums) -> (r: bool)
    ensures
        r == weighs(*sums),
{
    sums.weight.is_nan() || sums.weight.lt(Double::zero()) || Double::zero().lt(sums.weight)
}

/// The contribution of one exchange.
pub open spec fn contribution(sums: Option<ExchangeSums>, mid: Option<Double>) -> Option<ExchangeContribution> {
    match (sums, mid) {
        (Some(s), Some(m)) => if weighs(s) {
            Some(
                ExchangeContribution {
                    mid_vwap: m,
                    volume: s.volume,
                    weight: s.weight,
                    ticks: s.ticks,
                },
            )
        } else {
            None
        },
        _ => None,
    }
}

fn make_contribution(sums: Option<ExchangeSums>, mid: Option<Double>) -> (r: Option<
    ExchangeContribution,
>)
    ensures
        r == contribution(sums, mid),
{
    match (sums, mid) {
        (Some(s), Some(m)) => if contributes(&s) {
            Some(
                ExchangeContribution {
                    mid_vwap: m,
                    volume: s.volume,
                    weight: s.weight,
                    ticks: s.ticks,
                },
            )
        } else {
            None
        },
        _ => None,
    }
}

/// The candle of a closed bucket.
pub open spec fn candle_of(b: BucketState, bucket_ms: u64, totals: BucketTotals) -> Candle {
    Candle {
        open_ms: b.open_ms,
        close_ms: (b.open_ms + bucket_ms) as u64,
        open: b.first_price->0,
        high: b.high,
        low: b.low,
        close: b.last_price,
        vwmp: if Double::zero_spec().below(totals.weight) { totals.average } else { b.last_price },
        volume: totals.volume,
        tick_count: b.tick_count,
        exchange_contributions: ExchangeTable {
            binance: contribution(b.per_exchange.binance, totals.mids.binance),
            coinbase: contribution(b.per_exchange.coinbase, totals.mids.coinbase),
            kraken: contribution(b.per_exchange.kraken, totals.mids.kraken),
            bitstamp: contribution(b.per_exchange.bitstamp, totals.mids.bitstamp),
        },
    }
}

/// The candle of a closed bucket.
pub fn into_candle(b: &BucketState, bucket_ms: u64, totals: &BucketTotals) -> (r: Candle)
    requires
        b.first_price is Some,
        b.open_ms + bucket_ms <= u64::MAX,
    ensures
        r == candle_of(*b, bucket_ms, *totals),
        !totals.weight.nan() && totals.weight.rank() > 0 ==> r.vwmp == totals.average,
        totals.weight.nan() || totals.weight.rank() <= 0 ==> r.vwmp == b.last_price,
{
    Candle {
        open_ms: b.open_ms,
        close_ms: b.open_ms + bucket_ms,
        open: match b.first_price {
            Some(p) => p,
            None => b.last_price,
        },
        high: b.high,
        low: b.low,
        close: b.last_price,
        vwmp: if Double::zero().lt(totals.weight) {
            totals.average
        } else {
            b.last_price
        },
        volume: totals.volume,
        tick_count: b.tick_count,
        exchange_contributions: ExchangeTable {
            binance: make_contribution(b.per_exchange.binance, totals.mids.binance),
            coinbase: make_contribution(b.per_exchange.coinbase, totals.mids.coinbase),
            kraken: make_contribution(b.per_exchange.kraken, totals.mids.kraken),
            bitstamp: make_contribution(b.per_exchange.bitstamp, totals.mids.bitstamp),
        },
    }
}

#[derive(Debug)]
pub struct Aggregator {
    pub cfg: AggregatorConfig,
    pub bucket: Option<BucketState>,
}

/// The beginning of the bucket that a time falls in.
pub open spec fn bucket_start(ms: u64, bucket_ms: u64) -> u64 {
    (ms / bucket_ms * bucket_ms) as u64
}

/// A bucket, where it has enough ticks to become a candle.
pub open spec fn completed(bucket: Option<BucketState>, min_ticks: usize) -> Option<BucketState> {
    match bucket {
        Some(b) => if b.tick_count >= min_ticks && b.tick_count > 0 { Some(b) } else { None },
        None => None,
    }
}

impl Aggregator {
    /// A bucket has a width, and the current one is well-formed and begins at a multiple of
    /// the width.
    pub open spec fn wf(self) -> bool {
        &&& self.cfg.bucket_ms > 0
        &&& self.bucket matches Some(b) ==> b.wf() && b.open_ms % self.cfg.bucket_ms == 0
    }

    /// The bucket that a tick of that time goes into, before the tick.
    pub open spec fn target(self, ms: u64) -> BucketState {
        let open_ms = bucket_start(ms, self.cfg.bucket_ms);
        if self.bucket is Some && self.bucket->0.open_ms == open_ms {
            self.bucket->0
        } else {
            BucketState::empty(open_ms)
        }
    }

    /// The bucket that a tick of that time closes.
    pub open spec fn closing(self, ms: u64) -> Option<BucketState> {
        if self.bucket is Some && self.bucket->0.open_ms == bucket_start(ms, self.cfg.bucket_ms) {
            None
        } else {
            completed(self.bucket, self.cfg.min_ticks)
        }
    }

    /// The aggregator after a tick.
    pub open spec fn after(self, exchange: Exchange, ms: u64, mid: Option<Double>, added: AddedSums) -> Aggregator {
        Aggregator { bucket: Some(self.target(ms).with_tick(exchange, mid, added)), ..self }
    }

    /// An aggregator without a bucket.
    pub fn new(cfg: AggregatorConfig) -> (r: Self)
        ensures
            r == (Aggregator { cfg, bucket: None }),
            cfg.bucket_ms > 0 ==> r.wf(),
    {
        Aggregator { cfg, bucket: None }
    }

    /// The beginning of the bucket that a time falls in.
    fn start_of(&self, ms: u64) -> (r: u64)
        requires
            self.cfg.bucket_ms > 0,
        ensures
            r == bucket_start(ms, self.cfg.bucket_ms),
            r <= ms,
    {
        let width: u64 = self.cfg.bucket_ms;
        proof {
            lemma_bucket_start(ms, width);
        }
        ms / width * width
    }

    /// The sums of an exchange in the bucket that a tick of that time goes into; none where it
    /// has no tick there.
    pub fn sums(&self, exchange: Exchange, ms: u64) -> (r: Option<ExchangeSums>)
        requires
            self.wf(),
        ensures
            r == self.target(ms).per_exchange.at(exchange),
    {
        let open_ms: u64 = self.start_of(ms);
        match &self.bucket {
            Some(b) => if b.open_ms == open_ms {
                b.per_exchange.get(exchange)
            } else {
                None
            },
            None => None,
        }
    }

    /// Takes in a tick. The result is the bucket that the tick closes, if it does and the
    /// bucket has enough ticks.
    pub fn ingest(&mut self, exchange: Exchange, ms: u64, mid: Option<Double>, added: AddedSums) -> (r:
        Option<BucketState>)
        requires
            old(self).wf(),
            old(self).target(ms).countable(exchange),
        ensures
            r == old(self).closing(ms),
            *final(self) == old(self).after(exchange, ms, mid, added),
            final(self).wf(),
    {
        let open_ms: u64 = self.start_of(ms);
        proof {
            law_buckets_part_time(ms, self.cfg.bucket_ms);
        }
        if let Some(b) = self.bucket {
            if b.open_ms == open_ms {
                let mut b = b;
                b.ingest(exchange, mid, added);
                self.bucket = Some(b);
                return None;
            }
        }
        let closed = self.flush();
        let mut b = BucketState::new(open_ms);
        b.ingest(exchange, mid, added);
        self.bucket = Some(b);
        closed
    }

    /// Closes the current bucket now. The result is the bucket, if it has enough ticks.
    pub fn flush(&mut self) -> (r: Option<BucketState>)
        ensures
            r == completed(old(self).bucket, old(self).cfg.min_ticks),
            *final(self) == (Aggregator { bucket: None, ..*old(self) }),
    {
        let bucket = self.bucket;
        self.bucket = None;
        match bucket {
            Some(b) => if b.tick_count >= self.cfg.min_ticks && b.tick_count > 0 {
                Some(b)
            } else {
                None
            },
            None => None,
        }
    }

    /// The beginning of the current bucket.
    pub fn current_bucket_open_ms(&self) -> (r: Option<u64>)
        ensures
            r == (match self.bucket {
                Some(b) => Some(b.open_ms),
                None => None,
            }),
    {
        match &self.bucket {
            Some(b) => Some(b.open_ms),
            None => None,
        }
    }
}

/// A time falls in the bucket that begins at or before it, and the next begins after it.
proof fn lemma_bucket_start(ms: u64, bucket_ms: u64)
    requires
        bucket_ms > 0,
    ensures
        ms / bucket_ms * bucket_ms <= ms,
        ms - bucket_ms < ms / bucket_ms * bucket_ms,
{
    assert(ms / bucket_ms * bucket_ms <= ms && ms - bucket_ms < ms / bucket_ms * bucket_ms)
        by (nonlinear_arith)
        requires
            bucket_ms > 0,
    ;
}

/// The buckets part the time: each time falls in the bucket that [`bucket_start`] gives, which
/// is as wide as all others.
pub proof fn law_buckets_part_time(ms: u64, bucket_ms: u64)
    requires
        bucket_ms > 0,
    ensures
        bucket_start(ms, bucket_ms) <= ms < bucket_start(ms, bucket_ms) + bucket_ms,
        bucket_start(ms, bucket_ms) % bucket_ms == 0,
{
    lemma_bucket_start(ms, bucket_ms);
    let q = ms / bucket_ms;
    assert((q * bucket_ms) % (bucket_ms as int) == 0) by (nonlinear_arith)
        requires
            bucket_ms > 0,
    ;
}

/// A closed bucket has at least one tick, at least as many as are asked for, and another
/// beginning than the bucket of the tick that closed it.
pub proof fn law_closed_bucket_is_complete(a: Aggregator, ms: u64)
    requires
        a.wf(),
        a.closing(ms) is Some,
    ensures
        a.closing(ms)->0.tick_count >= a.cfg.min_ticks,
        a.closing(ms)->0.tick_count >= 1,
        a.closing(ms)->0.first_price is Some,
        a.closing(ms)->0.open_ms != bucket_start(ms, a.cfg.bucket_ms),
{
}

/// Whether a price is a number between a bucket's low and its high.
pub open spec fn spans(b: BucketState, price: Double) -> bool {
    b.low.at_most(price) && price.at_most(b.high)
}

/// A bucket spans every price that it was given, and a further tick keeps that so.
pub proof fn law_bucket_spans_its_prices(
    b: BucketState,
    exchange: Exchange,
    price: Double,
    added: AddedSums,
    earlier: Double,
)
    requires
        !price.nan(),
        !b.high.nan(),
        !b.low.nan(),
    ensures
        spans(b.with_tick(exchange, Some(price), added), price),
        spans(b, earlier) ==> spans(b.with_tick(exchange, Some(price), added), earlier),
        !b.with_tick(exchange, Some(price), added).high.nan(),
        !b.with_tick(exchange, Some(price), added).low.nan(),
{
}

/// The bucket of a beginning and its ticks, in their order: the exchange, the price and the
/// sums of each.
pub open spec fn gathered(open_ms: u64, ticks: Seq<(Exchange, Double, AddedSums)>) -> BucketState
    decreases ticks.len(),
{
    if ticks.len() == 0 {
        BucketState::empty(open_ms)
    } else {
        let (exchange, price, added) = ticks.last();
        gathered(open_ms, ticks.drop_last()).with_tick(exchange, Some(price), added)
    }
}

/// The number of an exchange's ticks among some.
pub open spec fn ticks_from(ticks: Seq<(Exchange, Double, AddedSums)>, exchange: Exchange) -> nat
    decreases ticks.len(),
{
    if ticks.len() == 0 {
        0
    } else {
        ticks_from(ticks.drop_last(), exchange) + (if ticks.last().0 == exchange {
            1nat
        } else {
            0nat
        })
    }
}

/// A bucket counts its ticks and those of each exchange, begins and ends with the prices of its
/// first and its last tick, and spans them all.
pub proof fn law_bucket_is_its_ticks(open_ms: u64, ticks: Seq<(Exchange, Double, AddedSums)>)
    requires
        ticks.len() <= usize::MAX,
        forall|i: int| 0 <= i < ticks.len() ==> !(#[trigger] ticks[i]).1.nan(),
    ensures
        ({
            let b = gathered(open_ms, ticks);
            &&& b.wf()
            &&& b.open_ms == open_ms
            &&& b.tick_count == ticks.len()
            &&& forall|e: Exchange| #[trigger] b.ticks_of(e) == ticks_from(ticks, e)
            &&& ticks.len() > 0 ==> b.first_price == Some(ticks[0].1) && b.last_price
                == ticks.last().1
            &&& forall|i: int| 0 <= i < ticks.len() ==> spans(b, (#[trigger] ticks[i]).1)
        }),
    decreases ticks.len(),
{
    let b = gathered(open_ms, ticks);
    if ticks.len() > 0 {
        let rest = ticks.drop_last();
        let before = gathered(open_ms, rest);
        let (exchange, price, added) = ticks.last();
        assert forall|i: int| 0 <= i < rest.len() implies !(#[trigger] rest[i]).1.nan() by {
            assert(rest[i] == ticks[i]);
        }
        law_bucket_is_its_ticks(open_ms, rest);
        assert(before.ticks_of(exchange) <= before.all_ticks());
        assert(!ticks[ticks.len() - 1].1.nan());
        assert forall|i: int| 0 <= i < ticks.len() implies spans(b, (#[trigger] ticks[i]).1) by {
            if i < rest.len() {
                assert(rest[i] == ticks[i]);
                law_bucket_spans_its_prices(before, exchange, price, added, rest[i].1);
            }
        }
        if rest.len() > 0 {
            assert(rest[0] == ticks[0]);
        }
    }
}

/// The current bucket is the one that its ticks gather: a tick of its time is added to them, and
/// a tick of another time is the first of a new bucket.
pub proof fn law_tick_is_gathered(
    a: Aggregator,
    ticks: Seq<(Exchange, Double, AddedSums)>,
    ms: u64,
    exchange: Exchange,
    price: Double,
    added: AddedSums,
)
    requires
        a.bucket matches Some(b) ==> b == gathered(b.open_ms, ticks),
    ensures
        ({
            let open_ms = bucket_start(ms, a.cfg.bucket_ms);
            let same = a.bucket is Some && a.bucket->0.open_ms == open_ms;
            let tick = (exchange, price, added);
            a.after(exchange, ms, Some(price), added).bucket == Some(
                gathered(open_ms, if same { ticks.push(tick) } else { seq![tick] }),
            )
        }),
{
    let open_ms = bucket_start(ms, a.cfg.bucket_ms);
    let tick = (exchange, price, added);
    assert(ticks.push(tick).drop_last() =~= ticks);
    assert(seq![tick].drop_last() =~= Seq::empty());
    assert(gathered(open_ms, Seq::empty()) == BucketState::empty(open_ms));
}

/// The ticks of all contributions to a candle, added up.
pub open spec fn contributed(table: ExchangeTable<ExchangeContribution>) -> int {
    let ticks = |c: Option<ExchangeContribution>|
        match c {
            Some(c) => c.ticks as int,
            None => 0int,
        };
    ticks(table.binance) + ticks(table.coinbase) + ticks(table.kraken) + ticks(table.bitstamp)
}

/// The candle of a closed bucket holds together: it begins at a multiple of the width and is as
/// wide as all others, it has at least as many ticks as are asked for, its first and its last
/// price are between its low and its high, and, where every exchange in it has a weight, its
/// ticks are those of the contributions.
pub proof fn law_candle_holds_together(a: Aggregator, ms: u64, totals: BucketTotals)
    requires
        a.wf(),
        a.closing(ms) is Some,
        a.closing(ms)->0.open_ms + a.cfg.bucket_ms <= u64::MAX,
    ensures
        ({
            let b = a.closing(ms)->0;
            let c = candle_of(b, a.cfg.bucket_ms, totals);
            &&& c.open_ms % a.cfg.bucket_ms == 0
            &&& c.close_ms == c.open_ms + a.cfg.bucket_ms
            &&& c.tick_count >= a.cfg.min_ticks && c.tick_count >= 1
            &&& c.tick_count == b.all_ticks()
            &&& !c.open.nan() ==> c.low.at_most(c.open) && c.open.at_most(c.high)
            &&& !c.close.nan() ==> c.low.at_most(c.close) && c.close.at_most(c.high)
            &&& (forall|e: Exchange|
                (#[trigger] b.per_exchange.at(e)) matches Some(s) ==> weighs(s) && totals.mids.at(
                    e,
                ) is Some) ==> contributed(c.exchange_contributions) == c.tick_count
        }),
{
    let b = a.closing(ms)->0;
    assert(b.per_exchange.binance == b.per_exchange.at(Exchange::Binance));
    assert(b.per_exchange.coinbase == b.per_exchange.at(Exchange::Coinbase));
    assert(b.per_exchange.kraken == b.per_exchange.at(Exchange::Kraken));
    assert(b.per_exchange.bitstamp == b.per_exchange.at(Exchange::Bitstamp));
}

/// A candle has the price of all its exchanges: wherever their weights add up to more than zero it
/// is their average, and only where they do not is it the last price. Its volume is that of all
/// exchanges, and each exchange that has a weight is there with its own price, volume and ticks.
pub proof fn law_candle_has_the_price_of_all_exchanges(
    b: BucketState,
    bucket_ms: u64,
    totals: BucketTotals,
    e: Exchange,
)
    ensures
        ({
            let c = candle_of(b, bucket_ms, totals);
            let sums = b.per_exchange.at(e);
            let mid = totals.mids.at(e);
            let part = c.exchange_contributions.at(e);
            &&& !totals.weight.nan() && totals.weight.rank() > 0 ==> c.vwmp == totals.average
            &&& totals.weight.nan() || totals.weight.rank() <= 0 ==> c.vwmp == b.last_price
            &&& c.volume == totals.volume
            &&& part is Some <==> sums is Some && mid is Some && (sums->0.weight.nan()
                || sums->0.weight.rank() != 0)
            &&& part is Some ==> part->0.mid_vwap == mid->0 && part->0.volume == sums->0.volume
                && part->0.weight == sums->0.weight && part->0.ticks == sums->0.ticks
        }),
{
}

/// The place of an exchange's last tick among some; none where it has no tick.
pub open spec fn last_tick(ticks: Seq<(Exchange, Double, AddedSums)>, exchange: Exchange) -> Option<int>
    decreases ticks.len(),
{
    if ticks.len() == 0 {
        None
    } else if ticks.last().0 == exchange {
        Some(ticks.len() - 1)
    } else {
        last_tick(ticks.drop_last(), exchange)
    }
}

/// The high and the low of a bucket are prices of its ticks, and the sums of an exchange are those
/// of its last tick.
pub proof fn law_bucket_holds_prices_of_its_ticks(
    open_ms: u64,
    ticks: Seq<(Exchange, Double, AddedSums)>,
    e: Exchange,
)
    requires
        0 < ticks.len() <= usize::MAX,
        forall|i: int| 0 <= i < ticks.len() ==> !(#[trigger] ticks[i]).1.nan(),
    ensures
        ({
            let b = gathered(open_ms, ticks);
            let sums = b.per_exchange.at(e);
            &&& exists|i: int| 0 <= i < ticks.len() && (#[trigger] ticks[i]).1 == b.high
            &&& exists|i: int| 0 <= i < ticks.len() && (#[trigger] ticks[i]).1 == b.low
            &&& sums is Some <==> last_tick(ticks, e) is Some
            &&& sums is Some ==> {
                let k = last_tick(ticks, e)->0;
                &&& 0 <= k < ticks.len() && ticks[k].0 == e
                &&& forall|i: int| k < i < ticks.len() ==> (#[trigger] ticks[i]).0 != e
                &&& sums->0.weighted == ticks[k].2.weighted && sums->0.weight == ticks[k].2.weight
                    && sums->0.volume == ticks[k].2.volume
                &&& sums->0.ticks == ticks_from(ticks, e)
            }
        }),
    decreases ticks.len(),
{
    let b = gathered(open_ms, ticks);
    let rest = ticks.drop_last();
    let before = gathered(open_ms, rest);
    law_bucket_is_its_ticks(open_ms, ticks);
    assert(b.ticks_of(e) == ticks_from(ticks, e));
    assert(!ticks[ticks.len() - 1].1.nan());
    if rest.len() > 0 {
        assert forall|i: int| 0 <= i < rest.len() implies !(#[trigger] rest[i]).1.nan() by {
            assert(rest[i] == ticks[i]);
        }
        law_bucket_holds_prices_of_its_ticks(open_ms, rest, e);
        let h = choose|i: int| 0 <= i < rest.len() && (#[trigger] rest[i]).1 == before.high;
        let l = choose|i: int| 0 <= i < rest.len() && (#[trigger] rest[i]).1 == before.low;
        assert(ticks[h] == rest[h] && ticks[l] == rest[l]);
        if last_tick(rest, e) is Some {
            let k = last_tick(rest, e)->0;
            assert(ticks[k] == rest[k]);
            assert forall|i: int| k < i < rest.len() implies (#[trigger] ticks[i]).0 != e by {
                assert(rest[i].0 != e);
            }
        }
    } else {
        assert(before == BucketState::empty(open_ms));
        assert(before.per_exchange.at(e) is None);
        assert(last_tick(rest, e) is None);
        assert(ticks[0] == ticks.last());
    }
}

/// A candle tells of its ticks: it opens with the price of the first and closes with that of the
/// last, its high and its low are prices of ticks that no other exceeds or falls below, and it
/// counts them all.
pub proof fn law_candle_tells_of_its_ticks(
    open_ms: u64,
    bucket_ms: u64,
    ticks: Seq<(Exchange, Double, AddedSums)>,
    totals: BucketTotals,
)
    requires
        0 < ticks.len() <= usize::MAX,
        open_ms + bucket_ms <= u64::MAX,
        forall|i: int| 0 <= i < ticks.len() ==> !(#[trigger] ticks[i]).1.nan(),
    ensures
        ({
            let c = candle_of(gathered(open_ms, ticks), bucket_ms, totals);
            &&& c.open_ms == open_ms && c.close_ms == open_ms + bucket_ms
            &&& c.open == ticks[0].1 && c.close == ticks[ticks.len() - 1].1
            &&& c.tick_count == ticks.len()
            &&& exists|i: int| 0 <= i < ticks.len() && (#[trigger] ticks[i]).1 == c.high
            &&& exists|i: int| 0 <= i < ticks.len() && (#[trigger] ticks[i]).1 == c.low
            &&& forall|i: int|
                0 <= i < ticks.len() ==> c.low.rank() <= (#[trigger] ticks[i]).1.rank()
                    <= c.high.rank()
        }),
{
    law_bucket_is_its_ticks(open_ms, ticks);
    law_bucket_holds_prices_of_its_ticks(open_ms, ticks, Exchange::Binance);
    let b = gathered(open_ms, ticks);
    assert forall|i: int| 0 <= i < ticks.len() implies b.low.rank() <= (#[trigger] ticks[i]).1.rank()
        <= b.high.rank() by {
        assert(spans(b, ticks[i].1));
    }
}

/// A tick closes the current bucket exactly where its time falls in another one; then the bucket
/// is handed out if it has a tick and enough of them. A tick with a price is always in the current
/// bucket afterwards, which is the one of its time.
pub proof fn law_tick_of_another_time_closes(
    a: Aggregator,
    exchange: Exchange,
    ms: u64,
    price: Double,
    added: AddedSums,
)
    requires
        a.cfg.bucket_ms > 0,
        a.target(ms).countable(exchange),
    ensures
        ({
            let width = a.cfg.bucket_ms as int;
            let after = a.after(exchange, ms, Some(price), added);
            let now = after.bucket->0;
            let same = a.bucket is Some && a.bucket->0.open_ms == ms as int / width * width;
            &&& a.closing(ms) is Some <==> !same && a.bucket is Some && a.bucket->0.tick_count >= 1
                && a.bucket->0.tick_count >= a.cfg.min_ticks
            &&& a.closing(ms) is Some ==> a.closing(ms) == a.bucket
            &&& after.bucket is Some && after.cfg == a.cfg
            &&& now.open_ms == ms as int / width * width
            &&& now.last_price == price
            &&& now.tick_count == (if same { a.bucket->0.tick_count + 1 } else { 1 })
            &&& now.first_price == (if same && a.bucket->0.first_price is Some {
                a.bucket->0.first_price
            } else {
                Some(price)
            })
        }),
{
    lemma_bucket_start(ms, a.cfg.bucket_ms);
    assert(bucket_start(ms, a.cfg.bucket_ms) == ms as int / a.cfg.bucket_ms as int
        * a.cfg.bucket_ms as int);
}

/// A tick without a price leaves the bucket of its time as it is.
pub proof fn law_tick_without_price_counts_for_nothing(
    a: Aggregator,
    exchange: Exchange,
    ms: u64,
    added: AddedSums,
)
    requires
        a.bucket is Some,
        a.bucket->0.open_ms == bucket_start(ms, a.cfg.bucket_ms),
    ensures
        a.after(exchange, ms, None, added) == a,
        a.closing(ms) is None,
{
}

/// By default a bucket is a quarter of a second wide, one tick is enough for a candle, and the
/// trust in an exchange counts.
pub proof fn law_standard_bucket_is_a_quarter_second()
    ensures
        AggregatorConfig::standard().bucket_ms == 250,
        AggregatorConfig::standard().min_ticks == 1,
        AggregatorConfig::standard().use_trust_weight,
{
}

} // verus!

//! Layer 2: a price that does not fit the other exchanges' prices is an outlier.
//!
//! The measure is the modified z-score: the distance from the median of the pool, against the
//! median of all such distances.

use vstd::prelude::*;
use crate::double::Double;
use crate::prediction::btc_aggregator::ranking;
use crate::prediction::btc_aggregator::ranking::{middle, sorted, Middle};
use crate::prediction::btc_aggregator::tick;
use crate::prediction::btc_aggregator::tick::{Exchange, ExchangeTable};
use crate::prediction::storage;
use crate::prediction::storage::minus_or_zero;

verus! {

#[derive(Clone, Copy, Debug, PartialEq, Eq, Structural)]
pub struct OutlierGateConfig {
    /// The largest z-score that is no outlier.
    pub z_threshold: Double,
    /// The number of exchanges with a recent price from which on outliers are looked for.
    pub min_exchanges: usize,
    /// The age in milliseconds up to which a price is recent.
    pub max_age_ms: u64,
}

impl OutlierGateConfig {
    /// The values that are taken by default.
    pub open spec fn standard() -> OutlierGateConfig {
        OutlierGateConfig {
            z_threshold: Double { bits: 0x400c_0000_0000_0000 },
            min_exchanges: 2,
            max_age_ms: 5_000,
        }
    }
}

impl Default for OutlierGateConfig {
    /// A score of 3.5, two exchanges, and five seconds.
    fn default() -> (r: Self)
        ensures
            r == OutlierGateConfig::standard(),
    {
        OutlierGateConfig {
            z_threshold: Double { bits: 0x400c_0000_0000_0000 },
            min_exchanges: 2,
            max_age_ms: 5_000,
        }
    }
}

/// The last accepted price of an exchange.
#[derive(Clone, Copy, Debug, PartialEq, Eq, Structural)]
pub struct Quote {
    pub price: Double,
    pub timestamp_ms: u64,
}

#[derive(Debug)]
pub struct OutlierGate {
    pub cfg: OutlierGateConfig,
    pub latest: ExchangeTable<Quote>,
}

/// The price of a quote that is there and recent.
pub open spec fn recent(quote: Option<Quote>, now_ms: u64, max_age_ms: u64) -> Seq<Double> {
    if quote is Some && storage::minus(now_ms, quote->0.timestamp_ms) <= max_age_ms {
        seq![quote->0.price]
    } else {
        Seq::empty()
    }
}

impl OutlierGate {
    /// The recent price of one exchange, unless that is the exchange left out.
    pub open spec fn fresh_price(
        self,
        exchange: Exchange,
        except: Option<Exchange>,
        now_ms: u64,
    ) -> Seq<Double> {
        if except == Some(exchange) {
            Seq::empty()
        } else {
            recent(self.latest.at(exchange), now_ms, self.cfg.max_age_ms)
        }
    }

    /// The recent prices of all exchanges but the one left out, in a fixed order.
    pub open spec fn fresh_prices(self, except: Option<Exchange>, now_ms: u64) -> Seq<Double> {
        self.fresh_price(Exchange::Binance, except, now_ms) + self.fresh_price(
            Exchange::Coinbase,
            except,
            now_ms,
        ) + self.fresh_price(Exchange::Kraken, except, now_ms) + self.fresh_price(
            Exchange::Bitstamp,
            except,
            now_ms,
        )
    }

    /// Whether there are too few other exchanges with a recent price to judge by.
    pub open spec fn undecided(self, exchange: Exchange, now_ms: u64) -> bool {
        self.fresh_prices(Some(exchange), now_ms).len() + 1 < self.cfg.min_exchanges
    }

    /// Whether a price passes, where `z` is its score in the pool.
    pub open spec fn passes(self, exchange: Exchange, now_ms: u64, z: Double) -> bool {
        self.undecided(exchange, now_ms) || !self.cfg.z_threshold.below(z)
    }

    /// The comparison after a price. A price that does not pass leaves it as it was.
    pub open spec fn after(self, exchange: Exchange, price: Double, now_ms: u64, z: Double) -> OutlierGate {
        if self.passes(exchange, now_ms, z) {
            OutlierGate {
                latest: self.latest.with(exchange, Quote { price, timestamp_ms: now_ms }),
                ..self
            }
        } else {
            self
        }
    }

    /// Whether a price can be judged: the pool is not looked at, or the price is alone in it, or
    /// all of it are numbers, which can be put in order.
    pub open spec fn judges(self, exchange: Exchange, price: Double, now_ms: u64) -> bool {
        let peers = self.fresh_prices(Some(exchange), now_ms);
        self.undecided(exchange, now_ms) || peers.len() == 0 || ranking::all_numbers(
            peers.push(price),
        )
    }

    /// Whether every price is a number.
    pub open spec fn numbers(self) -> bool {
        forall|e: Exchange| (#[trigger] self.latest.at(e)) is Some ==> !self.latest.at(
            e,
        )->0.price.nan()
    }

    /// A gate that has seen no price.
    pub fn new(cfg: OutlierGateConfig) -> (r: Self)
        ensures
            r == (OutlierGate { cfg, latest: ExchangeTable::<Quote>::none() }),
            r.numbers(),
    {
        OutlierGate { cfg, latest: ExchangeTable::new() }
    }

    /// Adds the recent price of one exchange to a list.
    fn gather(&self, out: &mut Vec<Double>, exchange: Exchange, except: Option<Exchange>, now_ms: u64)
        ensures
            final(out)@ == old(out)@ + self.fresh_price(exchange, except, now_ms),
    {
        let ghost before = out@;
        if let Some(e) = except {
            if e == exchange {
                assert(before + Seq::<Double>::empty() =~= before);
                return;
            }
        }
        if let Some(q) = self.latest.get(exchange) {
            if minus_or_zero(now_ms, q.timestamp_ms) <= self.cfg.max_age_ms {
                out.push(q.price);
            }
        }
        assert(out@ =~= before + self.fresh_price(exchange, except, now_ms));
    }

    /// The recent prices of all exchanges but the one left out.
    fn collect(&self, except: Option<Exchange>, now_ms: u64) -> (r: Vec<Double>)
        ensures
            r@ == self.fresh_prices(except, now_ms),
            r@.len() <= 4,
    {
        let mut out: Vec<Double> = Vec::new();
        self.gather(&mut out, Exchange::Binance, except, now_ms);
        assert(out@ =~= self.fresh_price(Exchange::Binance, except, now_ms));
        self.gather(&mut out, Exchange::Coinbase, except, now_ms);
        self.gather(&mut out, Exchange::Kraken, except, now_ms);
        self.gather(&mut out, Exchange::Bitstamp, except, now_ms);
        out
    }

    /// The pool that a price is judged in, in ascending order: the recent prices of the other
    /// exchanges and the price itself. None where there are too few to judge by; the price
    /// then passes.
    pub fn pool(&self, exchange: Exchange, price: Double, now_ms: u64) -> (r: Option<Vec<Double>>)
        requires
            self.judges(exchange, price, now_ms),
        ensures
            r is None <==> self.undecided(exchange, now_ms),
            r is Some ==> ranking::ascending(r->0@) && r->0@.to_multiset() == self.fresh_prices(
                Some(exchange),
                now_ms,
            ).push(price).to_multiset() && r->0@.len() > 0,
    {
        let mut peers = self.collect(Some(exchange), now_ms);
        if peers.len() + 1 < self.cfg.min_exchanges {
            return None;
        }
        peers.push(price);
        if peers.len() == 1 {
            return Some(peers);
        }
        Some(sorted(&peers))
    }

    /// Whether a price passes, where `z` is its score in the [`OutlierGate::pool`]. The score
    /// is not looked at where there is no pool.
    pub fn accept(&mut self, exchange: Exchange, price: Double, now_ms: u64, z: Double) -> (r: bool)
        requires
            old(self).judges(exchange, price, now_ms),
        ensures
            r == old(self).passes(exchange, now_ms, z),
            *final(self) == old(self).after(exchange, price, now_ms, z),
            old(self).numbers() && !price.nan() ==> final(self).numbers(),
    {
        let peers = self.collect(Some(exchange), now_ms);
        if peers.len() + 1 >= self.cfg.min_exchanges && self.cfg.z_threshold.lt(z) {
            return false;
        }
        self.latest.set(exchange, Quote { price, timestamp_ms: now_ms });
        proof {
            assert forall|e: Exchange|
                old(self).numbers() && !price.nan() && (#[trigger] self.latest.at(e)) is Some implies !self.latest.at(
                e,
            )->0.price.nan() by {
                tick::law_exchanges_are_independent(
                    old(self).latest,
                    exchange,
                    Quote { price, timestamp_ms: now_ms },
                    e,
                );
                assert(old(self).latest.at(e) is Some ==> !old(self).latest.at(e)->0.price.nan());
            }
        }
        true
    }

    /// The middle of all recent prices; none where they are too few.
    pub fn cross_median(&self, now_ms: u64) -> (r: Option<Middle>)
        requires
            self.fresh_prices(None, now_ms).len() < self.cfg.min_exchanges || self.fresh_prices(
                None,
                now_ms,
            ).len() == 1 || ranking::all_numbers(self.fresh_prices(None, now_ms)),
            self.cfg.min_exchanges > 0 || self.fresh_prices(None, now_ms).len() > 0,
        ensures
            ({
                let prices = self.fresh_prices(None, now_ms);
                &&& r is None <==> prices.len() < self.cfg.min_exchanges
                &&& r is Some ==> exists|s: Seq<Double>| #[trigger]
                    ranking::ascending(s) && s.to_multiset() == prices.to_multiset() && s.len()
                        == prices.len() && r->0 == ranking::middle_spec(s)
            }),
    {
        let prices = self.collect(None, now_ms);
        if prices.len() < self.cfg.min_exchanges {
            return None;
        }
        let ordered = if prices.len() == 1 {
            prices
        } else {
            sorted(&prices)
        };
        let m = middle(&ordered);
        assert(ranking::ascending(ordered@));
        Some(m)
    }
}

/// Among numbers every number can be judged, and the median of all can be found.
pub proof fn law_numbers_are_judged(g: OutlierGate, exchange: Exchange, price: Double, now_ms: u64)
    requires
        g.numbers(),
        !price.nan(),
    ensures
        g.judges(exchange, price, now_ms),
        ranking::all_numbers(g.fresh_prices(None, now_ms)),
{
    lemma_numbers(g, None, now_ms);
    lemma_numbers(g, Some(exchange), now_ms);
    let peers = g.fresh_prices(Some(exchange), now_ms);
    assert forall|i: int| 0 <= i < peers.push(price).len() implies !(#[trigger] peers.push(
        price,
    )[i]).nan() by {
        if i < peers.len() {
            assert(peers.push(price)[i] == peers[i]);
        }
    }
}

/// Where every exchange's recent price is a number, all of them are.
proof fn lemma_numbers(g: OutlierGate, except: Option<Exchange>, now_ms: u64)
    requires
        g.numbers(),
    ensures
        ranking::all_numbers(g.fresh_prices(except, now_ms)),
{
    let a = g.fresh_price(Exchange::Binance, except, now_ms);
    let b = g.fresh_price(Exchange::Coinbase, except, now_ms);
    let c = g.fresh_price(Exchange::Kraken, except, now_ms);
    let d = g.fresh_price(Exchange::Bitstamp, except, now_ms);
    assert(g.latest.at(Exchange::Binance) is Some ==> !g.latest.at(
        Exchange::Binance,
    )->0.price.nan());
    assert(g.latest.at(Exchange::Coinbase) is Some ==> !g.latest.at(
        Exchange::Coinbase,
    )->0.price.nan());
    assert(g.latest.at(Exchange::Kraken) is Some ==> !g.latest.at(Exchange::Kraken)->0.price.nan());
    assert(g.latest.at(Exchange::Bitstamp) is Some ==> !g.latest.at(
        Exchange::Bitstamp,
    )->0.price.nan());
    assert(ranking::all_numbers(a) && ranking::all_numbers(b) && ranking::all_numbers(c)
        && ranking::all_numbers(d));
    assert(ranking::all_numbers(a + b));
    assert(ranking::all_numbers(a + b + c));
}

/// A price whose peers are all stale passes where the comparison asks for at least two exchanges,
/// whatever its score.
pub proof fn law_stale_peers_do_not_judge(g: OutlierGate, exchange: Exchange, now_ms: u64, z: Double)
    requires
        g.cfg.min_exchanges >= 2,
        forall|e: Exchange|
            e != exchange && (#[trigger] g.latest.at(e)) is Some ==> storage::minus(
                now_ms,
                g.latest.at(e)->0.timestamp_ms,
            ) > g.cfg.max_age_ms,
    ensures
        g.passes(exchange, now_ms, z),
{
    assert forall|e: Exchange| (#[trigger] g.fresh_price(e, Some(exchange), now_ms)).len() == 0 by {
        assert(e != exchange && g.latest.at(e) is Some ==> storage::minus(
            now_ms,
            g.latest.at(e)->0.timestamp_ms,
        ) > g.cfg.max_age_ms);
    }
}

/// An outlier leaves every exchange's last price as it was.
pub proof fn law_outlier_changes_nothing(
    g: OutlierGate,
    exchange: Exchange,
    price: Double,
    now_ms: u64,
    z: Double,
)
    requires
        !g.passes(exchange, now_ms, z),
    ensures
        g.after(exchange, price, now_ms, z) == g,
{
}

/// The number of exchanges other than one whose last price is at most as old as the comparison
/// allows.
pub open spec fn recent_peers(g: OutlierGate, exchange: Exchange, now_ms: u64) -> int {
    let counts = |e: Exchange|
        if e != exchange && g.latest.at(e) is Some && now_ms - g.latest.at(e)->0.timestamp_ms
            <= g.cfg.max_age_ms {
            1int
        } else {
            0int
        };
    counts(Exchange::Binance) + counts(Exchange::Coinbase) + counts(Exchange::Kraken) + counts(
        Exchange::Bitstamp,
    )
}

/// A price is stopped exactly where it and its recent peers are at least as many exchanges as the
/// comparison asks for and its score is above the limit. A price that passes is its exchange's last
/// price from then on, and no other exchange's changes.
pub proof fn law_outlier_is_judged_by_recent_peers(
    g: OutlierGate,
    exchange: Exchange,
    price: Double,
    now_ms: u64,
    z: Double,
    other: Exchange,
)
    requires
        other != exchange,
    ensures
        ({
            let after = g.after(exchange, price, now_ms, z);
            let high = !z.nan() && !g.cfg.z_threshold.nan() && z.rank() > g.cfg.z_threshold.rank();
            &&& !g.passes(exchange, now_ms, z) <==> recent_peers(g, exchange, now_ms) + 1
                >= g.cfg.min_exchanges && high
            &&& g.passes(exchange, now_ms, z) ==> after.latest.at(exchange) == Some(
                Quote { price, timestamp_ms: now_ms },
            )
            &&& !g.passes(exchange, now_ms, z) ==> after.latest.at(exchange) == g.latest.at(exchange)
            &&& after.latest.at(other) == g.latest.at(other)
            &&& after.cfg == g.cfg
        }),
{
    assert forall|e: Exchange| (#[trigger] g.fresh_price(e, Some(exchange), now_ms)).len() == (if e
        != exchange && g.latest.at(e) is Some && now_ms - g.latest.at(e)->0.timestamp_ms
        <= g.cfg.max_age_ms {
        1int
    } else {
        0int
    }) by {}
    let peers = g.fresh_prices(Some(exchange), now_ms);
    assert(peers.len() == g.fresh_price(Exchange::Binance, Some(exchange), now_ms).len()
        + g.fresh_price(Exchange::Coinbase, Some(exchange), now_ms).len() + g.fresh_price(
        Exchange::Kraken,
        Some(exchange),
        now_ms,
    ).len() + g.fresh_price(Exchange::Bitstamp, Some(exchange), now_ms).len());
}

/// The prices that a price is compared with are those of the other exchanges that are recent
/// enough, and none of its own.
pub proof fn law_pool_is_of_recent_peers(
    g: OutlierGate,
    exchange: Exchange,
    now_ms: u64,
    price: Double,
)
    ensures
        g.fresh_prices(Some(exchange), now_ms).contains(price) <==> exists|e: Exchange|
            e != exchange && (#[trigger] g.latest.at(e)) is Some && now_ms - g.latest.at(
                e,
            )->0.timestamp_ms <= g.cfg.max_age_ms && g.latest.at(e)->0.price == price,
{
    let a = g.fresh_price(Exchange::Binance, Some(exchange), now_ms);
    let b = g.fresh_price(Exchange::Coinbase, Some(exchange), now_ms);
    let c = g.fresh_price(Exchange::Kraken, Some(exchange), now_ms);
    let d = g.fresh_price(Exchange::Bitstamp, Some(exchange), now_ms);
    let all = a + b + c + d;
    assert forall|e: Exchange|
        e != exchange && (#[trigger] g.latest.at(e)) is Some && now_ms - g.latest.at(
            e,
        )->0.timestamp_ms <= g.cfg.max_age_ms && g.latest.at(e)->0.price == price implies all.contains(
        price,
    ) by {
        if e is Binance {
            assert(all[0] == price);
        } else if e is Coinbase {
            assert(all[a.len() as int] == price);
        } else if e is Kraken {
            assert(all[(a + b).len() as int] == price);
        } else {
            assert(all[(a + b + c).len() as int] == price);
        }
    }
    if all.contains(price) {
        let i = choose|i: int| 0 <= i < all.len() && all[i] == price;
        let e = if i < a.len() {
            Exchange::Binance
        } else if i < (a + b).len() {
            Exchange::Coinbase
        } else if i < (a + b + c).len() {
            Exchange::Kraken
        } else {
            Exchange::Bitstamp
        };
        assert(g.fresh_price(e, Some(exchange), now_ms).len() == 1 && g.fresh_price(
            e,
            Some(exchange),
            now_ms,
        )[0] == price);
        assert(g.latest.at(e) is Some);
    }
}

/// By default a score above 3.5 is an outlier, two exchanges are enough to judge by, and a price is
/// recent for five seconds.
pub proof fn law_standard_outlier_scores_above_three_and_a_half()
    ensures
        OutlierGateConfig::standard().z_threshold.bits == 0x400c_0000_0000_0000,
        OutlierGateConfig::standard().min_exchanges == 2,
        OutlierGateConfig::standard().max_age_ms == 5_000,
{
}

/// Only a price that is compared has to be a number, and so have those that it is compared with:
/// where there is no other recent price, or too few of them, any price is taken.
pub proof fn law_compared_prices_are_numbers(
    g: OutlierGate,
    exchange: Exchange,
    price: Double,
    now_ms: u64,
)
    ensures
        ({
            let peers = g.fresh_prices(Some(exchange), now_ms);
            &&& peers.len() == 0 ==> g.judges(exchange, price, now_ms)
            &&& peers.len() + 1 < g.cfg.min_exchanges ==> g.judges(exchange, price, now_ms)
            &&& !price.nan() && (forall|i: int| 0 <= i < peers.len() ==> !(#[trigger] peers[i]).nan())
                ==> g.judges(exchange, price, now_ms)
            &&& peers.len() > 0 && peers.len() + 1 >= g.cfg.min_exchanges && price.nan()
                ==> !g.judges(exchange, price, now_ms)
        }),
{
    let peers = g.fresh_prices(Some(exchange), now_ms);
    let all = peers.push(price);
    assert(all[peers.len() as int] == price);
    if !price.nan() && (forall|i: int| 0 <= i < peers.len() ==> !(#[trigger] peers[i]).nan()) {
        assert forall|i: int| 0 <= i < all.len() implies !(#[trigger] all[i]).nan() by {
            if i < peers.len() {
                assert(all[i] == peers[i]);
            }
        }
    }
}

} // verus!

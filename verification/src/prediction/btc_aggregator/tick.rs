//! Order books as they come from the exchanges.

use vstd::prelude::*;
use crate::decimal;
use crate::decimal::{add_decimals, multiply_decimals, Dec};
use crate::double::Double;

verus! {

/// The exchanges whose books are followed.
#[derive(Clone, Copy, Debug, PartialEq, Eq, Hash, Structural)]
pub enum Exchange {
    Binance,
    Coinbase,
    Kraken,
    Bitstamp,
}

impl Exchange {
    /// The name of the exchange in small letters.
    pub open spec fn label_spec(self) -> Seq<char> {
        match self {
            Exchange::Binance => "binance"@,
            Exchange::Coinbase => "coinbase"@,
            Exchange::Kraken => "kraken"@,
            Exchange::Bitstamp => "bitstamp"@,
        }
    }

    /// The name of the exchange in small letters.
    pub fn label(self) -> (r: &'static str)
        ensures
            r@ == self.label_spec(),
    {
        match self {
            Exchange::Binance => "binance",
            Exchange::Coinbase => "coinbase",
            Exchange::Kraken => "kraken",
            Exchange::Bitstamp => "bitstamp",
        }
    }

    /// How much the exchange counts in an average: 1.0, 0.9, 0.85 or 0.75.
    pub open spec fn trust(self) -> Double {
        match self {
            Exchange::Binance => Double { bits: 0x3ff0_0000_0000_0000 },
            Exchange::Coinbase => Double { bits: 0x3fec_cccc_cccc_cccd },
            Exchange::Kraken => Double { bits: 0x3feb_3333_3333_3333 },
            Exchange::Bitstamp => Double { bits: 0x3fe8_0000_0000_0000 },
        }
    }

    /// How much the exchange counts in an average.
    pub fn trust_weight(self) -> (r: Double)
        ensures
            r == self.trust(),
    {
        match self {
            Exchange::Binance => Double { bits: 0x3ff0_0000_0000_0000 },
            Exchange::Coinbase => Double { bits: 0x3fec_cccc_cccc_cccd },
            Exchange::Kraken => Double { bits: 0x3feb_3333_3333_3333 },
            Exchange::Bitstamp => Double { bits: 0x3fe8_0000_0000_0000 },
        }
    }
}

/// A value for each exchange that has one.
#[derive(Clone, Copy, Debug, PartialEq, Eq)]
pub struct ExchangeTable<T: Copy> {
    pub binance: Option<T>,
    pub coinbase: Option<T>,
    pub kraken: Option<T>,
    pub bitstamp: Option<T>,
}

impl<T: Copy> ExchangeTable<T> {
    /// The value of an exchange.
    pub open spec fn at(self, exchange: Exchange) -> Option<T> {
        match exchange {
            Exchange::Binance => self.binance,
            Exchange::Coinbase => self.coinbase,
            Exchange::Kraken => self.kraken,
            Exchange::Bitstamp => self.bitstamp,
        }
    }

    /// The table with the value of one exchange replaced.
    pub open spec fn with(self, exchange: Exchange, value: T) -> ExchangeTable<T> {
        match exchange {
            Exchange::Binance => ExchangeTable { binance: Some(value), ..self },
            Exchange::Coinbase => ExchangeTable { coinbase: Some(value), ..self },
            Exchange::Kraken => ExchangeTable { kraken: Some(value), ..self },
            Exchange::Bitstamp => ExchangeTable { bitstamp: Some(value), ..self },
        }
    }

    /// The table without any value.
    pub open spec fn none() -> ExchangeTable<T> {
        ExchangeTable { binance: None, coinbase: None, kraken: None, bitstamp: None }
    }

    /// A table without any value.
    pub fn new() -> (r: Self)
        ensures
            r == ExchangeTable::<T>::none(),
    {
        ExchangeTable { binance: None, coinbase: None, kraken: None, bitstamp: None }
    }

    /// The value of an exchange.
    pub fn get(&self, exchange: Exchange) -> (r: Option<T>)
        ensures
            r == self.at(exchange),
    {
        match exchange {
            Exchange::Binance => self.binance,
            Exchange::Coinbase => self.coinbase,
            Exchange::Kraken => self.kraken,
            Exchange::Bitstamp => self.bitstamp,
        }
    }

    /// Sets the value of an exchange.
    pub fn set(&mut self, exchange: Exchange, value: T)
        ensures
            *final(self) == old(self).with(exchange, value),
    {
        match exchange {
            Exchange::Binance => {
                self.binance = Some(value);
            },
            Exchange::Coinbase => {
                self.coinbase = Some(value);
            },
            Exchange::Kraken => {
                self.kraken = Some(value);
            },
            Exchange::Bitstamp => {
                self.bitstamp = Some(value);
            },
        }
    }
}

/// Setting the value of one exchange changes no other.
pub proof fn law_exchanges_are_independent<T: Copy>(
    table: ExchangeTable<T>,
    exchange: Exchange,
    value: T,
    other: Exchange,
)
    ensures
        table.with(exchange, value).at(exchange) == Some(value),
        other != exchange ==> table.with(exchange, value).at(other) == table.at(other),
{
}

/// One level of an order book.
#[derive(Clone, Copy, Debug, PartialEq, Eq, Structural)]
pub struct Level {
    pub price: Dec,
    pub amount: Dec,
}

impl Level {
    /// The price and the amount are within their limits.
    pub open spec fn wf(self) -> bool {
        self.price.wf() && self.amount.wf()
    }

    /// Price times amount.
    pub fn notional(&self) -> (r: Dec)
        requires
            self.wf(),
            decimal::decimal_product(self.price, self.amount) is Some,
        ensures
            decimal::decimal_product(self.price, self.amount) == Some(r),
    {
        match multiply_decimals(self.price, self.amount) {
            Some(d) => d,
            None => self.price,
        }
    }

    /// Price times amount; nothing where that is more than an amount can be.
    pub fn checked_notional(&self) -> (r: Option<Dec>)
        requires
            self.wf(),
        ensures
            r == decimal::decimal_product(self.price, self.amount),
    {
        if multiply_decimals(self.price, self.amount).is_some() {
            Some(self.notional())
        } else {
            None
        }
    }
}

/// The amounts of the first `n` levels, added up from the first; nothing where a sum leaves
/// the range of amounts.
pub open spec fn amounts_total(levels: Seq<Level>, n: nat) -> Option<Dec>
    decreases n,
{
    if n == 0 {
        Some(Dec::zero_spec())
    } else {
        match amounts_total(levels, (n - 1) as nat) {
            Some(sum) => decimal::decimal_sum(sum, levels[n - 1].amount),
            None => None,
        }
    }
}

/// The depth of one side of a book.
pub open spec fn depth(levels: Seq<Level>) -> Option<Dec> {
    amounts_total(levels, levels.len())
}

/// Whether every level of a side is within its limits.
pub open spec fn levels_wf(levels: Seq<Level>) -> bool {
    forall|i: int| 0 <= i < levels.len() ==> (#[trigger] levels[i]).wf()
}

/// Once a sum has left the range of amounts, no later one is back in it.
proof fn lemma_total_stays_none(levels: Seq<Level>, m: nat, n: nat)
    requires
        m <= n,
        amounts_total(levels, m) is None,
    ensures
        amounts_total(levels, n) is None,
    decreases n,
{
    if m < n {
        lemma_total_stays_none(levels, m, (n - 1) as nat);
    }
}

/// Adds up the amounts of one side of a book.
pub fn total_amount(levels: &Vec<Level>) -> (r: Option<Dec>)
    requires
        levels_wf(levels@),
    ensures
        r == depth(levels@),
        r is Some ==> r->0.wf(),
{
    let mut sum = Dec { mantissa: 0, scale: 0 };
    let mut i: usize = 0;
    while i < levels.len()
        invariant
            i <= levels.len(),
            levels_wf(levels@),
            sum.wf(),
            amounts_total(levels@, i as nat) == Some(sum),
        decreases levels.len() - i,
    {
        assert(levels@[i as int].wf());
        match add_decimals(sum, levels[i].amount) {
            Some(next) => {
                sum = next;
            },
            None => {
                proof {
                    lemma_total_stays_none(levels@, (i + 1) as nat, levels@.len());
                }
                return None;
            },
        }
        i = i + 1;
    }
    Some(sum)
}

/// The top of one exchange's order book.
#[derive(Debug)]
pub struct ExchangeTick {
    pub exchange: Exchange,
    /// When it was received, in milliseconds.
    pub received_ms: u64,
    /// The bids, best first.
    pub bids: Vec<Level>,
    /// The asks, best first.
    pub asks: Vec<Level>,
}

impl ExchangeTick {
    /// Every level is within its limits.
    pub open spec fn wf(self) -> bool {
        levels_wf(self.bids@) && levels_wf(self.asks@)
    }

    /// The price of the first bid.
    pub fn best_bid(&self) -> (r: Option<Dec>)
        ensures
            r == (if self.bids@.len() == 0 { None } else { Some(self.bids@[0].price) }),
    {
        if self.bids.len() == 0 {
            None
        } else {
            Some(self.bids[0].price)
        }
    }

    /// The price of the first ask.
    pub fn best_ask(&self) -> (r: Option<Dec>)
        ensures
            r == (if self.asks@.len() == 0 { None } else { Some(self.asks@[0].price) }),
    {
        if self.asks.len() == 0 {
            None
        } else {
            Some(self.asks[0].price)
        }
    }

    /// The depth of the bids.
    pub fn total_bid_size(&self) -> (r: Dec)
        requires
            self.wf(),
            depth(self.bids@) is Some,
        ensures
            depth(self.bids@) == Some(r),
    {
        match total_amount(&self.bids) {
            Some(d) => d,
            None => Dec { mantissa: 0, scale: 0 },
        }
    }

    /// The depth of the asks.
    pub fn total_ask_size(&self) -> (r: Dec)
        requires
            self.wf(),
            depth(self.asks@) is Some,
        ensures
            depth(self.asks@) == Some(r),
    {
        match total_amount(&self.asks) {
            Some(d) => d,
            None => Dec { mantissa: 0, scale: 0 },
        }
    }

    /// The depths of both sides; nothing where either is more than an amount can be.
    pub fn checked_depths(&self) -> (r: Option<(Dec, Dec)>)
        requires
            self.wf(),
        ensures
            r is Some <==> depth(self.bids@) is Some && depth(self.asks@) is Some,
            r matches Some((bids, asks)) ==> depth(self.bids@) == Some(bids) && depth(self.asks@)
                == Some(asks),
    {
        if total_amount(&self.bids).is_some() && total_amount(&self.asks).is_some() {
            Some((self.total_bid_size(), self.total_ask_size()))
        } else {
            None
        }
    }

    /// Both depths, added up.
    pub open spec fn volume(self) -> Option<Dec> {
        match (depth(self.bids@), depth(self.asks@)) {
            (Some(bids), Some(asks)) => decimal::decimal_sum(bids, asks),
            _ => None,
        }
    }

    /// Both depths, added up; nothing where that is more than an amount can be.
    pub fn checked_volume(&self) -> (r: Option<Dec>)
        requires
            self.wf(),
        ensures
            r == self.volume(),
            r is Some ==> r->0.wf(),
    {
        match (total_amount(&self.bids), total_amount(&self.asks)) {
            (Some(bids), Some(asks)) => add_decimals(bids, asks),
            _ => None,
        }
    }
}

/// The depth of a side counts every level: it is zero for an empty side, and a further level adds
/// its amount. The volume is the sum of both depths.
pub proof fn law_depth_counts_every_level(levels: Seq<Level>, level: Level)
    ensures
        depth(Seq::empty()) == Some(Dec { mantissa: 0, scale: 0 }),
        depth(levels) is Some ==> depth(levels.push(level)) == decimal::decimal_sum(
            depth(levels)->0,
            level.amount,
        ),
        depth(levels) is None ==> depth(levels.push(level)) is None,
{
    lemma_total_of_beginning(levels, levels.push(level), levels.len());
}

/// The total of the first levels of a side is not changed by those behind them.
proof fn lemma_total_of_beginning(a: Seq<Level>, b: Seq<Level>, n: nat)
    requires
        n <= a.len(),
        n <= b.len(),
        forall|i: int| 0 <= i < n ==> #[trigger] a[i] == b[i],
    ensures
        amounts_total(a, n) == amounts_total(b, n),
    decreases n,
{
    if n > 0 {
        lemma_total_of_beginning(a, b, (n - 1) as nat);
        assert(a[n - 1] == b[n - 1]);
    }
}

/// The volume of a tick is the depth of its bids and that of its asks.
pub proof fn law_volume_is_of_both_sides(t: ExchangeTick)
    ensures
        t.volume() is Some ==> depth(t.bids@) is Some && depth(t.asks@) is Some,
        depth(t.bids@) is Some && depth(t.asks@) is Some ==> t.volume() == decimal::decimal_sum(
            depth(t.bids@)->0,
            depth(t.asks@)->0,
        ),
{
}

/// The trust in the exchanges falls from the first to the last: 1.0, 0.9, 0.85 and 0.75. Each
/// exchange is called by its own name.
pub proof fn law_trust_falls(a: Exchange, b: Exchange)
    ensures
        Exchange::Binance.trust().bits == 0x3ff0_0000_0000_0000,
        Exchange::Coinbase.trust().bits == 0x3fec_cccc_cccc_cccd,
        Exchange::Kraken.trust().bits == 0x3feb_3333_3333_3333,
        Exchange::Bitstamp.trust().bits == 0x3fe8_0000_0000_0000,
        Exchange::Binance.label_spec() == "binance"@,
        Exchange::Coinbase.label_spec() == "coinbase"@,
        Exchange::Kraken.label_spec() == "kraken"@,
        Exchange::Bitstamp.label_spec() == "bitstamp"@,
        Exchange::Coinbase.trust().below(Exchange::Binance.trust()),
        Exchange::Kraken.trust().below(Exchange::Coinbase.trust()),
        Exchange::Bitstamp.trust().below(Exchange::Kraken.trust()),
        a.trust() == b.trust() ==> a == b,
{
}

} // verus!

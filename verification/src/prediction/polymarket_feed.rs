//! The feed of the two tokens of a market: what becomes of a book, what is known of each token
//! in its window, and what is left to write down when the window ends.

use vstd::prelude::*;
use crate::decimal;
use crate::decimal::Dec;
use crate::double::Double;
use crate::prediction::asset_table::AssetTable;
use crate::prediction::features::TokenFeatures;
use crate::prediction::samples::OrderbookSample;
use crate::prediction::storage;
use crate::prediction::storage::{minus_or_zero, RollingWindow, Timestamped};
use crate::prediction::token_book::OrderbookState;
use crate::prediction::window_state::{TokenReading, WindowState};
use crate::text::{print_number, same_text};

verus! {

/// The length of a market's window in seconds.
pub const MARKET_SECS: u64 = 300;

/// How long a token's books are kept, in milliseconds.
pub const BOOKS_MS: u64 = 300_000;

/// The volume-weighted mean prices of a token, how far the price is from each, and the
/// imbalance of its book.
#[derive(Clone, Copy, Debug, PartialEq, Eq, Structural)]
pub struct TokenState {
    pub vwap: Double,
    pub vwap_asks: Double,
    pub vwap_cum: Double,
    pub vwap_asks_cum: Double,
    pub vwap_dev: Double,
    pub vwap_asks_dev: Double,
    pub vwap_cum_dev: Double,
    pub vwap_asks_cum_dev: Double,
    pub orderbook_imbalance: Double,
    pub last_price: Double,
}

/// The sums that the means over the whole window are made of.
#[derive(Clone, Copy, Debug, PartialEq, Eq, Structural)]
pub struct VwapSums {
    pub mid_cum_pv: Double,
    pub mid_cum_qty: Double,
    pub asks_cum_pv: Double,
    pub asks_cum_qty: Double,
}

impl VwapSums {
    /// Nothing added up yet.
    pub open spec fn blank() -> VwapSums {
        let z = Double::zero_spec();
        VwapSums { mid_cum_pv: z, mid_cum_qty: z, asks_cum_pv: z, asks_cum_qty: z }
    }
}

impl Default for VwapSums {
    fn default() -> (r: Self)
        ensures
            r == VwapSums::blank(),
    {
        let z = Double::zero();
        VwapSums { mid_cum_pv: z, mid_cum_qty: z, asks_cum_pv: z, asks_cum_qty: z }
    }
}

/// A value for each of the four means.
#[derive(Clone, Copy, Debug, PartialEq, Eq, Structural)]
pub struct Vwaps {
    pub book: Double,
    pub asks: Double,
    pub book_cum: Double,
    pub asks_cum: Double,
}

/// The quotients that the means are made of, with their divisors.
#[derive(Clone, Copy, Debug, PartialEq, Eq, Structural)]
pub struct VwapReading {
    pub best_ask: Double,
    /// Both depths of the book, added up.
    pub total_depth: Double,
    /// The sizes of the asks, added up.
    pub ladder_size: Double,
    pub sums: VwapSums,
    pub quotients: Vwaps,
}

/// The means. One without a divisor above zero is the best ask, or, over the whole window, that
/// of the current book.
pub open spec fn vwaps_spec(q: VwapReading) -> Vwaps {
    let zero = Double::zero_spec();
    let book = if zero.below(q.total_depth) { q.quotients.book } else { q.best_ask };
    let asks = if zero.below(q.ladder_size) { q.quotients.asks } else { q.best_ask };
    Vwaps {
        book,
        asks,
        book_cum: if zero.below(q.sums.mid_cum_qty) { q.quotients.book_cum } else { book },
        asks_cum: if zero.below(q.sums.asks_cum_qty) { q.quotients.asks_cum } else { asks },
    }
}

/// The means.
pub fn vwaps(q: &VwapReading) -> (r: Vwaps)
    ensures
        r == vwaps_spec(*q),
{
    let zero = Double::zero();
    let book = if zero.lt(q.total_depth) {
        q.quotients.book
    } else {
        q.best_ask
    };
    let asks = if zero.lt(q.ladder_size) {
        q.quotients.asks
    } else {
        q.best_ask
    };
    Vwaps {
        book,
        asks,
        book_cum: if zero.lt(q.sums.mid_cum_qty) {
            q.quotients.book_cum
        } else {
            book
        },
        asks_cum: if zero.lt(q.sums.asks_cum_qty) {
            q.quotients.asks_cum
        } else {
            asks
        },
    }
}

/// Whether a number is zero, of either sign.
pub open spec fn is_zero(d: Double) -> bool {
    !d.nan() && d.rank() == 0
}

/// Whether a number is zero, of either sign.
fn zero_check(d: Double) -> (r: bool)
    ensures
        r == is_zero(d),
{
    d.le(Double::zero()) && Double::zero().le(d)
}

/// A deviation; zero from a mean that is zero.
pub open spec fn deviation(mean: Double, quotient: Double) -> Double {
    if is_zero(mean) { Double::zero_spec() } else { quotient }
}

/// A deviation; zero from a mean that is zero.
fn deviation_of(mean: Double, quotient: Double) -> (r: Double)
    ensures
        r == deviation(mean, quotient),
{
    if zero_check(mean) {
        Double::zero()
    } else {
        quotient
    }
}

/// The state of a token, from its means ([`vwaps`]), the deviations from them, and the
/// imbalance, which is zero in a book without depth.
pub open spec fn token_state_spec(q: VwapReading, deviations: Vwaps, imbalance: Double) -> TokenState {
    let v = vwaps_spec(q);
    TokenState {
        vwap: v.book,
        vwap_asks: v.asks,
        vwap_cum: v.book_cum,
        vwap_asks_cum: v.asks_cum,
        vwap_dev: deviation(v.book, deviations.book),
        vwap_asks_dev: deviation(v.asks, deviations.asks),
        vwap_cum_dev: deviation(v.book_cum, deviations.book_cum),
        vwap_asks_cum_dev: deviation(v.asks_cum, deviations.asks_cum),
        orderbook_imbalance: if Double::zero_spec().below(q.total_depth) {
            imbalance
        } else {
            Double::zero_spec()
        },
        last_price: q.best_ask,
    }
}

/// The state of a token.
pub fn compute_token_state(q: &VwapReading, deviations: &Vwaps, imbalance: Double) -> (r: TokenState)
    ensures
        r == token_state_spec(*q, *deviations, imbalance),
{
    let v = vwaps(q);
    TokenState {
        vwap: v.book,
        vwap_asks: v.asks,
        vwap_cum: v.book_cum,
        vwap_asks_cum: v.asks_cum,
        vwap_dev: deviation_of(v.book, deviations.book),
        vwap_asks_dev: deviation_of(v.asks, deviations.asks),
        vwap_cum_dev: deviation_of(v.book_cum, deviations.book_cum),
        vwap_asks_cum_dev: deviation_of(v.asks_cum, deviations.asks_cum),
        orderbook_imbalance: if Double::zero().lt(q.total_depth) {
            imbalance
        } else {
            Double::zero()
        },
        last_price: q.best_ask,
    }
}

/// What the price of bitcoin has done in the window, as the up token's log keeps it.
#[derive(Debug)]
pub struct BtcState {
    pub return_pct: Double,
    pub acceleration: Double,
    pub efficiency_ratio: Double,
    pub volatility: Double,
    pub near_high_low: Double,
    pub rolling_high: Double,
    pub rolling_low: Double,
    pub path_length: Double,
    pub net_displacement: Double,
    pub prev_return_pct: Double,
    pub last_price: Double,
    pub price_history: Vec<Double>,
}

/// The mathematical value of a [`BtcState`].
#[verifier::ext_equal]
pub struct BtcStateView {
    pub return_pct: Double,
    pub acceleration: Double,
    pub efficiency_ratio: Double,
    pub volatility: Double,
    pub near_high_low: Double,
    pub rolling_high: Double,
    pub rolling_low: Double,
    pub path_length: Double,
    pub net_displacement: Double,
    pub prev_return_pct: Double,
    pub last_price: Double,
    pub price_history: Seq<Double>,
}

/// The measurements of a price of bitcoin.
#[derive(Clone, Copy, Debug, PartialEq, Eq, Structural)]
pub struct BtcStep {
    /// The price less the origin.
    pub net_displacement: Double,
    /// That, as a part of the origin.
    pub return_pct: Double,
    /// The return less the one before.
    pub acceleration: Double,
    /// The path with the size of the change since the last price.
    pub path_length: Double,
    /// The size of the displacement, divided by the path.
    pub efficiency: Double,
    /// Where the price is between the low and the high ([`BtcState::bounds`]).
    pub position: Double,
    /// The volatility of all prices, with this one.
    pub volatility: Double,
}

impl View for BtcState {
    type V = BtcStateView;

    open spec fn view(&self) -> BtcStateView {
        BtcStateView {
            return_pct: self.return_pct,
            acceleration: self.acceleration,
            efficiency_ratio: self.efficiency_ratio,
            volatility: self.volatility,
            near_high_low: self.near_high_low,
            rolling_high: self.rolling_high,
            rolling_low: self.rolling_low,
            path_length: self.path_length,
            net_displacement: self.net_displacement,
            prev_return_pct: self.prev_return_pct,
            last_price: self.last_price,
            price_history: self.price_history@,
        }
    }
}

impl BtcStateView {
    /// The state before the first price.
    pub open spec fn blank() -> BtcStateView {
        let z = Double::zero_spec();
        BtcStateView {
            return_pct: z,
            acceleration: z,
            efficiency_ratio: z,
            volatility: z,
            near_high_low: z,
            rolling_high: z,
            rolling_low: z,
            path_length: z,
            net_displacement: z,
            prev_return_pct: z,
            last_price: z,
            price_history: Seq::empty(),
        }
    }

    /// The high and the low with a price. A bound of zero is none yet.
    pub open spec fn bounds(self, price: Double) -> (Double, Double) {
        (
            if is_zero(self.rolling_high) { price } else { self.rolling_high.larger(price) },
            if is_zero(self.rolling_low) { price } else { self.rolling_low.smaller(price) },
        )
    }

    /// The state after a price. Without a fixed origin only the price is noted.
    pub open spec fn after(self, price: Double, origin: Dec, locked: bool, q: BtcStep) -> BtcStateView {
        let noted = BtcStateView {
            last_price: price,
            price_history: self.price_history.push(price),
            ..self
        };
        if !locked || origin.mantissa == 0 {
            noted
        } else {
            let (high, low) = self.bounds(price);
            BtcStateView {
                return_pct: q.return_pct,
                acceleration: q.acceleration,
                efficiency_ratio: if Double::zero_spec().below(q.path_length) {
                    q.efficiency
                } else {
                    Double::zero_spec()
                },
                volatility: q.volatility,
                near_high_low: if low.below(high) {
                    q.position
                } else {
                    Double { bits: 0x3fe0_0000_0000_0000 }
                },
                rolling_high: high,
                rolling_low: low,
                path_length: q.path_length,
                net_displacement: q.net_displacement,
                prev_return_pct: q.return_pct,
                ..noted
            }
        }
    }
}

impl BtcState {
    /// The high and the low with a price.
    pub fn bounds(&self, price: Double) -> (r: (Double, Double))
        ensures
            r == self@.bounds(price),
    {
        let high = if zero_check(self.rolling_high) {
            price
        } else {
            self.rolling_high.max(price)
        };
        let low = if zero_check(self.rolling_low) {
            price
        } else {
            self.rolling_low.min(price)
        };
        (high, low)
    }

    /// Takes in a price.
    pub fn advance(&mut self, price: Double, origin: Dec, locked: bool, q: &BtcStep)
        ensures
            final(self)@ == old(self)@.after(price, origin, locked, *q),
    {
        if locked && origin.mantissa != 0 {
            let (high, low) = self.bounds(price);
            self.return_pct = q.return_pct;
            self.acceleration = q.acceleration;
            self.efficiency_ratio = if Double::zero().lt(q.path_length) {
                q.efficiency
            } else {
                Double::zero()
            };
            self.volatility = q.volatility;
            self.near_high_low = if low.lt(high) {
                q.position
            } else {
                Double { bits: 0x3fe0_0000_0000_0000 }
            };
            self.rolling_high = high;
            self.rolling_low = low;
            self.path_length = q.path_length;
            self.net_displacement = q.net_displacement;
            self.prev_return_pct = q.return_pct;
        }
        self.last_price = price;
        self.price_history.push(price);
    }
}

impl Default for BtcState {
    fn default() -> (r: Self)
        ensures
            r@ == BtcStateView::blank(),
    {
        let z = Double::zero();
        BtcState {
            return_pct: z,
            acceleration: z,
            efficiency_ratio: z,
            volatility: z,
            near_high_low: z,
            rolling_high: z,
            rolling_low: z,
            path_length: z,
            net_displacement: z,
            prev_return_pct: z,
            last_price: z,
            price_history: Vec::new(),
        }
    }
}

/// A line of a token's log.
#[derive(Clone, Copy, Debug, PartialEq, Eq, Structural)]
pub struct TokenLine {
    pub price: Double,
    pub vwap_asks: Double,
    pub imbalance: Double,
}

/// A line of the log on bitcoin.
#[derive(Clone, Copy, Debug, PartialEq, Eq, Structural)]
pub struct BtcLine {
    pub price: Double,
    pub efficiency_ratio: Double,
    pub volatility: Double,
    pub near_high_low: Double,
    pub origin_price: Double,
}

/// Everything on one token in one window. Only the up token has lines on bitcoin.
pub struct TokenWindow {
    pub window_ts: u64,
    pub expires_at_sec: u64,
    pub window: RollingWindow<OrderbookSample>,
    pub accum: VwapSums,
    pub token_log: Vec<TokenLine>,
    pub btc_log: Vec<BtcLine>,
}

/// The mathematical value of a sample of a book.
pub struct SampleView {
    pub timestamp_ms: u64,
    pub asset_id: Seq<char>,
    pub best_bid: Dec,
    pub best_ask: Dec,
    pub last_trade_price: Dec,
    pub bid_depth: Dec,
    pub ask_depth: Dec,
}

/// What a sample says.
pub open spec fn sample_view(s: OrderbookSample) -> SampleView {
    SampleView {
        timestamp_ms: s.timestamp_ms,
        asset_id: s.asset_id@,
        best_bid: s.best_bid,
        best_ask: s.best_ask,
        last_trade_price: s.last_trade_price,
        bid_depth: s.bid_depth,
        ask_depth: s.ask_depth,
    }
}

/// The sample that is made of a book. The books carry no trade, so its price is zero.
pub open spec fn sample_of(asset_id: Seq<char>, book: OrderbookState) -> SampleView {
    SampleView {
        timestamp_ms: book.timestamp_ms,
        asset_id,
        best_bid: book.best_bid,
        best_ask: book.best_ask,
        last_trade_price: Dec::zero_spec(),
        bid_depth: book.bid_depth,
        ask_depth: book.ask_depth,
    }
}

impl TokenWindow {
    /// Whether this is the window before its first book.
    pub open spec fn is_new(self, expires_at_sec: u64) -> bool {
        &&& self.window_ts == storage::minus(expires_at_sec, MARKET_SECS)
        &&& self.expires_at_sec == expires_at_sec
        &&& self.window@.len() == 0
        &&& self.window.retention_spec() == BOOKS_MS
        &&& self.accum == VwapSums::blank()
        &&& self.token_log@.len() == 0
        &&& self.btc_log@.len() == 0
    }

    /// Whether this is the window after a book. Its sample comes last, and those that are too
    /// old by its time are gone.
    pub open spec fn follows(
        self,
        before: TokenWindow,
        sample: SampleView,
        sums: VwapSums,
        line: TokenLine,
        btc_line: Option<BtcLine>,
    ) -> bool {
        &&& self.window_ts == before.window_ts
        &&& self.expires_at_sec == before.expires_at_sec
        &&& self.window.retention_spec() == before.window.retention_spec()
        &&& exists|s: OrderbookSample|
            sample_view(s) == sample && self.window@ == #[trigger] storage::pruned(
                before.window@.push(s),
                storage::minus(s.timestamp_ms, before.window.retention_spec()),
            )
        &&& self.accum == sums
        &&& self.token_log@ == before.token_log@.push(line)
        &&& self.btc_log@ == match btc_line {
            Some(l) => before.btc_log@.push(l),
            None => before.btc_log@,
        }
    }

    /// The window before its first book.
    fn new(expires_at_sec: u64) -> (r: Self)
        ensures
            r.is_new(expires_at_sec),
    {
        TokenWindow {
            window_ts: minus_or_zero(expires_at_sec, MARKET_SECS),
            expires_at_sec,
            window: RollingWindow::new(BOOKS_MS),
            accum: VwapSums::default(),
            token_log: Vec::new(),
            btc_log: Vec::new(),
        }
    }

    /// Whether every sample's amounts are amounts.
    pub open spec fn wf(self) -> bool {
        forall|i: int|
            0 <= i < self.window@.len() ==> (#[trigger] self.window@[i]).best_bid.wf()
                && self.window@[i].best_ask.wf()
    }
}

/// What has to be computed before a book is published.
#[derive(Clone, Copy, Debug, PartialEq, Eq, Structural)]
pub struct PublishReading {
    /// The measurements of the token's price against its origin.
    pub token: TokenReading,
    /// What the means are made of, with the sums ([`TokenFeed::sums`]) that the book leaves.
    pub means: VwapReading,
    /// The deviations of the price from the means ([`vwaps`]).
    pub deviations: Vwaps,
    /// The difference of the book's depths over their sum.
    pub imbalance: Double,
    /// The last price of bitcoin and its origin, as doubles.
    pub btc_price: Double,
    pub origin_price: Double,
    /// The measurements of the last price of bitcoin.
    pub btc: BtcStep,
}

impl PublishReading {
    /// The state of the token with the book.
    pub open spec fn state(self) -> TokenState {
        token_state_spec(self.means, self.deviations, self.imbalance)
    }
}

/// Everything that the feed keeps, by token.
pub struct TokenFeed {
    pub windows: AssetTable<TokenWindow>,
    pub latest_orderbooks: AssetTable<OrderbookState>,
    pub token_states: AssetTable<TokenState>,
    pub btc_state: BtcState,
}

/// The state of the window after a token's price.
pub open spec fn state_after(
    ws: WindowState,
    is_up: bool,
    is_down: bool,
    price: Dec,
    timestamp_ms: u64,
    reading: TokenReading,
) -> WindowState {
    WindowState {
        up: if is_up { ws.up.after(price, timestamp_ms, reading) } else { ws.up },
        down: if is_down { ws.down.after(price, timestamp_ms, reading) } else { ws.down },
        ..ws
    }
}

/// Whether a token's window is the one that it had, or else a new one, after a book.
pub open spec fn continues(
    w: TokenWindow,
    before: Map<Seq<char>, TokenWindow>,
    asset_id: Seq<char>,
    expires_at_sec: u64,
    sample: SampleView,
    sums: VwapSums,
    line: TokenLine,
    btc_line: Option<BtcLine>,
) -> bool {
    exists|start: TokenWindow|
        (if before.contains_key(asset_id) {
            start == before[asset_id]
        } else {
            start.is_new(expires_at_sec)
        }) && #[trigger] w.follows(start, sample, sums, line, btc_line)
}

/// The line on a token in a state.
pub open spec fn token_line_of(state: TokenState) -> TokenLine {
    TokenLine {
        price: state.last_price,
        vwap_asks: state.vwap_asks,
        imbalance: state.orderbook_imbalance,
    }
}

/// The line on bitcoin, where there is one to write.
pub open spec fn btc_line_of(on_btc: bool, btc: BtcStateView, q: PublishReading) -> Option<BtcLine> {
    if on_btc {
        Some(
            BtcLine {
                price: q.btc_price,
                efficiency_ratio: btc.efficiency_ratio,
                volatility: btc.volatility,
                near_high_low: btc.near_high_low,
                origin_price: q.origin_price,
            },
        )
    } else {
        None
    }
}

/// The quotients that the features of a token are made of.
#[derive(Clone, Copy, Debug, PartialEq, Eq, Structural)]
pub struct TokenQuotients {
    /// The spread as a share of the price.
    pub spread_pct: Double,
    /// Both depths of the book, added up.
    pub total_depth: Double,
    pub imbalance: Double,
    pub avg_distance: Double,
}

impl TokenFeed {
    /// The tables are in order, and all amounts are amounts.
    pub open spec fn wf(self) -> bool {
        &&& self.windows.wf()
        &&& self.latest_orderbooks.wf()
        &&& self.token_states.wf()
        &&& forall|k: Seq<char>| #[trigger]
            self.latest_orderbooks@.contains_key(k) ==> self.latest_orderbooks@[k].wf()
        &&& forall|k: Seq<char>| #[trigger]
            self.windows@.contains_key(k) ==> self.windows@[k].wf()
    }

    /// A feed that knows nothing.
    pub fn new() -> (r: Self)
        ensures
            r.wf(),
            r.windows@ == Map::<Seq<char>, TokenWindow>::empty(),
            r.latest_orderbooks@ == Map::<Seq<char>, OrderbookState>::empty(),
            r.token_states@ == Map::<Seq<char>, TokenState>::empty(),
            r.btc_state@ == BtcStateView::blank(),
    {
        TokenFeed {
            windows: AssetTable::new(),
            latest_orderbooks: AssetTable::new(),
            token_states: AssetTable::new(),
            btc_state: BtcState::default(),
        }
    }

    /// Keeps a token's book, in place of the one before.
    pub fn store_book(&mut self, asset_id: &str, book: OrderbookState)
        requires
            old(self).wf(),
            book.wf(),
        ensures
            final(self).wf(),
            final(self).latest_orderbooks@ == old(self).latest_orderbooks@.insert(asset_id@, book),
            final(self).windows@ == old(self).windows@,
            final(self).token_states@ == old(self).token_states@,
            final(self).btc_state@ == old(self).btc_state@,
    {
        self.latest_orderbooks.insert(asset_id, book);
    }

    /// The sums of a token's window so far.
    pub fn sums(&self, asset_id: &str) -> (r: VwapSums)
        requires
            self.wf(),
        ensures
            r == (if self.windows@.contains_key(asset_id@) {
                self.windows@[asset_id@].accum
            } else {
                VwapSums::blank()
            }),
    {
        match self.windows.get(asset_id) {
            Some(w) => w.accum,
            None => VwapSums::default(),
        }
    }

    /// Whether a book of this token is published: there is one, with an ask, and the token is
    /// one of the market's two.
    pub open spec fn publishes(self, asset_id: Seq<char>, up_id: Seq<char>, down_id: Seq<char>) -> bool {
        &&& self.latest_orderbooks@.contains_key(asset_id)
        &&& self.latest_orderbooks@[asset_id].best_ask.mantissa != 0
        &&& asset_id == up_id || asset_id == down_id
    }

    /// Whether this is the feed after the last book of a token was published.
    pub open spec fn published(
        self,
        before: TokenFeed,
        ws: WindowState,
        asset_id: Seq<char>,
        expires_at_sec: u64,
        up_id: Seq<char>,
        q: PublishReading,
    ) -> bool {
        let book = before.latest_orderbooks@[asset_id];
        let on_btc = asset_id == up_id && ws.btc_last_price.mantissa > 0;
        let btc = before.btc_state@.after(
            q.btc_price,
            ws.btc_origin_price,
            ws.btc_origin_locked,
            q.btc,
        );
        &&& self.latest_orderbooks@ == before.latest_orderbooks@
        &&& self.btc_state@ == (if on_btc { btc } else { before.btc_state@ })
        &&& self.token_states@ == (if on_btc {
            before.token_states@
        } else {
            before.token_states@.insert(asset_id, q.state())
        })
        &&& self.windows@.contains_key(asset_id)
        &&& self.windows@.remove(asset_id) == before.windows@.remove(asset_id)
        &&& continues(
            self.windows@[asset_id],
            before.windows@,
            asset_id,
            expires_at_sec,
            sample_of(asset_id, book),
            q.means.sums,
            token_line_of(q.state()),
            btc_line_of(on_btc, btc, q),
        )
    }

    /// Publishes the last book of a token. The up token's books carry the price of bitcoin
    /// along, where there is one; the state of the token is kept only without it.
    pub fn try_publish_sample(
        &mut self,
        ws: &mut WindowState,
        asset_id: &str,
        expires_at_sec: u64,
        up_id: &str,
        down_id: &str,
        q: &PublishReading,
    ) -> (r: bool)
        requires
            old(self).wf(),
        ensures
            final(self).wf(),
            r == old(self).publishes(asset_id@, up_id@, down_id@),
            !r ==> *final(self) == *old(self) && *final(ws) == *old(ws),
            r ==> {
                let book = old(self).latest_orderbooks@[asset_id@];
                *final(ws) == state_after(
                    *old(ws),
                    asset_id@ == up_id@,
                    asset_id@ == down_id@,
                    book.best_ask,
                    book.timestamp_ms,
                    q.token,
                )
            },
            r ==> final(self).published(
                *old(self),
                *final(ws),
                asset_id@,
                expires_at_sec,
                up_id@,
                *q,
            ),
    {
        let (sample, price, timestamp_ms) = match self.latest_orderbooks.get(asset_id) {
            None => return false,
            Some(book) => (
                OrderbookSample {
                    timestamp_ms: book.timestamp_ms,
                    asset_id: asset_id.to_owned(),
                    best_bid: book.best_bid,
                    best_ask: book.best_ask,
                    last_trade_price: Dec { mantissa: 0, scale: 0 },
                    bid_depth: book.bid_depth,
                    ask_depth: book.ask_depth,
                },
                book.best_ask,
                book.timestamp_ms,
            ),
        };
        if price.mantissa == 0 {
            return false;
        }
        let is_up = same_text(asset_id, up_id);
        let is_down = same_text(asset_id, down_id);
        if !is_up && !is_down {
            return false;
        }
        if is_up {
            ws.ingest_up(price, timestamp_ms, q.token);
        }
        if is_down {
            ws.ingest_down(price, timestamp_ms, q.token);
        }
        let ghost before = self.windows@;
        let mut window = match self.windows.remove(asset_id) {
            Some(w) => w,
            None => TokenWindow::new(expires_at_sec),
        };
        let ghost start = window;
        window.window.push(sample);
        proof {
            let all = start.window@.push(sample);
            let cutoff = storage::minus(sample.timestamp_ms, start.window.retention_spec());
            storage::law_pruned_is_a_suffix(all, cutoff);
            let n = all.len() - window.window@.len();
            assert forall|i: int| 0 <= i < window.window@.len() implies (
            #[trigger] window.window@[i]).best_bid.wf() && window.window@[i].best_ask.wf() by {
                assert(window.window@[i] == all[n + i]);
                if n + i < start.window@.len() {
                    assert(start.window@[n + i].best_bid.wf());
                }
            }
            assert(sample_view(sample) == sample_of(
                asset_id@,
                old(self).latest_orderbooks@[asset_id@],
            ));
            assert(window.window@ == storage::pruned(
                start.window@.push(sample),
                storage::minus(sample.timestamp_ms, start.window.retention_spec()),
            ));
        }
        let state = compute_token_state(&q.means, &q.deviations, q.imbalance);
        window.accum = q.means.sums;
        window.token_log.push(
            TokenLine {
                price: state.last_price,
                vwap_asks: state.vwap_asks,
                imbalance: state.orderbook_imbalance,
            },
        );
        if is_up && ws.btc_last_price.mantissa > 0 {
            self.btc_state.advance(q.btc_price, ws.btc_origin_price, ws.btc_origin_locked, &q.btc);
            window.btc_log.push(
                BtcLine {
                    price: q.btc_price,
                    efficiency_ratio: self.btc_state.efficiency_ratio,
                    volatility: self.btc_state.volatility,
                    near_high_low: self.btc_state.near_high_low,
                    origin_price: q.origin_price,
                },
            );
        } else {
            self.token_states.insert(asset_id, state);
        }
        let ghost end = window;
        self.windows.insert(asset_id, window);
        proof {
            assert(self.windows@.remove(asset_id@) =~= before.remove(asset_id@));
            let on_btc = is_up && ws.btc_last_price.mantissa > 0;
            let btc = old(self).btc_state@.after(
                q.btc_price,
                ws.btc_origin_price,
                ws.btc_origin_locked,
                q.btc,
            );
            let sample_v = sample_of(asset_id@, old(self).latest_orderbooks@[asset_id@]);
            let line = token_line_of(state);
            let btc_line = btc_line_of(on_btc, btc, *q);
            assert(end.follows(start, sample_v, q.means.sums, line, btc_line));
            assert(continues(
                end,
                before,
                asset_id@,
                expires_at_sec,
                sample_v,
                q.means.sums,
                line,
                btc_line,
            ));
            assert forall|k: Seq<char>| #[trigger] self.windows@.contains_key(k) implies self.windows@[k].wf() by {
                if k != asset_id@ {
                    assert(before.contains_key(k));
                    assert(self.windows@[k] == before[k]);
                }
            }
        }
        true
    }

    /// The features of a token: its last sample, with its distance from the origin. There are
    /// none before the first sample.
    pub open spec fn features_spec(
        self,
        ws: WindowState,
        asset_id: Seq<char>,
        is_up: bool,
        q: TokenQuotients,
    ) -> Option<TokenFeatures> {
        if !self.windows@.contains_key(asset_id) || self.windows@[asset_id].window@.len() == 0 {
            None
        } else {
            let s = self.windows@[asset_id].window@.last();
            let track = if is_up { ws.up } else { ws.down };
            Some(
                TokenFeatures {
                    current_price: s.best_ask,
                    origin_price: track.origin_price,
                    distance_from_origin_pct: track.distance_from_origin_pct,
                    area_under_curve: track.area,
                    avg_distance: q.avg_distance,
                    bid_depth: s.bid_depth,
                    ask_depth: s.ask_depth,
                    imbalance: if q.total_depth.at_most(Double::zero_spec()) {
                        Double::zero_spec()
                    } else {
                        q.imbalance
                    },
                    spread_pct: if s.best_ask.mantissa == 0 {
                        Double::zero_spec()
                    } else {
                        q.spread_pct
                    },
                },
            )
        }
    }

    /// The features of a token.
    pub fn token_features(&self, ws: &WindowState, asset_id: &str, is_up: bool, q: &TokenQuotients) -> (r:
        Option<TokenFeatures>)
        requires
            self.wf(),
        ensures
            r == self.features_spec(*ws, asset_id@, is_up, *q),
    {
        let latest = match self.latest_sample(asset_id) {
            Some(s) => s,
            None => return None,
        };
        let track = if is_up {
            ws.up
        } else {
            ws.down
        };
        let zero = Double::zero();
        Some(
            TokenFeatures {
                current_price: latest.best_ask,
                origin_price: track.origin_price,
                distance_from_origin_pct: track.distance_from_origin_pct,
                area_under_curve: track.area,
                avg_distance: q.avg_distance,
                bid_depth: latest.bid_depth,
                ask_depth: latest.ask_depth,
                imbalance: if q.total_depth.le(zero) {
                    zero
                } else {
                    q.imbalance
                },
                spread_pct: if latest.best_ask.mantissa == 0 {
                    zero
                } else {
                    q.spread_pct
                },
            },
        )
    }

    /// The last sample of a token.
    pub fn latest_sample(&self, asset_id: &str) -> (r: Option<&OrderbookSample>)
        requires
            self.wf(),
        ensures
            r is Some <==> self.windows@.contains_key(asset_id@)
                && self.windows@[asset_id@].window@.len() > 0,
            r is Some ==> r->0 == self.windows@[asset_id@].window@.last() && r->0.best_bid.wf()
                && r->0.best_ask.wf(),
    {
        match self.windows.get(asset_id) {
            Some(w) => {
                assert(self.windows@.contains_key(asset_id@));
                assert(w.wf());
                w.window.latest()
            },
            None => None,
        }
    }

    /// Forgets the two tokens of a market, and bitcoin; gives out what is to be written down.
    pub fn evict_market(&mut self, up_id: &str, down_id: &str) -> (r: Vec<WindowDump>)
        requires
            old(self).wf(),
        ensures
            final(self).wf(),
            final(self).windows@ == old(self).windows@.remove(up_id@).remove(down_id@),
            final(self).token_states@ == old(self).token_states@.remove(up_id@).remove(down_id@),
            final(self).latest_orderbooks@ == old(self).latest_orderbooks@.remove(up_id@).remove(
                down_id@,
            ),
            final(self).btc_state@ == BtcStateView::blank(),
            is_dumps(r@, old(self).windows@, up_id@, down_id@),
    {
        let mut dumps: Vec<WindowDump> = Vec::new();
        let ghost before = self.windows@;
        if let Some(w) = self.windows.remove(up_id) {
            dumps.push(
                WindowDump {
                    up: true,
                    window_ts: w.window_ts,
                    orderbook_samples: w.window,
                    token_log: w.token_log,
                    btc_log: w.btc_log,
                },
            );
        }
        if let Some(w) = self.windows.remove(down_id) {
            dumps.push(
                WindowDump {
                    up: false,
                    window_ts: w.window_ts,
                    orderbook_samples: w.window,
                    token_log: w.token_log,
                    btc_log: Vec::new(),
                },
            );
        }
        let _ = self.token_states.remove(up_id);
        let _ = self.token_states.remove(down_id);
        self.btc_state = BtcState::default();
        let _ = self.latest_orderbooks.remove(up_id);
        let _ = self.latest_orderbooks.remove(down_id);
        dumps
    }
}

/// What is to be written down on one token at the end of its window.
pub struct WindowDump {
    pub up: bool,
    pub window_ts: u64,
    pub orderbook_samples: RollingWindow<OrderbookSample>,
    pub token_log: Vec<TokenLine>,
    /// Empty for the down token.
    pub btc_log: Vec<BtcLine>,
}

impl WindowDump {
    /// Whether a dump holds what a window held.
    pub open spec fn is_of(self, up: bool, w: TokenWindow) -> bool {
        &&& self.up == up
        &&& self.window_ts == w.window_ts
        &&& self.orderbook_samples == w.window
        &&& self.token_log@ == w.token_log@
        &&& self.btc_log@ == (if up { w.btc_log@ } else { Seq::empty() })
    }
}

/// Whether the dumps are those of the two tokens, as far as they have a window: first the up
/// token, then the down token.
pub open spec fn is_dumps(
    dumps: Seq<WindowDump>,
    windows: Map<Seq<char>, TokenWindow>,
    up_id: Seq<char>,
    down_id: Seq<char>,
) -> bool {
    let up = windows.contains_key(up_id);
    let down = windows.contains_key(down_id) && down_id != up_id;
    &&& dumps.len() == (if up { 1int } else { 0 }) + (if down { 1int } else { 0 })
    &&& up ==> dumps[0].is_of(true, windows[up_id])
    &&& down ==> dumps[dumps.len() - 1].is_of(false, windows[down_id])
}

/// Whether a market's window is over.
pub fn market_expired(now_sec: u64, window_ts: u64) -> (r: bool)
    ensures
        r == (now_sec >= window_ts + MARKET_SECS),
        r == (now_sec - window_ts >= 300),
{
    now_sec >= MARKET_SECS && now_sec - MARKET_SECS >= window_ts
}

/// What goes into a file.
#[derive(Clone, Copy, Debug, PartialEq, Eq, Structural)]
pub enum DumpKind {
    Orderbook,
    TokenLog,
    BtcLog,
}

/// A file to write.
#[derive(Debug)]
pub struct DumpFile {
    pub kind: DumpKind,
    pub dir: String,
    pub name: String,
}

/// The mathematical value of a [`DumpFile`].
pub struct DumpFileView {
    pub kind: DumpKind,
    pub dir: Seq<char>,
    pub name: Seq<char>,
}

impl View for DumpFile {
    type V = DumpFileView;

    open spec fn view(&self) -> DumpFileView {
        DumpFileView { kind: self.kind, dir: self.dir@, name: self.name@ }
    }
}

/// The name of a token's side.
pub open spec fn side_name(up: bool) -> Seq<char> {
    if up { "up"@ } else { "down"@ }
}

/// The files that a dump is written to: only those that something goes into.
pub open spec fn dump_files_spec(dump: WindowDump) -> Seq<DumpFileView> {
    let ts = decimal::digits(dump.window_ts as nat);
    let stem = ts + "_"@ + side_name(dump.up);
    let orderbook = DumpFileView {
        kind: DumpKind::Orderbook,
        dir: "orderbook_dumps"@,
        name: stem + ".ndjson"@,
    };
    let token = DumpFileView {
        kind: DumpKind::TokenLog,
        dir: "logs_token_state"@,
        name: stem + ".log"@,
    };
    let btc = DumpFileView { kind: DumpKind::BtcLog, dir: "logs_btc_state"@, name: ts + ".log"@ };
    let a = if dump.orderbook_samples@.len() > 0 { seq![orderbook] } else { Seq::empty() };
    let b = if dump.token_log@.len() > 0 { a.push(token) } else { a };
    if dump.btc_log@.len() > 0 { b.push(btc) } else { b }
}

/// What a list of files says.
pub open spec fn file_views(files: Seq<DumpFile>) -> Seq<DumpFileView> {
    files.map_values(|f: DumpFile| f@)
}

/// The files that a dump is written to.
pub fn dump_files(dump: &WindowDump) -> (r: Vec<DumpFile>)
    ensures
        file_views(r@) == dump_files_spec(*dump),
{
    let ts = print_number(dump.window_ts);
    let side = if dump.up {
        "up"
    } else {
        "down"
    };
    let stem = print_number(dump.window_ts).concat("_").concat(side);
    let mut out: Vec<DumpFile> = Vec::new();
    if !dump.orderbook_samples.is_empty() {
        out.push(
            DumpFile {
                kind: DumpKind::Orderbook,
                dir: "orderbook_dumps".to_owned(),
                name: stem.clone().concat(".ndjson"),
            },
        );
    }
    if dump.token_log.len() > 0 {
        out.push(
            DumpFile {
                kind: DumpKind::TokenLog,
                dir: "logs_token_state".to_owned(),
                name: stem.concat(".log"),
            },
        );
    }
    if dump.btc_log.len() > 0 {
        out.push(
            DumpFile {
                kind: DumpKind::BtcLog,
                dir: "logs_btc_state".to_owned(),
                name: ts.concat(".log"),
            },
        );
    }
    assert(file_views(out@) =~= dump_files_spec(*dump));
    out
}

/// Lines on bitcoin are never written twice: of the dumps of a market only that of the up
/// token has any.
pub proof fn law_btc_lines_are_written_once(
    dumps: Seq<WindowDump>,
    windows: Map<Seq<char>, TokenWindow>,
    up_id: Seq<char>,
    down_id: Seq<char>,
    i: int,
)
    requires
        is_dumps(dumps, windows, up_id, down_id),
        0 <= i < dumps.len(),
    ensures
        !dumps[i].up ==> dumps[i].btc_log@.len() == 0,
        forall|j: int| 0 <= j < dumps.len() && j != i ==> (#[trigger] dumps[j]).up != dumps[i].up,
{
}

/// Each mean is its own quotient wherever it has a divisor above zero. Without one the mean of the
/// book and that of the asks are the best ask, and a mean over the whole window is that of the
/// current book or of its asks.
pub proof fn law_means_fall_back(q: VwapReading)
    ensures
        ({
            let v = vwaps_spec(q);
            let above = |d: Double| !d.nan() && d.rank() > 0;
            &&& v.book == (if above(q.total_depth) { q.quotients.book } else { q.best_ask })
            &&& v.asks == (if above(q.ladder_size) { q.quotients.asks } else { q.best_ask })
            &&& above(q.sums.mid_cum_qty) ==> v.book_cum == q.quotients.book_cum
            &&& !above(q.sums.mid_cum_qty) ==> v.book_cum == v.book
            &&& above(q.sums.asks_cum_qty) ==> v.asks_cum == q.quotients.asks_cum
            &&& !above(q.sums.asks_cum_qty) ==> v.asks_cum == v.asks
        }),
{
}

/// The state of a token shows its four means, the deviation of the price from each, which is zero
/// from a mean of zero, the best ask as its price, and the imbalance of a book that has depth.
pub proof fn law_token_state_shows_means_and_deviations(
    q: VwapReading,
    deviations: Vwaps,
    imbalance: Double,
)
    ensures
        ({
            let s = token_state_spec(q, deviations, imbalance);
            let v = vwaps_spec(q);
            let zero = |d: Double| !d.nan() && d.rank() == 0;
            let deep = !q.total_depth.nan() && q.total_depth.rank() > 0;
            &&& s.last_price == q.best_ask
            &&& s.vwap == v.book && s.vwap_asks == v.asks && s.vwap_cum == v.book_cum
                && s.vwap_asks_cum == v.asks_cum
            &&& zero(v.book) ==> s.vwap_dev.bits == 0
            &&& !zero(v.book) ==> s.vwap_dev == deviations.book
            &&& zero(v.asks) ==> s.vwap_asks_dev.bits == 0
            &&& !zero(v.asks) ==> s.vwap_asks_dev == deviations.asks
            &&& zero(v.book_cum) ==> s.vwap_cum_dev.bits == 0
            &&& !zero(v.book_cum) ==> s.vwap_cum_dev == deviations.book_cum
            &&& zero(v.asks_cum) ==> s.vwap_asks_cum_dev.bits == 0
            &&& !zero(v.asks_cum) ==> s.vwap_asks_cum_dev == deviations.asks_cum
            &&& deep ==> s.orderbook_imbalance == imbalance
            &&& !deep ==> s.orderbook_imbalance.bits == 0
        }),
{
}

/// The last price of bitcoin and its history are noted in any case; its measurements only once the
/// origin is fixed and not zero. The high and the low then hold the price and what they were, and
/// are one of the two.
pub proof fn law_bitcoin_is_measured_once_the_origin_is_fixed(
    b: BtcStateView,
    price: Double,
    origin: Dec,
    locked: bool,
    q: BtcStep,
)
    ensures
        ({
            let after = b.after(price, origin, locked, q);
            let measured = locked && origin.mantissa != 0;
            let has_high = b.rolling_high.nan() || b.rolling_high.rank() != 0;
            let has_low = b.rolling_low.nan() || b.rolling_low.rank() != 0;
            &&& after.last_price == price
            &&& after.price_history == b.price_history.push(price)
            &&& !measured ==> after == (BtcStateView {
                last_price: price,
                price_history: b.price_history.push(price),
                ..b
            })
            &&& measured ==> after.return_pct == q.return_pct && after.prev_return_pct
                == q.return_pct && after.acceleration == q.acceleration && after.volatility
                == q.volatility && after.path_length == q.path_length && after.net_displacement
                == q.net_displacement
            &&& measured && !q.path_length.nan() && q.path_length.rank() > 0
                ==> after.efficiency_ratio == q.efficiency
            &&& measured && (q.path_length.nan() || q.path_length.rank() <= 0)
                ==> after.efficiency_ratio.bits == 0
            &&& measured && !has_high ==> after.rolling_high == price
            &&& measured && !has_low ==> after.rolling_low == price
            &&& measured && has_high && !price.nan() && !b.rolling_high.nan() ==> (
            after.rolling_high == price || after.rolling_high == b.rolling_high)
                && after.rolling_high.rank() >= price.rank() && after.rolling_high.rank()
                >= b.rolling_high.rank()
            &&& measured && has_low && !price.nan() && !b.rolling_low.nan() ==> (after.rolling_low
                == price || after.rolling_low == b.rolling_low) && after.rolling_low.rank()
                <= price.rank() && after.rolling_low.rank() <= b.rolling_low.rank()
            &&& measured && after.rolling_low.below(after.rolling_high) ==> after.near_high_low
                == q.position
            &&& measured && !after.rolling_low.below(after.rolling_high) ==> after.near_high_low.bits
                == 0x3fe0_0000_0000_0000
        }),
{
}

/// The features after a book are those of that book: once it has been published they show its best
/// ask and its depths, and the token's own origin and distance: those of the up token for the up
/// token, and those of the down token for the down token. From the second price on the distance and
/// the area are the ones that were measured for this book.
pub proof fn law_features_show_the_last_book(
    before: TokenFeed,
    after: TokenFeed,
    ws: WindowState,
    asset_id: Seq<char>,
    expires_at_sec: u64,
    up_id: Seq<char>,
    down_id: Seq<char>,
    q: PublishReading,
    tq: TokenQuotients,
)
    requires
        up_id != down_id,
        before.publishes(asset_id, up_id, down_id),
        after.published(
            before,
            state_after(
                ws,
                asset_id == up_id,
                asset_id == down_id,
                before.latest_orderbooks@[asset_id].best_ask,
                before.latest_orderbooks@[asset_id].timestamp_ms,
                q.token,
            ),
            asset_id,
            expires_at_sec,
            up_id,
            q,
        ),
    ensures
        ({
            let book = before.latest_orderbooks@[asset_id];
            let is_up = asset_id == up_id;
            let now = state_after(
                ws,
                is_up,
                asset_id == down_id,
                book.best_ask,
                book.timestamp_ms,
                q.token,
            );
            let track = if is_up { ws.up } else { ws.down };
            let f = after.features_spec(now, asset_id, is_up, tq);
            &&& f is Some
            &&& f->0.current_price == book.best_ask
            &&& f->0.bid_depth == book.bid_depth && f->0.ask_depth == book.ask_depth
            &&& track.origin_price.mantissa == 0 ==> f->0.origin_price == book.best_ask
            &&& track.origin_price.mantissa != 0 ==> f->0.origin_price == track.origin_price
            &&& track.origin_price.mantissa > 0 ==> f->0.distance_from_origin_pct
                == q.token.distance && f->0.area_under_curve == q.token.area
            &&& f->0.avg_distance == tq.avg_distance
            &&& f->0.spread_pct == tq.spread_pct
            &&& tq.total_depth.nan() || tq.total_depth.rank() > 0 ==> f->0.imbalance == tq.imbalance
            &&& !tq.total_depth.nan() && tq.total_depth.rank() <= 0 ==> f->0.imbalance.bits == 0
            &&& is_up ==> now.down == ws.down
            &&& !is_up ==> now.up == ws.up
        }),
{
    let book = before.latest_orderbooks@[asset_id];
    let now = state_after(
        ws,
        asset_id == up_id,
        asset_id == down_id,
        book.best_ask,
        book.timestamp_ms,
        q.token,
    );
    let w = after.windows@[asset_id];
    let sample = sample_of(asset_id, book);
    let on_btc = asset_id == up_id && now.btc_last_price.mantissa > 0;
    let btc = before.btc_state@.after(
        q.btc_price,
        now.btc_origin_price,
        now.btc_origin_locked,
        q.btc,
    );
    let start = choose|start: TokenWindow|
        (if before.windows@.contains_key(asset_id) {
            start == before.windows@[asset_id]
        } else {
            start.is_new(expires_at_sec)
        }) && #[trigger] w.follows(
            start,
            sample,
            q.means.sums,
            token_line_of(q.state()),
            btc_line_of(on_btc, btc, q),
        );
    let s = choose|s: OrderbookSample|
        sample_view(s) == sample && w.window@ == #[trigger] storage::pruned(
            start.window@.push(s),
            storage::minus(s.timestamp_ms, start.window.retention_spec()),
        );
    storage::law_pushed_sample_stays(start.window@, s, start.window.retention_spec());
    assert(w.window@.last() == s);
}

/// What is logged of a published book is that book: one line more on the token, with its best ask,
/// the mean of its asks and its imbalance, and one line more on bitcoin exactly for a book of the up
/// token while bitcoin has a price. The state of the token is kept exactly where no line on bitcoin
/// is written. No other token is touched.
pub proof fn law_published_book_is_logged(
    before: TokenFeed,
    after: TokenFeed,
    ws: WindowState,
    asset_id: Seq<char>,
    expires_at_sec: u64,
    up_id: Seq<char>,
    q: PublishReading,
    other: Seq<char>,
)
    requires
        after.published(before, ws, asset_id, expires_at_sec, up_id, q),
        other != asset_id,
    ensures
        ({
            let w = after.windows@[asset_id];
            let on_btc = asset_id == up_id && ws.btc_last_price.mantissa > 0;
            let known = before.windows@.contains_key(asset_id);
            let lines = if known { before.windows@[asset_id].token_log@.len() } else { 0 };
            let btc_lines = if known { before.windows@[asset_id].btc_log@.len() } else { 0 };
            let deep = !q.means.total_depth.nan() && q.means.total_depth.rank() > 0;
            let laddered = !q.means.ladder_size.nan() && q.means.ladder_size.rank() > 0;
            &&& w.token_log@.len() == lines + 1
            &&& w.token_log@.last().price == q.means.best_ask
            &&& w.token_log@.last().vwap_asks == (if laddered {
                q.means.quotients.asks
            } else {
                q.means.best_ask
            })
            &&& w.token_log@.last().imbalance == (if deep {
                q.imbalance
            } else {
                Double { bits: 0 }
            })
            &&& w.btc_log@.len() == btc_lines + (if on_btc { 1int } else { 0int })
            &&& on_btc ==> w.btc_log@.last().price == q.btc_price
                && w.btc_log@.last().origin_price == q.origin_price && after.btc_state@.last_price
                == q.btc_price && w.btc_log@.last().volatility == after.btc_state@.volatility
                && w.btc_log@.last().efficiency_ratio == after.btc_state@.efficiency_ratio
                && w.btc_log@.last().near_high_low == after.btc_state@.near_high_low
            &&& on_btc ==> after.token_states@ == before.token_states@
            &&& !on_btc ==> after.token_states@.contains_key(asset_id)
                && after.token_states@[asset_id].last_price == q.means.best_ask && after.btc_state@
                == before.btc_state@
            &&& w.accum == q.means.sums
            &&& !known ==> w.expires_at_sec == expires_at_sec && w.window_ts == (if expires_at_sec
                >= 300 {
                expires_at_sec - 300
            } else {
                0
            })
            &&& known ==> w.expires_at_sec == before.windows@[asset_id].expires_at_sec && w.window_ts
                == before.windows@[asset_id].window_ts
            &&& after.windows@.contains_key(other) <==> before.windows@.contains_key(other)
            &&& before.windows@.contains_key(other) ==> after.windows@[other]
                == before.windows@[other]
            &&& after.latest_orderbooks@ == before.latest_orderbooks@
        }),
{
    let w = after.windows@[asset_id];
    let a = after.windows@.remove(asset_id);
    let b = before.windows@.remove(asset_id);
    assert(a.contains_key(other) <==> b.contains_key(other));
    assert(b.contains_key(other) ==> a[other] == b[other]);
}

/// What is written down at the end of a market is what its windows hold, each token under its own
/// name: the books, the lines on the token, and, for the up token, the lines on bitcoin.
pub proof fn law_dumps_hold_what_the_windows_held(
    dumps: Seq<WindowDump>,
    windows: Map<Seq<char>, TokenWindow>,
    up_id: Seq<char>,
    down_id: Seq<char>,
)
    requires
        is_dumps(dumps, windows, up_id, down_id),
        up_id != down_id,
    ensures
        ({
            let first = dumps[0];
            let last = dumps[dumps.len() - 1];
            let up = windows.contains_key(up_id);
            let down = windows.contains_key(down_id);
            &&& up ==> dumps.len() > 0 && first.up && first.orderbook_samples@
                == windows[up_id].window@ && first.token_log@ == windows[up_id].token_log@
                && first.btc_log@ == windows[up_id].btc_log@ && first.window_ts
                == windows[up_id].window_ts
            &&& down ==> dumps.len() > 0 && !last.up && last.orderbook_samples@
                == windows[down_id].window@ && last.token_log@ == windows[down_id].token_log@
                && last.btc_log@.len() == 0 && last.window_ts == windows[down_id].window_ts
            &&& !up && !down ==> dumps.len() == 0
            &&& dumps.len() <= 2
        }),
{
}

/// Each kind of content is written to a file exactly where there is any, under the window's start
/// and, but for bitcoin, the token's side.
pub proof fn law_files_are_named_after_window_and_side(dump: WindowDump)
    ensures
        ({
            let files = dump_files_spec(dump);
            let ts = decimal::digits(dump.window_ts as nat);
            let side = if dump.up { "_up"@ } else { "_down"@ };
            let books = dump.orderbook_samples@.len() > 0;
            let lines = dump.token_log@.len() > 0;
            let btc = dump.btc_log@.len() > 0;
            let listed = |kind: DumpKind|
                exists|i: int| 0 <= i < files.len() && (#[trigger] files[i]).kind == kind;
            &&& listed(DumpKind::Orderbook) <==> books
            &&& listed(DumpKind::TokenLog) <==> lines
            &&& listed(DumpKind::BtcLog) <==> btc
            &&& forall|i: int|
                0 <= i < files.len() ==> match (#[trigger] files[i]).kind {
                    DumpKind::Orderbook => files[i].dir == "orderbook_dumps"@ && files[i].name == ts
                        + side + ".ndjson"@,
                    DumpKind::TokenLog => files[i].dir == "logs_token_state"@ && files[i].name == ts
                        + side + ".log"@,
                    DumpKind::BtcLog => files[i].dir == "logs_btc_state"@ && files[i].name == ts
                        + ".log"@,
                }
            &&& forall|i: int, j: int|
                0 <= i < j < files.len() ==> (#[trigger] files[i]).kind != (#[trigger] files[j]).kind
        }),
{
    let files = dump_files_spec(dump);
    let ts = decimal::digits(dump.window_ts as nat);
    reveal_strlit("_");
    reveal_strlit("up");
    reveal_strlit("down");
    reveal_strlit("_up");
    reveal_strlit("_down");
    let side = if dump.up { "_up"@ } else { "_down"@ };
    assert("_"@ + side_name(dump.up) =~= side);
    assert(ts + "_"@ + side_name(dump.up) =~= ts + side);
    let n = (if dump.orderbook_samples@.len() > 0 { 1int } else { 0 });
    let m = n + (if dump.token_log@.len() > 0 { 1int } else { 0 });
    if dump.orderbook_samples@.len() > 0 {
        assert(files[0].kind == DumpKind::Orderbook);
    }
    if dump.token_log@.len() > 0 {
        assert(files[n].kind == DumpKind::TokenLog);
    }
    if dump.btc_log@.len() > 0 {
        assert(files[m].kind == DumpKind::BtcLog);
    }
}

/// A book is published exactly where it is one of the market's two tokens and offers something.
pub proof fn law_books_with_an_offer_are_published(
    feed: TokenFeed,
    asset_id: Seq<char>,
    up_id: Seq<char>,
    down_id: Seq<char>,
)
    ensures
        !feed.latest_orderbooks@.contains_key(asset_id) ==> !feed.publishes(asset_id, up_id, down_id),
        asset_id != up_id && asset_id != down_id ==> !feed.publishes(asset_id, up_id, down_id),
        feed.latest_orderbooks@.contains_key(asset_id) && (asset_id == up_id || asset_id == down_id)
            ==> (feed.publishes(asset_id, up_id, down_id)
            <==> feed.latest_orderbooks@[asset_id].best_ask.mantissa != 0),
{
}

/// A published book is the last sample of its token's window, as it stands: time, token, both best
/// prices and both depths. The window holds samples of five minutes: of those it had, none that is
/// younger than that is lost, and the state that is kept of the token is that of the book.
pub proof fn law_published_book_is_the_last_sample(
    before: TokenFeed,
    after: TokenFeed,
    ws: WindowState,
    asset_id: Seq<char>,
    expires_at_sec: u64,
    up_id: Seq<char>,
    q: PublishReading,
)
    requires
        after.published(before, ws, asset_id, expires_at_sec, up_id, q),
        before.windows@.contains_key(asset_id) ==> before.windows@[asset_id].window.retention_spec()
            == 300_000,
    ensures
        ({
            let book = before.latest_orderbooks@[asset_id];
            let w = after.windows@[asset_id];
            let s = w.window@.last();
            let had = if before.windows@.contains_key(asset_id) {
                before.windows@[asset_id].window@
            } else {
                Seq::empty()
            };
            let n = had.len() + 1 - w.window@.len();
            &&& w.window@.len() > 0
            &&& s.timestamp_ms == book.timestamp_ms && s.asset_id@ == asset_id
            &&& s.best_bid == book.best_bid && s.best_ask == book.best_ask
            &&& s.bid_depth == book.bid_depth && s.ask_depth == book.ask_depth
            &&& s.last_trade_price.mantissa == 0
            &&& w.window.retention_spec() == 300_000
            &&& 0 <= n <= had.len()
            &&& forall|i: int|
                0 <= i < w.window@.len() - 1 ==> #[trigger] w.window@[i] == had[n + i]
            &&& forall|i: int|
                0 <= i < n ==> book.timestamp_ms - (#[trigger] had[i]).timestamp_ms > 300_000
            &&& w.window@.len() > 1 ==> book.timestamp_ms - w.window@[0].timestamp_ms <= 300_000
            &&& !(asset_id == up_id && ws.btc_last_price.mantissa > 0) ==> after.token_states@
                == before.token_states@.insert(
                asset_id,
                token_state_spec(q.means, q.deviations, q.imbalance),
            )
        }),
{
    let book = before.latest_orderbooks@[asset_id];
    let w = after.windows@[asset_id];
    let sample = sample_of(asset_id, book);
    let on_btc = asset_id == up_id && ws.btc_last_price.mantissa > 0;
    let btc = before.btc_state@.after(
        q.btc_price,
        ws.btc_origin_price,
        ws.btc_origin_locked,
        q.btc,
    );
    let start = choose|start: TokenWindow|
        (if before.windows@.contains_key(asset_id) {
            start == before.windows@[asset_id]
        } else {
            start.is_new(expires_at_sec)
        }) && #[trigger] w.follows(
            start,
            sample,
            q.means.sums,
            token_line_of(q.state()),
            btc_line_of(on_btc, btc, q),
        );
    let s = choose|s: OrderbookSample|
        sample_view(s) == sample && w.window@ == #[trigger] storage::pruned(
            start.window@.push(s),
            storage::minus(s.timestamp_ms, start.window.retention_spec()),
        );
    let all = start.window@.push(s);
    let cutoff = storage::minus(s.timestamp_ms, start.window.retention_spec());
    storage::law_pushed_sample_stays(start.window@, s, start.window.retention_spec());
    storage::law_pruned_is_a_suffix(all, cutoff);
    let had = if before.windows@.contains_key(asset_id) {
        before.windows@[asset_id].window@
    } else {
        Seq::empty()
    };
    assert(had =~= start.window@);
    let n = had.len() + 1 - w.window@.len();
    assert(w.window@ == all.skip(n));
    assert(w.window@.last() == s);
    assert forall|i: int| 0 <= i < w.window@.len() - 1 implies #[trigger] w.window@[i] == had[n + i] by {
        assert(w.window@[i] == all[n + i]);
    }
    assert forall|i: int| 0 <= i < n implies book.timestamp_ms - (
    #[trigger] had[i]).timestamp_ms > 300_000 by {
        assert(all[i] == had[i]);
        assert(all[i].time() < cutoff);
    }
    if w.window@.len() > 1 {
        assert(w.window@[0].time() >= cutoff);
    }
}

/// A token has features exactly where its window is known and has a sample.
pub proof fn law_features_need_a_sample(
    feed: TokenFeed,
    ws: WindowState,
    asset_id: Seq<char>,
    is_up: bool,
    q: TokenQuotients,
)
    ensures
        !feed.windows@.contains_key(asset_id) ==> feed.features_spec(ws, asset_id, is_up, q) is None,
        feed.windows@.contains_key(asset_id) ==> (feed.features_spec(ws, asset_id, is_up, q) is Some
            <==> feed.windows@[asset_id].window@.len() > 0),
{
}

} // verus!

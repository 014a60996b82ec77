//! # Shared state
//!
//! The one place where orders, trades and prices live. [`crate::reducer::apply`] is the
//! only function that changes it in answer to an event; the single exception is the
//! claim of an order by the rapid-sell loop (`worker::rapid_sell::acquire`).

use vstd::prelude::*;
use dashmap::DashMap;
use crate::decimal;
use crate::decimal::Dec;
use crate::double::Double;
use crate::tables;
use crate::text;
use crate::text::{copy_opt_text, copy_texts, print_number};

verus! {

/// The length of a market window in seconds.
pub const WINDOW_SECS: u64 = 300;

/// The start of the five-minute window that a time (in seconds) falls in.
pub fn stamp_5m(now_secs: u64) -> (r: u64)
    ensures
        r == now_secs - now_secs % WINDOW_SECS,
        r <= now_secs < r + WINDOW_SECS,
        r % WINDOW_SECS == 0,
        r % 300 == 0,
        now_secs - r < 300,
{
    now_secs - now_secs % WINDOW_SECS
}

/// The name under which the market of a window is listed.
pub fn slug_for_ts(window_ts: u64) -> (r: String)
    ensures
        r@ == "btc-updown-5m-"@ + decimal::digits(window_ts as nat),
{
    "btc-updown-5m-".to_owned().concat(print_number(window_ts).as_str())
}

/// What the terminal knows of an order's progress.
#[derive(Debug)]
pub enum LocalOrderStatus {
    Open,
    PartiallyFilled { filled: String },
    FullyFilled,
    TradeOpen,
    TradeConfirmed,
    Canceled,
    Failed(String),
}

/// The mathematical value of a [`LocalOrderStatus`].
pub enum StatusView {
    Open,
    PartiallyFilled { filled: Seq<char> },
    FullyFilled,
    TradeOpen,
    TradeConfirmed,
    Canceled,
    Failed(Seq<char>),
}

impl View for LocalOrderStatus {
    type V = StatusView;

    open spec fn view(&self) -> StatusView {
        match *self {
            LocalOrderStatus::Open => StatusView::Open,
            LocalOrderStatus::PartiallyFilled { filled } => StatusView::PartiallyFilled {
                filled: filled@,
            },
            LocalOrderStatus::FullyFilled => StatusView::FullyFilled,
            LocalOrderStatus::TradeOpen => StatusView::TradeOpen,
            LocalOrderStatus::TradeConfirmed => StatusView::TradeConfirmed,
            LocalOrderStatus::Canceled => StatusView::Canceled,
            LocalOrderStatus::Failed(reason) => StatusView::Failed(reason@),
        }
    }
}

impl Clone for LocalOrderStatus {
    fn clone(&self) -> (r: Self)
        ensures
            r@ == self@,
    {
        match self {
            LocalOrderStatus::Open => LocalOrderStatus::Open,
            LocalOrderStatus::PartiallyFilled { filled } => LocalOrderStatus::PartiallyFilled {
                filled: filled.clone(),
            },
            LocalOrderStatus::FullyFilled => LocalOrderStatus::FullyFilled,
            LocalOrderStatus::TradeOpen => LocalOrderStatus::TradeOpen,
            LocalOrderStatus::TradeConfirmed => LocalOrderStatus::TradeConfirmed,
            LocalOrderStatus::Canceled => LocalOrderStatus::Canceled,
            LocalOrderStatus::Failed(reason) => LocalOrderStatus::Failed(reason.clone()),
        }
    }
}

impl StatusView {
    /// Whether some of the order has been bought or sold.
    pub open spec fn has_fill(self) -> bool {
        self is PartiallyFilled || self is FullyFilled || self is TradeOpen
            || self is TradeConfirmed
    }

    /// Whether nothing more will happen to the order.
    pub open spec fn is_final(self) -> bool {
        self is Canceled || self is Failed || self is TradeConfirmed
    }

    /// Whether some of the order still waits to be traded, so that it can be cancelled.
    pub open spec fn is_open(self) -> bool {
        self is Open || self is PartiallyFilled
    }
}

impl LocalOrderStatus {
    /// Whether some of the order still waits to be traded, so that it can be cancelled.
    pub fn is_open(&self) -> (r: bool)
        ensures
            r == self@.is_open(),
    {
        match self {
            LocalOrderStatus::Open => true,
            LocalOrderStatus::PartiallyFilled { .. } => true,
            _ => false,
        }
    }

    /// Whether some of the order has been bought or sold.
    pub fn has_fill(&self) -> (r: bool)
        ensures
            r == self@.has_fill(),
    {
        match self {
            LocalOrderStatus::PartiallyFilled { .. } => true,
            LocalOrderStatus::FullyFilled => true,
            LocalOrderStatus::TradeOpen => true,
            LocalOrderStatus::TradeConfirmed => true,
            _ => false,
        }
    }

    /// Whether nothing more will happen to the order.
    pub fn is_final(&self) -> (r: bool)
        ensures
            r == self@.is_final(),
    {
        match self {
            LocalOrderStatus::Canceled => true,
            LocalOrderStatus::Failed(_) => true,
            LocalOrderStatus::TradeConfirmed => true,
            _ => false,
        }
    }
}

/// Where the automatic sale of a bought order stands. Times are milliseconds of one
/// monotonic clock.
#[derive(Debug)]
pub enum RapidSellState {
    Idle,
    InFlight { attempt: u32, started_at: u64 },
    RetryScheduled { attempt: u32, retry_at: u64, reason: String },
    Completed,
    PermanentlyFailed { attempts: u32, reason: String },
}

/// The mathematical value of a [`RapidSellState`].
pub enum RapidSellView {
    Idle,
    InFlight { attempt: u32, started_at: u64 },
    RetryScheduled { attempt: u32, retry_at: u64, reason: Seq<char> },
    Completed,
    PermanentlyFailed { attempts: u32, reason: Seq<char> },
}

impl View for RapidSellState {
    type V = RapidSellView;

    open spec fn view(&self) -> RapidSellView {
        match *self {
            RapidSellState::Idle => RapidSellView::Idle,
            RapidSellState::InFlight { attempt, started_at } => RapidSellView::InFlight {
                attempt,
                started_at,
            },
            RapidSellState::RetryScheduled { attempt, retry_at, reason } => {
                RapidSellView::RetryScheduled { attempt, retry_at, reason: reason@ }
            },
            RapidSellState::Completed => RapidSellView::Completed,
            RapidSellState::PermanentlyFailed { attempts, reason } => {
                RapidSellView::PermanentlyFailed { attempts, reason: reason@ }
            },
        }
    }
}

impl Clone for RapidSellState {
    fn clone(&self) -> (r: Self)
        ensures
            r@ == self@,
    {
        match self {
            RapidSellState::Idle => RapidSellState::Idle,
            RapidSellState::InFlight { attempt, started_at } => RapidSellState::InFlight {
                attempt: *attempt,
                started_at: *started_at,
            },
            RapidSellState::RetryScheduled { attempt, retry_at, reason } => {
                RapidSellState::RetryScheduled {
                    attempt: *attempt,
                    retry_at: *retry_at,
                    reason: reason.clone(),
                }
            },
            RapidSellState::Completed => RapidSellState::Completed,
            RapidSellState::PermanentlyFailed { attempts, reason } => {
                RapidSellState::PermanentlyFailed { attempts: *attempts, reason: reason.clone() }
            },
        }
    }
}

/// An order that the terminal placed.
#[derive(Debug)]
pub struct TrackedOrder {
    pub id: String,
    pub side: String,
    pub token: String,
    pub price: String,
    pub size: String,
    pub executed_price: Option<String>,
    pub executed_size: Option<String>,
    pub status: LocalOrderStatus,
    pub size_matched: String,
    pub inline_sell_price: String,
    pub inline_sell_size: String,
    pub inline_sell_market_type: String,
    pub rapid_sell_price: String,
    pub rapid_sell_size: String,
    pub rapid_sell_state: RapidSellState,
    pub is_trade_fully_confirmed: bool,
    pub associate_trades: Vec<String>,
    pub window_ts: u64,
}

/// The mathematical value of a [`TrackedOrder`].
#[verifier::ext_equal]
pub struct OrderView {
    pub id: Seq<char>,
    pub side: Seq<char>,
    pub token: Seq<char>,
    pub price: Seq<char>,
    pub size: Seq<char>,
    pub executed_price: Option<Seq<char>>,
    pub executed_size: Option<Seq<char>>,
    pub status: StatusView,
    pub size_matched: Seq<char>,
    pub inline_sell_price: Seq<char>,
    pub inline_sell_size: Seq<char>,
    pub inline_sell_market_type: Seq<char>,
    pub rapid_sell_price: Seq<char>,
    pub rapid_sell_size: Seq<char>,
    pub rapid_sell_state: RapidSellView,
    pub is_trade_fully_confirmed: bool,
    pub associate_trades: Seq<Seq<char>>,
    pub window_ts: u64,
}

impl View for TrackedOrder {
    type V = OrderView;

    open spec fn view(&self) -> OrderView {
        OrderView {
            id: self.id@,
            side: self.side@,
            token: self.token@,
            price: self.price@,
            size: self.size@,
            executed_price: text::opt_text(self.executed_price),
            executed_size: text::opt_text(self.executed_size),
            status: self.status@,
            size_matched: self.size_matched@,
            inline_sell_price: self.inline_sell_price@,
            inline_sell_size: self.inline_sell_size@,
            inline_sell_market_type: self.inline_sell_market_type@,
            rapid_sell_price: self.rapid_sell_price@,
            rapid_sell_size: self.rapid_sell_size@,
            rapid_sell_state: self.rapid_sell_state@,
            is_trade_fully_confirmed: self.is_trade_fully_confirmed,
            associate_trades: text::texts(self.associate_trades@),
            window_ts: self.window_ts,
        }
    }
}

impl Clone for TrackedOrder {
    fn clone(&self) -> (r: Self)
        ensures
            r@ == self@,
    {
        TrackedOrder {
            id: self.id.clone(),
            side: self.side.clone(),
            token: self.token.clone(),
            price: self.price.clone(),
            size: self.size.clone(),
            executed_price: copy_opt_text(&self.executed_price),
            executed_size: copy_opt_text(&self.executed_size),
            status: self.status.clone(),
            size_matched: self.size_matched.clone(),
            inline_sell_price: self.inline_sell_price.clone(),
            inline_sell_size: self.inline_sell_size.clone(),
            inline_sell_market_type: self.inline_sell_market_type.clone(),
            rapid_sell_price: self.rapid_sell_price.clone(),
            rapid_sell_size: self.rapid_sell_size.clone(),
            rapid_sell_state: self.rapid_sell_state.clone(),
            is_trade_fully_confirmed: self.is_trade_fully_confirmed,
            associate_trades: copy_texts(&self.associate_trades),
            window_ts: self.window_ts,
        }
    }
}

/// The settlement state of a trade, as far as the terminal tells the states apart.
#[derive(Clone, Copy, Debug, PartialEq, Eq, Structural)]
pub enum TradeStatus {
    Confirmed,
    Pending,
}

/// A trade that belongs to an order.
#[derive(Debug)]
pub struct Trade {
    pub id: String,
    pub status: TradeStatus,
    pub size: Dec,
}

/// The mathematical value of a [`Trade`].
#[verifier::ext_equal]
pub struct TradeView {
    pub id: Seq<char>,
    pub status: TradeStatus,
    pub size: Dec,
}

impl View for Trade {
    type V = TradeView;

    open spec fn view(&self) -> TradeView {
        TradeView { id: self.id@, status: self.status, size: self.size }
    }
}

impl Clone for Trade {
    fn clone(&self) -> (r: Self)
        ensures
            r@ == self@,
    {
        Trade { id: self.id.clone(), status: self.status, size: self.size }
    }
}

/// The last known prices of one window's two tokens.
#[derive(Debug)]
pub struct MarketPrices {
    pub up_asset_id: String,
    pub down_asset_id: String,
    pub up_price: Double,
    pub down_price: Double,
    pub last_ts: u64,
    pub connected: bool,
    pub stale: bool,
    pub error: Option<String>,
}

/// The mathematical value of a [`MarketPrices`].
#[verifier::ext_equal]
pub struct PricesView {
    pub up_asset_id: Seq<char>,
    pub down_asset_id: Seq<char>,
    pub up_price: Double,
    pub down_price: Double,
    pub last_ts: u64,
    pub connected: bool,
    pub stale: bool,
    pub error: Option<Seq<char>>,
}

impl View for MarketPrices {
    type V = PricesView;

    open spec fn view(&self) -> PricesView {
        PricesView {
            up_asset_id: self.up_asset_id@,
            down_asset_id: self.down_asset_id@,
            up_price: self.up_price,
            down_price: self.down_price,
            last_ts: self.last_ts,
            connected: self.connected,
            stale: self.stale,
            error: text::opt_text(self.error),
        }
    }
}

impl Clone for MarketPrices {
    fn clone(&self) -> (r: Self)
        ensures
            r@ == self@,
    {
        MarketPrices {
            up_asset_id: self.up_asset_id.clone(),
            down_asset_id: self.down_asset_id.clone(),
            up_price: self.up_price,
            down_price: self.down_price,
            last_ts: self.last_ts,
            connected: self.connected,
            stale: self.stale,
            error: copy_opt_text(&self.error),
        }
    }
}

impl PricesView {
    /// Prices before the first tick: zero, stale and not connected.
    pub open spec fn initial(up_asset_id: Seq<char>, down_asset_id: Seq<char>) -> PricesView {
        PricesView {
            up_asset_id,
            down_asset_id,
            up_price: Double { bits: 0 },
            down_price: Double { bits: 0 },
            last_ts: 0,
            connected: false,
            stale: true,
            error: None,
        }
    }
}

impl MarketPrices {
    /// Prices before the first tick, of the two given assets.
    pub fn initial(up_asset_id: String, down_asset_id: String) -> (r: Self)
        ensures
            r@ == PricesView::initial(up_asset_id@, down_asset_id@),
    {
        MarketPrices {
            up_asset_id,
            down_asset_id,
            up_price: Double { bits: 0 },
            down_price: Double { bits: 0 },
            last_ts: 0,
            connected: false,
            stale: true,
            error: None,
        }
    }
}

impl Default for MarketPrices {
    fn default() -> (r: Self)
        ensures
            r@ == PricesView::initial(Seq::empty(), Seq::empty()),
    {
        MarketPrices::initial(String::new(), String::new())
    }
}

/// How a notification is shown.
#[derive(Clone, Copy, Debug, PartialEq, Eq, Structural)]
pub enum NotificationKind {
    Success,
    Error,
    Warning,
    Info,
}

/// Everything that the worker and the user interface share.
pub struct AppState {
    pub orders: DashMap<String, TrackedOrder>,
    pub trades: DashMap<String, Trade>,
    pub market_prices: DashMap<u64, MarketPrices>,
    /// The windows with a running price feed, each with the number of that feed.
    pub market_feeds: DashMap<u64, u64>,
    pub version: u64,
}

/// The mathematical value of an [`AppState`].
#[verifier::ext_equal]
pub struct StateView {
    pub orders: Map<Seq<char>, OrderView>,
    pub trades: Map<Seq<char>, TradeView>,
    pub market_prices: Map<u64, PricesView>,
    pub market_feeds: Map<u64, u64>,
    pub version: u64,
}

impl View for AppState {
    type V = StateView;

    open spec fn view(&self) -> StateView {
        StateView {
            orders: tables::orders_in(self.orders),
            trades: tables::trades_in(self.trades),
            market_prices: tables::prices_in(self.market_prices),
            market_feeds: tables::feeds_in(self.market_feeds),
            version: self.version,
        }
    }
}

/// The version after `version`; the last one is followed by zero.
pub open spec fn next_version(version: u64) -> u64 {
    if version == u64::MAX { 0 } else { (version + 1) as u64 }
}

impl StateView {
    /// Each order and each trade stands under its own identifier, and the sizes of the
    /// trades are amounts.
    pub open spec fn wf(self) -> bool {
        &&& forall|id: Seq<char>| #[trigger]
            self.orders.contains_key(id) ==> self.orders[id].id == id
        &&& forall|id: Seq<char>| #[trigger]
            self.trades.contains_key(id) ==> self.trades[id].id == id && self.trades[id].size.wf()
    }

    /// The state as it is once a change has been noted.
    pub open spec fn touched(self) -> StateView {
        StateView { version: next_version(self.version), ..self }
    }
}

impl AppState {
    /// The empty state.
    pub fn new() -> (r: Self)
        ensures
            r@ == (StateView {
                orders: Map::empty(),
                trades: Map::empty(),
                market_prices: Map::empty(),
                market_feeds: Map::empty(),
                version: 0,
            }),
            r@.wf(),
    {
        AppState {
            orders: tables::new_orders(),
            trades: tables::new_trades(),
            market_prices: tables::new_prices(),
            market_feeds: tables::new_feeds(),
            version: 0,
        }
    }

    /// Notes that the state has changed.
    pub fn touch(&mut self)
        ensures
            final(self)@ == old(self)@.touched(),
    {
        self.version = if self.version == u64::MAX { 0 } else { self.version + 1 };
    }

    /// The number of changes so far.
    pub fn version(&self) -> (r: u64)
        ensures
            r == self@.version,
    {
        self.version
    }

    /// The identifiers of all orders, each once.
    pub fn order_ids(&self) -> (r: Vec<String>)
        ensures
            text::texts(r@).no_duplicates(),
            forall|id: Seq<char>| #[trigger]
                text::texts(r@).contains(id) <==> self@.orders.contains_key(id),
    {
        tables::order_keys(&self.orders)
    }

    /// The identifiers of the orders that something can still happen to, each once.
    pub fn pollable_orders(&self) -> (r: Vec<String>)
        ensures
            text::texts(r@).no_duplicates(),
            forall|id: Seq<char>| #[trigger]
                text::texts(r@).contains(id) <==> self@.orders.contains_key(id)
                    && !self@.orders[id].status.is_final(),
    {
        let keys = tables::order_keys(&self.orders);
        let ghost ids = text::texts(keys@);
        let ghost open = |id: Seq<char>| !self@.orders[id].status.is_final();
        let mut out: Vec<String> = Vec::new();
        let mut i: usize = 0;
        while i < keys.len()
            invariant
                i <= keys.len(),
                ids == text::texts(keys@),
                forall|id: Seq<char>| #[trigger] ids.contains(id) <==> self@.orders.contains_key(id),
                open == (|id: Seq<char>| !self@.orders[id].status.is_final()),
                text::texts(out@) == ids.take(i as int).filter(open),
            decreases keys.len() - i,
        {
            proof {
                reveal(Seq::filter);
                assert(ids[i as int] == keys@[i as int]@);
                assert(ids.contains(ids[i as int]));
                assert(ids.take(i + 1).drop_last() =~= ids.take(i as int));
                assert(ids.take(i + 1).last() == ids[i as int]);
            }
            let ghost before = text::texts(out@);
            if let Some(order) = tables::get_order(&self.orders, keys[i].as_str()) {
                if !order.status.is_final() {
                    out.push(keys[i].clone());
                    assert(text::texts(out@) =~= before.push(ids[i as int]));
                }
            }
            i = i + 1;
        }
        proof {
            assert(ids.take(i as int) =~= ids);
            crate::listing::lemma_filter_members(ids, open);
            assert forall|id: Seq<char>| #[trigger]
                text::texts(out@).contains(id) <==> self@.orders.contains_key(id)
                    && !self@.orders[id].status.is_final() by {
                assert(ids.contains(id) <==> self@.orders.contains_key(id));
            }
        }
        out
    }

    /// A copy of the order of that identifier.
    pub fn order(&self, id: &str) -> (r: Option<TrackedOrder>)
        ensures
            r is Some <==> self@.orders.contains_key(id@),
            r is Some ==> r->0@ == self@.orders[id@],
    {
        tables::get_order(&self.orders, id)
    }

    /// A copy of the prices of that window.
    pub fn prices(&self, window_ts: u64) -> (r: Option<MarketPrices>)
        ensures
            r is Some <==> self@.market_prices.contains_key(window_ts),
            r is Some ==> r->0@ == self@.market_prices[window_ts],
    {
        tables::get_prices(&self.market_prices, window_ts)
    }
}

/// What each status means: an open order and a partly filled one can still be cancelled; a partly
/// and a fully filled one, and one whose trade is open or confirmed, hold something; a cancelled
/// one, a failed one and one whose trade is confirmed are done with.
pub proof fn law_statuses_say_what_is_left(status: StatusView)
    ensures
        match status {
            StatusView::Open => status.is_open() && !status.has_fill() && !status.is_final(),
            StatusView::PartiallyFilled { .. } => status.is_open() && status.has_fill()
                && !status.is_final(),
            StatusView::FullyFilled => !status.is_open() && status.has_fill() && !status.is_final(),
            StatusView::TradeOpen => !status.is_open() && status.has_fill() && !status.is_final(),
            StatusView::TradeConfirmed => !status.is_open() && status.has_fill()
                && status.is_final(),
            StatusView::Canceled => !status.is_open() && !status.has_fill() && status.is_final(),
            StatusView::Failed(_) => !status.is_open() && !status.has_fill() && status.is_final(),
        },
{
}

/// A noted change gives another version, the next one as long as there is one, and touches nothing
/// else.
pub proof fn law_touch_changes_the_version_only(s: StateView)
    ensures
        s.touched().version != s.version,
        s.version < u64::MAX ==> s.touched().version == s.version + 1,
        s.touched().orders == s.orders,
        s.touched().trades == s.trades,
        s.touched().market_prices == s.market_prices,
        s.touched().market_feeds == s.market_feeds,
{
}

/// Prices before the first tick are of the two given assets, zero, stale and not connected.
pub proof fn law_first_prices_are_stale(up: Seq<char>, down: Seq<char>)
    ensures
        ({
            let p = PricesView::initial(up, down);
            &&& p.up_asset_id == up && p.down_asset_id == down
            &&& p.up_price.bits == 0 && p.down_price.bits == 0 && p.last_ts == 0
            &&& p.stale && !p.connected && p.error is None
        }),
{
}

/// What is read of an order is the order: every one of its parts.
pub proof fn law_order_is_read_in_full(o: TrackedOrder)
    ensures
        o@.id == o.id@ && o@.side == o.side@ && o@.token == o.token@,
        o@.price == o.price@ && o@.size == o.size@ && o@.size_matched == o.size_matched@,
        o@.executed_price is Some <==> o.executed_price is Some,
        o.executed_price is Some ==> o@.executed_price->0 == o.executed_price->0@,
        o@.executed_size is Some <==> o.executed_size is Some,
        o.executed_size is Some ==> o@.executed_size->0 == o.executed_size->0@,
        o@.inline_sell_price == o.inline_sell_price@ && o@.inline_sell_size == o.inline_sell_size@,
        o@.inline_sell_market_type == o.inline_sell_market_type@,
        o@.rapid_sell_price == o.rapid_sell_price@ && o@.rapid_sell_size == o.rapid_sell_size@,
        o@.is_trade_fully_confirmed == o.is_trade_fully_confirmed,
        o@.window_ts == o.window_ts,
        o@.associate_trades.len() == o.associate_trades@.len(),
        forall|i: int|
            0 <= i < o.associate_trades@.len() ==> #[trigger] o@.associate_trades[i]
                == o.associate_trades@[i]@,
        match o.status {
            LocalOrderStatus::Open => o@.status is Open,
            LocalOrderStatus::PartiallyFilled { filled } => o@.status == (
            StatusView::PartiallyFilled { filled: filled@ }),
            LocalOrderStatus::FullyFilled => o@.status is FullyFilled,
            LocalOrderStatus::TradeOpen => o@.status is TradeOpen,
            LocalOrderStatus::TradeConfirmed => o@.status is TradeConfirmed,
            LocalOrderStatus::Canceled => o@.status is Canceled,
            LocalOrderStatus::Failed(why) => o@.status == StatusView::Failed(why@),
        },
        match o.rapid_sell_state {
            RapidSellState::Idle => o@.rapid_sell_state is Idle,
            RapidSellState::InFlight { attempt, started_at } => o@.rapid_sell_state == (
            RapidSellView::InFlight { attempt, started_at }),
            RapidSellState::RetryScheduled { attempt, retry_at, reason } => o@.rapid_sell_state == (
            RapidSellView::RetryScheduled { attempt, retry_at, reason: reason@ }),
            RapidSellState::Completed => o@.rapid_sell_state is Completed,
            RapidSellState::PermanentlyFailed { attempts, reason } => o@.rapid_sell_state == (
            RapidSellView::PermanentlyFailed { attempts, reason: reason@ }),
        },
{
}

/// What is read of a trade and of prices is every one of their parts.
pub proof fn law_trade_and_prices_are_read_in_full(t: Trade, p: MarketPrices)
    ensures
        t@.id == t.id@ && t@.status == t.status && t@.size == t.size,
        p@.up_asset_id == p.up_asset_id@ && p@.down_asset_id == p.down_asset_id@,
        p@.up_price == p.up_price && p@.down_price == p.down_price && p@.last_ts == p.last_ts,
        p@.connected == p.connected && p@.stale == p.stale,
        p@.error is Some <==> p.error is Some,
        p.error is Some ==> p@.error->0 == p.error->0@,
{
}

/// Versions run through all numbers: each follows exactly one, and zero follows the last.
pub proof fn law_versions_go_round(a: u64, b: u64)
    ensures
        next_version(u64::MAX) == 0,
        a < u64::MAX ==> next_version(a) == a + 1,
        next_version(a) == next_version(b) ==> a == b,
{
}

} // verus!

//! # Market data feed
//!
//! One feed per window. The feed writes nothing into the shared state but the identifiers of
//! the window's two assets; everything else it says goes through events.

use vstd::prelude::*;
use crate::double::Double;
use crate::events::{AppEvent, EventView};
use crate::state::{AppState, MarketPrices, PricesView, StateView};
use crate::tables;
use crate::text;
use crate::text::same_text;

verus! {

/// The milliseconds without a tick after which the prices count as stale.
pub const STALE_TIMEOUT_MS: u64 = 5000;

/// The milliseconds between two looks at the age of the prices.
pub const STALE_CHECK_INTERVAL_MS: u64 = 500;

/// A change of the feed's connection.
pub open spec fn feed_status(
    window_ts: u64,
    connected: bool,
    stale: bool,
    error: Option<Seq<char>>,
) -> EventView {
    EventView::FeedStatusChanged { window_ts, connected, stale, error }
}

/// The state with a new feed of that number for a window, and prices before the first tick.
pub open spec fn with_feed(s: StateView, window_ts: u64, feed: u64) -> StateView {
    StateView {
        market_prices: s.market_prices.insert(
            window_ts,
            PricesView::initial(Seq::empty(), Seq::empty()),
        ),
        market_feeds: s.market_feeds.insert(window_ts, feed),
        ..s
    }
}

/// Registers a feed, so that the window shows prices to come at once. The result is the
/// event that announces them.
pub fn register_feed(state: &mut AppState, window_ts: u64, feed: u64) -> (r: AppEvent)
    ensures
        final(state)@ == with_feed(old(state)@, window_ts, feed),
        r@ == feed_status(window_ts, false, true, None),
{
    tables::insert_prices(&mut state.market_prices, window_ts, MarketPrices::default());
    tables::insert_feed(&mut state.market_feeds, window_ts, feed);
    AppEvent::FeedStatusChanged { window_ts, connected: false, stale: true, error: None }
}

/// Forgets the feed of a window and says which one it was; its prices stay.
pub fn take_feed(state: &mut AppState, window_ts: u64) -> (r: Option<u64>)
    ensures
        final(state)@ == (StateView {
            market_feeds: old(state)@.market_feeds.remove(window_ts),
            ..old(state)@
        }),
        r == old(state)@.market_feeds.get(window_ts),
{
    tables::remove_feed(&mut state.market_feeds, window_ts)
}

/// Whether a market's token identifiers are enough to start its feed.
pub fn tokens_ready(ids: &Vec<String>) -> (r: bool)
    ensures
        r == (ids@.len() >= 2),
{
    ids.len() >= 2
}

/// The state with the two assets of a window known; a window that is gone stays gone.
pub open spec fn with_assets(
    s: StateView,
    window_ts: u64,
    up: Seq<char>,
    down: Seq<char>,
) -> StateView {
    if s.market_prices.contains_key(window_ts) {
        StateView {
            market_prices: s.market_prices.insert(window_ts, PricesView::initial(up, down)),
            ..s
        }
    } else {
        s
    }
}

/// Notes the two assets of a window, so that ticks can be told apart. The result is the event
/// that announces the connection.
pub fn store_assets(state: &mut AppState, window_ts: u64, up: String, down: String) -> (r: AppEvent)
    ensures
        final(state)@ == with_assets(old(state)@, window_ts, up@, down@),
        r@ == feed_status(window_ts, true, false, None),
{
    if tables::get_prices(&state.market_prices, window_ts).is_some() {
        tables::insert_prices(
            &mut state.market_prices,
            window_ts,
            MarketPrices::initial(up, down),
        );
    }
    AppEvent::FeedStatusChanged { window_ts, connected: true, stale: false, error: None }
}

/// The event for a trade price: the new price for the asset that traded and the last known
/// one for the other. None where the price is not newer than the last one, or the asset is
/// neither of the window's two.
pub open spec fn tick_event(
    window_ts: u64,
    prices: PricesView,
    asset: Seq<char>,
    price: Double,
    ts: u64,
) -> Option<EventView> {
    if ts <= prices.last_ts {
        None
    } else if asset == prices.up_asset_id {
        Some(
            EventView::PriceTick {
                window_ts,
                up_price: price,
                down_price: prices.down_price,
                last_ts: ts,
            },
        )
    } else if asset == prices.down_asset_id {
        Some(
            EventView::PriceTick {
                window_ts,
                up_price: prices.up_price,
                down_price: price,
                last_ts: ts,
            },
        )
    } else {
        None
    }
}

/// The event for a trade price.
pub fn route_tick(window_ts: u64, prices: &MarketPrices, asset: &str, price: Double, ts: u64) -> (r:
    Option<AppEvent>)
    ensures
        r is Some <==> tick_event(window_ts, prices@, asset@, price, ts) is Some,
        r is Some ==> r->0@ == tick_event(window_ts, prices@, asset@, price, ts)->0,
{
    if ts <= prices.last_ts {
        return None;
    }
    if same_text(asset, prices.up_asset_id.as_str()) {
        Some(
            AppEvent::PriceTick {
                window_ts,
                up_price: price,
                down_price: prices.down_price,
                last_ts: ts,
            },
        )
    } else if same_text(asset, prices.down_asset_id.as_str()) {
        Some(
            AppEvent::PriceTick {
                window_ts,
                up_price: prices.up_price,
                down_price: price,
                last_ts: ts,
            },
        )
    } else {
        None
    }
}

/// A tick that the feed sends is one that the reducer takes, as long as no other came in
/// between.
pub proof fn law_routed_tick_is_taken(
    s: StateView,
    window_ts: u64,
    asset: Seq<char>,
    price: Double,
    ts: u64,
)
    requires
        s.market_prices.contains_key(window_ts),
        tick_event(window_ts, s.market_prices[window_ts], asset, price, ts) is Some,
    ensures
        ({
            let before = s.market_prices[window_ts];
            let after = crate::reducer::step(
                s,
                tick_event(window_ts, before, asset, price, ts)->0,
            ).market_prices[window_ts];
            &&& after.last_ts == ts
            &&& after.connected && !after.stale && after.error is None
            &&& asset == before.up_asset_id ==> after.up_price == price && after.down_price
                == before.down_price
            &&& asset != before.up_asset_id ==> after.down_price == price && after.up_price
                == before.up_price
        }),
{
}

/// The event where the stream could not be opened or broke off.
pub fn stream_failed(window_ts: u64, reason: String) -> (r: AppEvent)
    ensures
        r@ == feed_status(window_ts, false, true, Some(reason@)),
{
    AppEvent::FeedStatusChanged { window_ts, connected: false, stale: true, error: Some(reason) }
}

/// The event where the stream ended.
pub fn stream_ended(window_ts: u64) -> (r: AppEvent)
    ensures
        r@ == feed_status(window_ts, false, true, Some("stream ended"@)),
{
    stream_failed(window_ts, "stream ended".to_owned())
}

/// The event where no tick has come for too long. None before that, and none where the
/// prices are marked as stale already.
pub fn check_stale(window_ts: u64, prices: &MarketPrices, silent_ms: u64) -> (r: Option<AppEvent>)
    ensures
        r is Some <==> silent_ms > STALE_TIMEOUT_MS && !prices@.stale,
        r is Some <==> silent_ms > 5_000 && !prices@.stale,
        r is Some ==> r->0@ == feed_status(window_ts, false, true, None),
{
    if silent_ms > STALE_TIMEOUT_MS && !prices.stale {
        Some(AppEvent::FeedStatusChanged { window_ts, connected: false, stale: true, error: None })
    } else {
        None
    }
}

/// A trade price becomes a tick exactly where it is newer than the last one and of one of the
/// window's two assets. The tick carries the price for the asset that traded, the last known price
/// for the other, and the time of the trade.
pub proof fn law_trade_price_becomes_a_tick(
    window_ts: u64,
    prices: PricesView,
    asset: Seq<char>,
    price: Double,
    ts: u64,
)
    ensures
        ({
            let event = tick_event(window_ts, prices, asset, price, ts);
            let is_up = asset == prices.up_asset_id;
            let is_down = asset == prices.down_asset_id;
            &&& event is Some <==> ts > prices.last_ts && (is_up || is_down)
            &&& event is Some && is_up ==> event->0 == (EventView::PriceTick {
                window_ts,
                up_price: price,
                down_price: prices.down_price,
                last_ts: ts,
            })
            &&& event is Some && !is_up ==> event->0 == (EventView::PriceTick {
                window_ts,
                up_price: prices.up_price,
                down_price: price,
                last_ts: ts,
            })
        }),
{
}

/// A new feed has a number and prices to come, zero, stale and not connected. Once its assets are
/// known the prices are still to come, and a window that is gone stays gone. No other window, no
/// order and no trade is touched.
pub proof fn law_feed_starts_without_prices(
    s: StateView,
    window_ts: u64,
    feed: u64,
    up: Seq<char>,
    down: Seq<char>,
    other: u64,
)
    requires
        other != window_ts,
    ensures
        ({
            let a = with_feed(s, window_ts, feed);
            let b = with_assets(s, window_ts, up, down);
            let there = s.market_prices.contains_key(window_ts);
            &&& a.market_feeds.contains_key(window_ts) && a.market_feeds[window_ts] == feed
            &&& a.market_prices.contains_key(window_ts) && a.market_prices[window_ts].stale
                && !a.market_prices[window_ts].connected && a.market_prices[window_ts].last_ts == 0
            &&& !there ==> b == s
            &&& there ==> b.market_prices[window_ts].up_asset_id == up
                && b.market_prices[window_ts].down_asset_id == down
                && b.market_prices[window_ts].last_ts == 0
            &&& b.market_prices.contains_key(window_ts) <==> there
            &&& a.market_prices.contains_key(other) <==> s.market_prices.contains_key(other)
            &&& b.market_prices.contains_key(other) <==> s.market_prices.contains_key(other)
            &&& s.market_prices.contains_key(other) ==> a.market_prices[other]
                == s.market_prices[other] && b.market_prices[other] == s.market_prices[other]
            &&& a.orders == s.orders && b.orders == s.orders && a.trades == s.trades && b.trades
                == s.trades && b.market_feeds == s.market_feeds
            &&& a.version == s.version && b.version == s.version
        }),
{
}

/// A silent feed is looked at ten times before its prices are stale.
pub proof fn law_silence_is_noticed_in_time()
    ensures
        STALE_CHECK_INTERVAL_MS == 500,
        STALE_TIMEOUT_MS == 10 * STALE_CHECK_INTERVAL_MS,
{
}

} // verus!

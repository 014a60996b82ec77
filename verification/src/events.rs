//! # Events
//!
//! Everything that changes the shared state is an [`AppEvent`]. The feed, the polling
//! loops, the rapid-sell loop, the window clock and the command handler produce events;
//! [`crate::reducer::apply`] consumes them.

use vstd::prelude::*;
use crate::double::Double;
use crate::state::{
    LocalOrderStatus, NotificationKind, RapidSellState, RapidSellView, StatusView, Trade, TradeView,
};
use crate::text;

verus! {

#[derive(Debug, Clone)]
pub enum AppEvent {
    /// A new five-minute window has opened; its feed is already registered.
    WindowOpened { window_ts: u64, slug: String },
    /// The user closed a window.
    WindowClosed { window_ts: u64 },
    /// A price arrived. The reducer drops it where it is not newer than the last one.
    PriceTick { window_ts: u64, up_price: Double, down_price: Double, last_ts: u64 },
    /// The feed's connection changed.
    FeedStatusChanged { window_ts: u64, connected: bool, stale: bool, error: Option<String> },
    /// An order was placed.
    OrderPlaced {
        order_id: String,
        window_ts: u64,
        side: String,
        token: String,
        price: String,
        size: String,
        rapid_sell_price: String,
        inline_sell_price: String,
    },
    /// An order's status changed.
    OrderStatusUpdated {
        order_id: String,
        status: LocalOrderStatus,
        size_matched: String,
        executed_price: Option<String>,
        executed_size: Option<String>,
        is_trade_fully_confirmed: bool,
        associate_trades: Vec<String>,
    },
    /// An order was cancelled.
    OrderCancelled { order_id: String },
    /// A trade of the current window arrived.
    TradeReceived { trade: Trade },
    /// The automatic sale of an order moved on. The first step, from idle to in flight, is
    /// no event: it is taken in place, so that no order is sold twice.
    RapidSellStateChanged { order_id: String, new_state: RapidSellState },
    /// The automatic sale of an order placed a sell order.
    RapidSellOrderPlaced {
        parent_order_id: String,
        sell_order_id: String,
        sell_amount: String,
        window_ts: u64,
        token: String,
        price: String,
    },
    /// A message for the user; it is not part of the state.
    Notify { message: String, kind: NotificationKind },
}

/// The mathematical value of an [`AppEvent`].
pub enum EventView {
    WindowOpened { window_ts: u64, slug: Seq<char> },
    WindowClosed { window_ts: u64 },
    PriceTick { window_ts: u64, up_price: Double, down_price: Double, last_ts: u64 },
    FeedStatusChanged { window_ts: u64, connected: bool, stale: bool, error: Option<Seq<char>> },
    OrderPlaced {
        order_id: Seq<char>,
        window_ts: u64,
        side: Seq<char>,
        token: Seq<char>,
        price: Seq<char>,
        size: Seq<char>,
        rapid_sell_price: Seq<char>,
        inline_sell_price: Seq<char>,
    },
    OrderStatusUpdated {
        order_id: Seq<char>,
        status: StatusView,
        size_matched: Seq<char>,
        executed_price: Option<Seq<char>>,
        executed_size: Option<Seq<char>>,
        is_trade_fully_confirmed: bool,
        associate_trades: Seq<Seq<char>>,
    },
    OrderCancelled { order_id: Seq<char> },
    TradeReceived { trade: TradeView },
    RapidSellStateChanged { order_id: Seq<char>, new_state: RapidSellView },
    RapidSellOrderPlaced {
        parent_order_id: Seq<char>,
        sell_order_id: Seq<char>,
        sell_amount: Seq<char>,
        window_ts: u64,
        token: Seq<char>,
        price: Seq<char>,
    },
    Notify { message: Seq<char>, kind: NotificationKind },
}

impl View for AppEvent {
    type V = EventView;

    open spec fn view(&self) -> EventView {
        match *self {
            AppEvent::WindowOpened { window_ts, slug } => EventView::WindowOpened {
                window_ts,
                slug: slug@,
            },
            AppEvent::WindowClosed { window_ts } => EventView::WindowClosed { window_ts },
            AppEvent::PriceTick { window_ts, up_price, down_price, last_ts } => {
                EventView::PriceTick { window_ts, up_price, down_price, last_ts }
            },
            AppEvent::FeedStatusChanged { window_ts, connected, stale, error } => {
                EventView::FeedStatusChanged {
                    window_ts,
                    connected,
                    stale,
                    error: text::opt_text(error),
                }
            },
            AppEvent::OrderPlaced {
                order_id,
                window_ts,
                side,
                token,
                price,
                size,
                rapid_sell_price,
                inline_sell_price,
            } => EventView::OrderPlaced {
                order_id: order_id@,
                window_ts,
                side: side@,
                token: token@,
                price: price@,
                size: size@,
                rapid_sell_price: rapid_sell_price@,
                inline_sell_price: inline_sell_price@,
            },
            AppEvent::OrderStatusUpdated {
                order_id,
                status,
                size_matched,
                executed_price,
                executed_size,
                is_trade_fully_confirmed,
                associate_trades,
            } => EventView::OrderStatusUpdated {
                order_id: order_id@,
                status: status@,
                size_matched: size_matched@,
                executed_price: text::opt_text(executed_price),
                executed_size: text::opt_text(executed_size),
                is_trade_fully_confirmed,
                associate_trades: text::texts(associate_trades@),
            },
            AppEvent::OrderCancelled { order_id } => EventView::OrderCancelled {
                order_id: order_id@,
            },
            AppEvent::TradeReceived { trade } => EventView::TradeReceived { trade: trade@ },
            AppEvent::RapidSellStateChanged { order_id, new_state } => {
                EventView::RapidSellStateChanged { order_id: order_id@, new_state: new_state@ }
            },
            AppEvent::RapidSellOrderPlaced {
                parent_order_id,
                sell_order_id,
                sell_amount,
                window_ts,
                token,
                price,
            } => EventView::RapidSellOrderPlaced {
                parent_order_id: parent_order_id@,
                sell_order_id: sell_order_id@,
                sell_amount: sell_amount@,
                window_ts,
                token: token@,
                price: price@,
            },
            AppEvent::Notify { message, kind } => EventView::Notify { message: message@, kind },
        }
    }
}

/// The values of a list of events.
pub open spec fn event_views(list: Seq<AppEvent>) -> Seq<EventView> {
    Seq::new(list.len(), |i: int| list[i]@)
}

/// A list of events is read event by event.
pub proof fn law_events_are_read_one_by_one(list: Seq<AppEvent>, i: int)
    ensures
        event_views(list).len() == list.len(),
        0 <= i < list.len() ==> event_views(list)[i] == list[i]@,
{
}

/// What is read of an event is what it says: its kind, and every one of its parts.
pub proof fn law_event_is_read_in_full(event: AppEvent)
    ensures
        match event {
            AppEvent::WindowOpened { window_ts: w, slug: s } => (event@ matches EventView::WindowOpened {
                window_ts,
                slug,
            } && window_ts == w && slug == s@),
            AppEvent::WindowClosed { window_ts: w } => (event@ matches EventView::WindowClosed {
                window_ts,
            } && window_ts == w),
            AppEvent::PriceTick { window_ts: w, up_price: u, down_price: d, last_ts: t } => (
            event@ matches EventView::PriceTick { window_ts, up_price, down_price, last_ts }
                && window_ts == w && up_price == u && down_price == d && last_ts == t),
            AppEvent::FeedStatusChanged { window_ts: w, connected: c, stale: s, error: e } => (
            event@ matches EventView::FeedStatusChanged { window_ts, connected, stale, error }
                && window_ts == w && connected == c && stale == s && (error is Some <==> e is Some)
                && (e is Some ==> error->0 == e->0@)),
            AppEvent::OrderPlaced {
                order_id: o,
                window_ts: w,
                side: s,
                token: t,
                price: p,
                size: z,
                rapid_sell_price: r,
                inline_sell_price: n,
            } => (event@ matches EventView::OrderPlaced {
                order_id,
                window_ts,
                side,
                token,
                price,
                size,
                rapid_sell_price,
                inline_sell_price,
            } && order_id == o@ && window_ts == w && side == s@ && token == t@ && price == p@ && size
                == z@ && rapid_sell_price == r@ && inline_sell_price == n@),
            AppEvent::OrderStatusUpdated {
                order_id: o,
                status: s,
                size_matched: m,
                executed_price: p,
                executed_size: z,
                is_trade_fully_confirmed: c,
                associate_trades: a,
            } => (event@ matches EventView::OrderStatusUpdated {
                order_id,
                status,
                size_matched,
                executed_price,
                executed_size,
                is_trade_fully_confirmed,
                associate_trades,
            } && order_id == o@ && status == s@ && size_matched == m@ && (executed_price is Some <==> p is
                Some) && (p is Some ==> executed_price->0 == p->0@) && (executed_size is Some <==> z is
                Some) && (z is Some ==> executed_size->0 == z->0@) && is_trade_fully_confirmed == c
                && associate_trades.len() == a@.len() && (forall|i: int|
                0 <= i < a@.len() ==> #[trigger] associate_trades[i] == a@[i]@)),
            AppEvent::OrderCancelled { order_id: o } => (event@ matches EventView::OrderCancelled {
                order_id,
            } && order_id == o@),
            AppEvent::TradeReceived { trade: t } => (event@ matches EventView::TradeReceived { trade }
                && trade == t@),
            AppEvent::RapidSellStateChanged { order_id: o, new_state: n } => (
            event@ matches EventView::RapidSellStateChanged { order_id, new_state } && order_id == o@
                && new_state == n@),
            AppEvent::RapidSellOrderPlaced {
                parent_order_id: o,
                sell_order_id: s,
                sell_amount: a,
                window_ts: w,
                token: t,
                price: p,
            } => (event@ matches EventView::RapidSellOrderPlaced {
                parent_order_id,
                sell_order_id,
                sell_amount,
                window_ts,
                token,
                price,
            } && parent_order_id == o@ && sell_order_id == s@ && sell_amount == a@ && window_ts == w
                && token == t@ && price == p@),
            AppEvent::Notify { message: m, kind: k } => (event@ matches EventView::Notify {
                message,
                kind,
            } && message == m@ && kind == k),
        },
{
}

} // verus!

//! # State reducer
//!
//! [`apply`] is the sole writer of [`crate::state::AppState`]. It returns whether the event
//! changed the state, so that the screen is drawn again only where it has to be.

use vstd::prelude::*;
use crate::decimal;
use crate::decimal::{add_decimals, decimal_below, print_decimal, read_amount, remaining_amount, Dec};
use crate::events::{AppEvent, EventView};
use crate::state::{
    AppState, LocalOrderStatus, MarketPrices, OrderView, PricesView, RapidSellState, RapidSellView, StateView,
    StatusView, TrackedOrder,
};
use crate::tables;
use crate::text;
use crate::text::{copy_opt_text, copy_texts};

verus! {

/// An order as it stands once it is placed: open, and nothing of it traded.
pub open spec fn fresh_order(
    id: Seq<char>,
    window_ts: u64,
    side: Seq<char>,
    token: Seq<char>,
    price: Seq<char>,
    size: Seq<char>,
    rapid_sell_price: Seq<char>,
    inline_sell_price: Seq<char>,
) -> OrderView {
    OrderView {
        id,
        side,
        token,
        price,
        size,
        executed_price: None,
        executed_size: None,
        status: StatusView::Open,
        size_matched: "0"@,
        inline_sell_price,
        inline_sell_size: "0"@,
        inline_sell_market_type: "FAK"@,
        rapid_sell_price,
        rapid_sell_size: "0"@,
        rapid_sell_state: RapidSellView::Idle,
        is_trade_fully_confirmed: false,
        associate_trades: Seq::empty(),
        window_ts,
    }
}

/// The smallest size that is sold automatically.
pub open spec fn sale_minimum() -> Dec {
    Dec { mantissa: 5, scale: 0 }
}

/// All that has been sold of an order, once `amount` more of it has.
pub open spec fn sale_total(order: OrderView, amount: Seq<char>) -> Option<Dec> {
    decimal::decimal_sum(
        decimal::amount_of(order.rapid_sell_size),
        decimal::amount_of(amount),
    )
}

/// What is then left of the fill.
pub open spec fn sale_rest(order: OrderView, amount: Seq<char>) -> Option<Dec> {
    match sale_total(order, amount) {
        Some(total) => decimal::remainder_of(decimal::amount_of(order.size_matched), total),
        None => None,
    }
}

/// The order with `amount` more of it sold: ready for another sale where the rest is
/// large enough, and else done.
pub open spec fn with_sale(order: OrderView, amount: Seq<char>) -> OrderView {
    OrderView {
        rapid_sell_size: decimal::decimal_text(sale_total(order, amount)->0),
        rapid_sell_state: if sale_rest(order, amount)->0.below(sale_minimum()) {
            RapidSellView::Completed
        } else {
            RapidSellView::Idle
        },
        ..order
    }
}

/// The order with what a status update says of it.
pub open spec fn with_status(
    order: OrderView,
    status: StatusView,
    size_matched: Seq<char>,
    executed_price: Option<Seq<char>>,
    executed_size: Option<Seq<char>>,
    is_trade_fully_confirmed: bool,
    associate_trades: Seq<Seq<char>>,
) -> OrderView {
    OrderView {
        status,
        size_matched,
        executed_price,
        executed_size,
        is_trade_fully_confirmed,
        associate_trades,
        inline_sell_price: match executed_price {
            Some(price) => price,
            None => order.inline_sell_price,
        },
        inline_sell_size: match executed_size {
            Some(size) => size,
            None => order.inline_sell_size,
        },
        ..order
    }
}

/// The trades of the orders of a window.
pub open spec fn trades_of_window(s: StateView, window_ts: u64) -> Set<Seq<char>> {
    Set::new(
        |trade: Seq<char>|
            exists|id: Seq<char>| #[trigger]
                s.orders.contains_key(id) && s.orders[id].window_ts == window_ts
                    && s.orders[id].associate_trades.contains(trade),
    )
}

/// The orders of a window.
pub open spec fn orders_of_window(s: StateView, window_ts: u64) -> Set<Seq<char>> {
    Set::new(|id: Seq<char>| s.orders.contains_key(id) && s.orders[id].window_ts == window_ts)
}

/// Whether an event changes the state.
pub open spec fn dirties(s: StateView, event: EventView) -> bool {
    match event {
        EventView::PriceTick { window_ts, last_ts, .. } => s.market_prices.contains_key(window_ts)
            && last_ts > s.market_prices[window_ts].last_ts,
        EventView::FeedStatusChanged { window_ts, .. } => s.market_prices.contains_key(window_ts),
        EventView::OrderStatusUpdated { order_id, .. } => s.orders.contains_key(order_id),
        EventView::OrderCancelled { order_id } => s.orders.contains_key(order_id),
        EventView::RapidSellStateChanged { order_id, .. } => s.orders.contains_key(order_id),
        EventView::Notify { .. } => false,
        _ => true,
    }
}

/// The orders once the automatic sale of `parent` has placed the order `child`.
pub open spec fn orders_after_sale(
    orders: Map<Seq<char>, OrderView>,
    parent: Seq<char>,
    child: OrderView,
    amount: Seq<char>,
) -> Map<Seq<char>, OrderView> {
    let placed = orders.insert(child.id, child);
    if placed.contains_key(parent) {
        placed.insert(parent, with_sale(placed[parent], amount))
    } else {
        placed
    }
}

/// The state once an event that changes it has been applied.
pub open spec fn reduce(s: StateView, event: EventView) -> StateView {
    match event {
        EventView::WindowOpened { .. } => s.touched(),
        EventView::WindowClosed { window_ts } => StateView {
            market_feeds: s.market_feeds.remove(window_ts),
            market_prices: s.market_prices.remove(window_ts),
            orders: s.orders.remove_keys(orders_of_window(s, window_ts)),
            trades: s.trades.remove_keys(trades_of_window(s, window_ts)),
            ..s
        }.touched(),
        EventView::PriceTick { window_ts, up_price, down_price, last_ts } => StateView {
            market_prices: s.market_prices.insert(
                window_ts,
                PricesView {
                    up_price,
                    down_price,
                    last_ts,
                    connected: true,
                    stale: false,
                    error: None,
                    ..s.market_prices[window_ts]
                },
            ),
            ..s
        }.touched(),
        EventView::FeedStatusChanged { window_ts, connected, stale, error } => StateView {
            market_prices: s.market_prices.insert(
                window_ts,
                PricesView { connected, stale, error, ..s.market_prices[window_ts] },
            ),
            ..s
        }.touched(),
        EventView::OrderPlaced {
            order_id,
            window_ts,
            side,
            token,
            price,
            size,
            rapid_sell_price,
            inline_sell_price,
        } => StateView {
            orders: s.orders.insert(
                order_id,
                fresh_order(
                    order_id,
                    window_ts,
                    side,
                    token,
                    price,
                    size,
                    rapid_sell_price,
                    inline_sell_price,
                ),
            ),
            ..s
        }.touched(),
        EventView::OrderStatusUpdated {
            order_id,
            status,
            size_matched,
            executed_price,
            executed_size,
            is_trade_fully_confirmed,
            associate_trades,
        } => StateView {
            orders: s.orders.insert(
                order_id,
                with_status(
                    s.orders[order_id],
                    status,
                    size_matched,
                    executed_price,
                    executed_size,
                    is_trade_fully_confirmed,
                    associate_trades,
                ),
            ),
            ..s
        }.touched(),
        EventView::OrderCancelled { order_id } => StateView {
            orders: s.orders.insert(
                order_id,
                OrderView { status: StatusView::Canceled, ..s.orders[order_id] },
            ),
            ..s
        }.touched(),
        EventView::TradeReceived { trade } => StateView {
            trades: s.trades.insert(trade.id, trade),
            ..s
        }.touched(),
        EventView::RapidSellStateChanged { order_id, new_state } => StateView {
            orders: s.orders.insert(
                order_id,
                OrderView { rapid_sell_state: new_state, ..s.orders[order_id] },
            ),
            ..s
        }.touched(),
        EventView::RapidSellOrderPlaced {
            parent_order_id,
            sell_order_id,
            sell_amount,
            window_ts,
            token,
            price,
        } => StateView {
            orders: orders_after_sale(
                s.orders,
                parent_order_id,
                fresh_order(
                    sell_order_id,
                    window_ts,
                    "sell"@,
                    token,
                    price,
                    sell_amount,
                    "0"@,
                    "0"@,
                ),
                sell_amount,
            ),
            ..s
        }.touched(),
        EventView::Notify { .. } => s,
    }
}

/// Whether the amounts that an event makes the reducer add up stay within the range of
/// amounts. Only a sale adds amounts up.
pub open spec fn applicable(s: StateView, event: EventView) -> bool {
    match event {
        EventView::RapidSellOrderPlaced {
            parent_order_id,
            sell_order_id,
            sell_amount,
            window_ts,
            token,
            price,
        } => {
            let child = fresh_order(
                sell_order_id,
                window_ts,
                "sell"@,
                token,
                price,
                sell_amount,
                "0"@,
                "0"@,
            );
            let placed = s.orders.insert(sell_order_id, child);
            placed.contains_key(parent_order_id) ==> sale_rest(
                placed[parent_order_id],
                sell_amount,
            ) is Some
        },
        _ => true,
    }
}

/// A new order.
fn make_order(
    id: &String,
    window_ts: u64,
    side: &str,
    token: &String,
    price: &String,
    size: &String,
    rapid_sell_price: &str,
    inline_sell_price: &str,
) -> (r: TrackedOrder)
    ensures
        r@ == fresh_order(
            id@,
            window_ts,
            side@,
            token@,
            price@,
            size@,
            rapid_sell_price@,
            inline_sell_price@,
        ),
{
    let r = TrackedOrder {
        id: id.clone(),
        side: side.to_owned(),
        token: token.clone(),
        price: price.clone(),
        size: size.clone(),
        executed_price: None,
        executed_size: None,
        status: LocalOrderStatus::Open,
        size_matched: "0".to_owned(),
        inline_sell_price: inline_sell_price.to_owned(),
        inline_sell_size: "0".to_owned(),
        inline_sell_market_type: "FAK".to_owned(),
        rapid_sell_price: rapid_sell_price.to_owned(),
        rapid_sell_size: "0".to_owned(),
        rapid_sell_state: RapidSellState::Idle,
        is_trade_fully_confirmed: false,
        associate_trades: Vec::new(),
        window_ts,
    };
    assert(r@.associate_trades =~= Seq::<Seq<char>>::empty());
    r
}

/// Adds `amount` to what has been sold of an order; nothing where the amounts leave their
/// range.
fn record_sale(order: TrackedOrder, amount: &str) -> (r: Option<TrackedOrder>)
    ensures
        r is Some <==> sale_rest(order@, amount@) is Some,
        r is Some ==> r->0@ == with_sale(order@, amount@),
{
    let before: Dec = read_amount(order.rapid_sell_size.as_str());
    let added: Dec = read_amount(amount);
    let total: Dec = match add_decimals(before, added) {
        Some(total) => total,
        None => return None,
    };
    let sold = print_decimal(total);
    let matched: Dec = read_amount(order.size_matched.as_str());
    let recorded: Dec = read_amount(sold.as_str());
    assert(recorded == total);
    let rest: Dec = match remaining_amount(matched, recorded) {
        Some(rest) => rest,
        None => return None,
    };
    let enough = !decimal_below(rest, Dec { mantissa: 5, scale: 0 });
    let mut order = order;
    order.rapid_sell_size = sold;
    order.rapid_sell_state = if enough { RapidSellState::Idle } else { RapidSellState::Completed };
    Some(order)
}


/// Removes the orders of a window and their trades.
fn close_window(state: &mut AppState, window_ts: u64)
    ensures
        final(state)@ == (StateView {
            orders: old(state)@.orders.remove_keys(orders_of_window(old(state)@, window_ts)),
            trades: old(state)@.trades.remove_keys(trades_of_window(old(state)@, window_ts)),
            ..old(state)@
        }),
{
    let ghost before = state@;
    let keys = tables::order_keys(&state.orders);
    let ghost ids = text::texts(keys@);
    // What the first `i` keys have taken out of the two tables.
    let ghost mut gone_orders: Set<Seq<char>> = Set::empty();
    let ghost mut gone_trades: Set<Seq<char>> = Set::empty();
    let mut i: usize = 0;
    while i < keys.len()
        invariant
            i <= keys.len(),
            ids == text::texts(keys@),
            ids.no_duplicates(),
            forall|id: Seq<char>| #[trigger] ids.contains(id) <==> before.orders.contains_key(id),
            forall|id: Seq<char>| #[trigger]
                gone_orders.contains(id) <==> exists|k: int|
                    0 <= k < i && #[trigger] ids[k] == id && before.orders[id].window_ts
                        == window_ts,
            forall|t: Seq<char>| #[trigger]
                gone_trades.contains(t) <==> exists|k: int|
                    0 <= k < i && before.orders[#[trigger] ids[k]].window_ts == window_ts
                        && before.orders[ids[k]].associate_trades.contains(t),
            state@ == (StateView {
                orders: before.orders.remove_keys(gone_orders),
                trades: before.trades.remove_keys(gone_trades),
                ..before
            }),
        decreases keys.len() - i,
    {
        let key = &keys[i];
        let ghost id = key@;
        proof {
            assert(ids[i as int] == id);
            assert(ids.contains(id));
            assert(!gone_orders.contains(id)) by {
                if gone_orders.contains(id) {
                    let k = choose|k: int|
                        0 <= k < i && #[trigger] ids[k] == id && before.orders[id].window_ts
                            == window_ts;
                    assert(ids[k] == ids[i as int]);
                }
            }
        }
        let ghost orders_before = gone_orders;
        let ghost trades_before = gone_trades;
        let in_window = match tables::get_order(&state.orders, key.as_str()) {
            Some(order) => order.window_ts == window_ts,
            None => false,
        };
        if in_window {
            if let Some(order) = tables::remove_order(&mut state.orders, key.as_str()) {
                proof {
                    gone_orders = gone_orders.insert(id);
                    assert(state@.orders =~= before.orders.remove_keys(gone_orders));
                }
                let ghost linked = text::texts(order.associate_trades@);
                let mut j: usize = 0;
                while j < order.associate_trades.len()
                    invariant
                        j <= order.associate_trades.len(),
                        linked == text::texts(order.associate_trades@),
                        forall|t: Seq<char>| #[trigger]
                            gone_trades.contains(t) <==> trades_before.contains(t) || exists|m: int|
                                0 <= m < j && #[trigger] linked[m] == t,
                        state@ == (StateView {
                            orders: before.orders.remove_keys(gone_orders),
                            trades: before.trades.remove_keys(gone_trades),
                            ..before
                        }),
                    decreases order.associate_trades.len() - j,
                {
                    let trade = &order.associate_trades[j];
                    tables::remove_trade(&mut state.trades, trade.as_str());
                    proof {
                        let ghost earlier = gone_trades;
                        gone_trades = gone_trades.insert(trade@);
                        assert(linked[j as int] == trade@);
                        assert(state@.trades =~= before.trades.remove_keys(gone_trades));
                        assert forall|t: Seq<char>| #[trigger]
                            gone_trades.contains(t) <==> trades_before.contains(t) || exists|m: int|
                                0 <= m < j + 1 && #[trigger] linked[m] == t by {
                            if gone_trades.contains(t) && t != trade@ {
                                assert(earlier.contains(t));
                            }
                        }
                    }
                    j = j + 1;
                }
                proof {
                    assert(linked == before.orders[id].associate_trades);
                }
            }
        }
        proof {
            let hit = before.orders[id].window_ts == window_ts;
            assert forall|other: Seq<char>| #[trigger]
                gone_orders.contains(other) <==> exists|k: int|
                    0 <= k < i + 1 && #[trigger] ids[k] == other && before.orders[other].window_ts
                        == window_ts by {
                if gone_orders.contains(other) {
                    if orders_before.contains(other) {
                        let k = choose|k: int|
                            0 <= k < i && #[trigger] ids[k] == other
                                && before.orders[other].window_ts == window_ts;
                        assert(ids[k] == other);
                    } else {
                        assert(ids[i as int] == other);
                    }
                }
                if exists|k: int|
                    0 <= k < i + 1 && #[trigger] ids[k] == other && before.orders[other].window_ts
                        == window_ts {
                    let k = choose|k: int|
                        0 <= k < i + 1 && #[trigger] ids[k] == other
                            && before.orders[other].window_ts == window_ts;
                    if k < i {
                        assert(orders_before.contains(other));
                    }
                }
            }
            assert forall|t: Seq<char>| #[trigger]
                gone_trades.contains(t) <==> exists|k: int|
                    0 <= k < i + 1 && before.orders[#[trigger] ids[k]].window_ts == window_ts
                        && before.orders[ids[k]].associate_trades.contains(t) by {
                if gone_trades.contains(t) {
                    if trades_before.contains(t) {
                        let k = choose|k: int|
                            0 <= k < i && before.orders[#[trigger] ids[k]].window_ts == window_ts
                                && before.orders[ids[k]].associate_trades.contains(t);
                        assert(ids[k] == ids[k]);
                    } else {
                        assert(before.orders[ids[i as int]].associate_trades.contains(t));
                    }
                }
                if exists|k: int|
                    0 <= k < i + 1 && before.orders[#[trigger] ids[k]].window_ts == window_ts
                        && before.orders[ids[k]].associate_trades.contains(t) {
                    let k = choose|k: int|
                        0 <= k < i + 1 && before.orders[#[trigger] ids[k]].window_ts == window_ts
                            && before.orders[ids[k]].associate_trades.contains(t);
                    if k < i {
                        assert(trades_before.contains(t));
                    }
                }
            }
        }
        i = i + 1;
    }
    proof {
        assert forall|id: Seq<char>|
            gone_orders.contains(id) <==> orders_of_window(before, window_ts).contains(id) by {
            if gone_orders.contains(id) {
                let k = choose|k: int|
                    0 <= k < i && #[trigger] ids[k] == id && before.orders[id].window_ts
                        == window_ts;
                assert(ids.contains(id));
            }
            if orders_of_window(before, window_ts).contains(id) {
                assert(ids.contains(id));
                let k = choose|k: int| 0 <= k < ids.len() && ids[k] == id;
                assert(ids[k] == id);
            }
        }
        assert(gone_orders =~= orders_of_window(before, window_ts));
        assert forall|t: Seq<char>|
            gone_trades.contains(t) <==> trades_of_window(before, window_ts).contains(t) by {
            if gone_trades.contains(t) {
                let k = choose|k: int|
                    0 <= k < i && before.orders[#[trigger] ids[k]].window_ts == window_ts
                        && before.orders[ids[k]].associate_trades.contains(t);
                assert(ids.contains(ids[k]));
                assert(before.orders.contains_key(ids[k]));
            }
            if trades_of_window(before, window_ts).contains(t) {
                let id = choose|id: Seq<char>| #[trigger]
                    before.orders.contains_key(id) && before.orders[id].window_ts == window_ts
                        && before.orders[id].associate_trades.contains(t);
                assert(ids.contains(id));
                let k = choose|k: int| 0 <= k < ids.len() && ids[k] == id;
                assert(ids[k] == id);
            }
        }
        assert(gone_trades =~= trades_of_window(before, window_ts));
    }
}

/// Replaces the order of that identifier, and notes the change.
fn replace_order(state: &mut AppState, id: &String, order: TrackedOrder)
    ensures
        final(state)@ == (StateView {
            orders: old(state)@.orders.insert(id@, order@),
            ..old(state)@
        }).touched(),
{
    tables::insert_order(&mut state.orders, id.clone(), order);
    state.touch();
}

/// Replaces the prices of a window, and notes the change.
fn replace_prices(state: &mut AppState, window_ts: u64, prices: MarketPrices)
    ensures
        final(state)@ == (StateView {
            market_prices: old(state)@.market_prices.insert(window_ts, prices@),
            ..old(state)@
        }).touched(),
{
    tables::insert_prices(&mut state.market_prices, window_ts, prices);
    state.touch();
}

/// Applies an event to the state. The result says whether the event changed it; where it
/// did not, the state is as it was.
pub fn apply(state: &mut AppState, event: &AppEvent) -> (dirty: bool)
    requires
        applicable(old(state)@, event@),
    ensures
        dirty == dirties(old(state)@, event@),
        dirty ==> final(state)@ == reduce(old(state)@, event@),
        !dirty ==> final(state)@ == old(state)@,
{
    match event {
        AppEvent::WindowOpened { .. } => {
            // The window's prices and feed are registered before the event is sent.
            state.touch();
            true
        },
        AppEvent::WindowClosed { window_ts } => {
            let ghost before = state@;
            tables::remove_feed(&mut state.market_feeds, *window_ts);
            tables::remove_prices(&mut state.market_prices, *window_ts);
            assert(orders_of_window(state@, *window_ts) =~= orders_of_window(before, *window_ts));
            assert(trades_of_window(state@, *window_ts) =~= trades_of_window(before, *window_ts));
            close_window(state, *window_ts);
            state.touch();
            true
        },
        AppEvent::PriceTick { window_ts, up_price, down_price, last_ts } => {
            match tables::get_prices(&state.market_prices, *window_ts) {
                None => false,
                Some(prices) => {
                    if *last_ts <= prices.last_ts {
                        return false;
                    }
                    let mut prices = prices;
                    prices.up_price = *up_price;
                    prices.down_price = *down_price;
                    prices.last_ts = *last_ts;
                    prices.connected = true;
                    prices.stale = false;
                    prices.error = None;
                    replace_prices(state, *window_ts, prices);
                    true
                },
            }
        },
        AppEvent::FeedStatusChanged { window_ts, connected, stale, error } => {
            match tables::get_prices(&state.market_prices, *window_ts) {
                None => false,
                Some(prices) => {
                    let mut prices = prices;
                    prices.connected = *connected;
                    prices.stale = *stale;
                    prices.error = copy_opt_text(error);
                    replace_prices(state, *window_ts, prices);
                    true
                },
            }
        },
        AppEvent::OrderPlaced {
            order_id,
            window_ts,
            side,
            token,
            price,
            size,
            rapid_sell_price,
            inline_sell_price,
        } => {
            let order = make_order(
                order_id,
                *window_ts,
                side.as_str(),
                token,
                price,
                size,
                rapid_sell_price.as_str(),
                inline_sell_price.as_str(),
            );
            replace_order(state, order_id, order);
            true
        },
        AppEvent::OrderStatusUpdated {
            order_id,
            status,
            size_matched,
            executed_price,
            executed_size,
            is_trade_fully_confirmed,
            associate_trades,
        } => {
            match tables::get_order(&state.orders, order_id.as_str()) {
                None => false,
                Some(order) => {
                    let mut order = order;
                    order.status = status.clone();
                    order.size_matched = size_matched.clone();
                    order.executed_price = copy_opt_text(executed_price);
                    order.executed_size = copy_opt_text(executed_size);
                    order.is_trade_fully_confirmed = *is_trade_fully_confirmed;
                    order.associate_trades = copy_texts(associate_trades);
                    // The fields of the exit desk follow the fill.
                    if let Some(price) = executed_price {
                        order.inline_sell_price = price.clone();
                    }
                    if let Some(size) = executed_size {
                        order.inline_sell_size = size.clone();
                    }
                    replace_order(state, order_id, order);
                    true
                },
            }
        },
        AppEvent::OrderCancelled { order_id } => {
            match tables::get_order(&state.orders, order_id.as_str()) {
                None => false,
                Some(order) => {
                    let mut order = order;
                    order.status = LocalOrderStatus::Canceled;
                    replace_order(state, order_id, order);
                    true
                },
            }
        },
        AppEvent::TradeReceived { trade } => {
            tables::insert_trade(&mut state.trades, trade.id.clone(), trade.clone());
            state.touch();
            true
        },
        AppEvent::RapidSellStateChanged { order_id, new_state } => {
            match tables::get_order(&state.orders, order_id.as_str()) {
                None => false,
                Some(order) => {
                    let mut order = order;
                    order.rapid_sell_state = new_state.clone();
                    replace_order(state, order_id, order);
                    true
                },
            }
        },
        AppEvent::RapidSellOrderPlaced {
            parent_order_id,
            sell_order_id,
            sell_amount,
            window_ts,
            token,
            price,
        } => {
            let child = make_order(
                sell_order_id,
                *window_ts,
                "sell",
                token,
                price,
                sell_amount,
                "0",
                "0",
            );
            tables::insert_order(&mut state.orders, sell_order_id.clone(), child);
            if let Some(parent) = tables::get_order(&state.orders, parent_order_id.as_str()) {
                if let Some(parent) = record_sale(parent, sell_amount.as_str()) {
                    tables::insert_order(&mut state.orders, parent_order_id.clone(), parent);
                }
            }
            state.touch();
            true
        },
        AppEvent::Notify { .. } => false,
    }
}

/// Whether the event can be applied: false only where a sale would add amounts up to more
/// than an amount can be.
pub fn can_apply(state: &AppState, event: &AppEvent) -> (r: bool)
    ensures
        r == applicable(state@, event@),
{
    match event {
        AppEvent::RapidSellOrderPlaced {
            parent_order_id,
            sell_order_id,
            sell_amount,
            window_ts,
            token,
            price,
        } => {
            let child = make_order(
                sell_order_id,
                *window_ts,
                "sell",
                token,
                price,
                sell_amount,
                "0",
                "0",
            );
            let parent = if *parent_order_id == *sell_order_id {
                Some(child)
            } else {
                tables::get_order(&state.orders, parent_order_id.as_str())
            };
            match parent {
                None => true,
                Some(parent) => record_sale(parent, sell_amount.as_str()).is_some(),
            }
        },
        _ => true,
    }
}

/// Applies an event, unless its amounts leave their range; then the state is as it was and
/// there is no answer.
pub fn try_apply(state: &mut AppState, event: &AppEvent) -> (r: Option<bool>)
    ensures
        r is Some <==> applicable(old(state)@, event@),
        r is Some ==> r->0 == dirties(old(state)@, event@),
        r == Some(true) ==> final(state)@ == reduce(old(state)@, event@),
        r != Some(true) ==> final(state)@ == old(state)@,
{
    if can_apply(state, event) {
        Some(apply(state, event))
    } else {
        None
    }
}

/// What the reducer makes of a state and an event: the new state, or the old one where the
/// event changes nothing.
pub open spec fn step(s: StateView, event: EventView) -> StateView {
    if dirties(s, event) { reduce(s, event) } else { s }
}

/// Whether the sizes that an event carries are amounts.
pub open spec fn event_wf(event: EventView) -> bool {
    match event {
        EventView::TradeReceived { trade } => trade.size.wf(),
        _ => true,
    }
}

/// Every event leaves each order and each trade under its own identifier.
pub proof fn law_step_keeps_identifiers(s: StateView, event: EventView)
    requires
        s.wf(),
        event_wf(event),
    ensures
        step(s, event).wf(),
{
}

/// The version moves on exactly where an event changes the state, and by one step.
pub proof fn law_version_counts_changes(s: StateView, event: EventView)
    ensures
        dirties(s, event) <==> step(s, event).version != s.version,
        dirties(s, event) ==> step(s, event).version == crate::state::next_version(s.version),
{
}

/// A notification changes nothing.
pub proof fn law_notification_changes_nothing(
    s: StateView,
    message: Seq<char>,
    kind: crate::state::NotificationKind,
)
    ensures
        step(s, EventView::Notify { message, kind }) == s,
{
}

/// An event about an order that is not there changes nothing.
pub proof fn law_unknown_order_changes_nothing(s: StateView, event: EventView, id: Seq<char>)
    requires
        !s.orders.contains_key(id),
        match event {
            EventView::OrderStatusUpdated { order_id, .. } => order_id == id,
            EventView::OrderCancelled { order_id } => order_id == id,
            EventView::RapidSellStateChanged { order_id, .. } => order_id == id,
            _ => false,
        },
    ensures
        step(s, event) == s,
{
}

/// The time of a window's last tick never goes back, whatever happens, as long as the
/// window is there.
pub proof fn law_tick_time_is_monotone(s: StateView, event: EventView, window_ts: u64)
    requires
        s.market_prices.contains_key(window_ts),
        step(s, event).market_prices.contains_key(window_ts),
    ensures
        step(s, event).market_prices[window_ts].last_ts >= s.market_prices[window_ts].last_ts,
{
}

/// A tick that comes a second time, or that is older than the last one, changes nothing.
pub proof fn law_late_tick_changes_nothing(
    s: StateView,
    window_ts: u64,
    first: u64,
    second: u64,
    up: crate::double::Double,
    down: crate::double::Double,
    late_up: crate::double::Double,
    late_down: crate::double::Double,
)
    requires
        second <= first,
    ensures
        ({
            let tick = EventView::PriceTick {
                window_ts,
                up_price: up,
                down_price: down,
                last_ts: first,
            };
            let late = EventView::PriceTick {
                window_ts,
                up_price: late_up,
                down_price: late_down,
                last_ts: second,
            };
            step(step(s, tick), late) == step(s, tick)
        }),
{
}

/// Closing a window removes its prices, its feed, its orders and the trades of those
/// orders, and nothing else.
pub proof fn law_closing_is_local(s: StateView, window_ts: u64)
    ensures
        ({
            let after = step(s, EventView::WindowClosed { window_ts });
            &&& !after.market_prices.contains_key(window_ts)
            &&& !after.market_feeds.contains_key(window_ts)
            &&& forall|other: u64|
                other != window_ts ==> #[trigger] after.market_prices.get(other)
                    == s.market_prices.get(other)
            &&& forall|other: u64|
                other != window_ts ==> #[trigger] after.market_feeds.get(other)
                    == s.market_feeds.get(other)
            &&& forall|id: Seq<char>| #[trigger]
                after.orders.contains_key(id) <==> s.orders.contains_key(id)
                    && s.orders[id].window_ts != window_ts
            &&& forall|id: Seq<char>| #[trigger]
                after.orders.contains_key(id) ==> after.orders[id] == s.orders[id]
            &&& forall|t: Seq<char>| #[trigger]
                after.trades.contains_key(t) <==> s.trades.contains_key(t)
                    && !trades_of_window(s, window_ts).contains(t)
            &&& forall|t: Seq<char>| #[trigger]
                after.trades.contains_key(t) ==> after.trades[t] == s.trades[t]
        }),
{
}

/// Closing a window a second time changes nothing but the version.
pub proof fn law_closing_twice(s: StateView, window_ts: u64)
    ensures
        ({
            let close = EventView::WindowClosed { window_ts };
            step(step(s, close), close) == step(s, close).touched()
        }),
{
    let close = EventView::WindowClosed { window_ts };
    let once = step(s, close);
    assert(orders_of_window(once, window_ts) =~= Set::empty());
    assert(trades_of_window(once, window_ts) =~= Set::empty());
    assert(once.market_prices.remove(window_ts) =~= once.market_prices);
    assert(once.market_feeds.remove(window_ts) =~= once.market_feeds);
    assert(once.orders.remove_keys(Set::empty()) =~= once.orders);
    assert(once.trades.remove_keys(Set::empty()) =~= once.trades);
}

/// A placed order is there afterwards, open and untraded, and no other order changes.
pub proof fn law_placed_order_is_there(
    s: StateView,
    order_id: Seq<char>,
    window_ts: u64,
    side: Seq<char>,
    token: Seq<char>,
    price: Seq<char>,
    size: Seq<char>,
    rapid_sell_price: Seq<char>,
    inline_sell_price: Seq<char>,
    other: Seq<char>,
)
    requires
        other != order_id,
    ensures
        ({
            let after = step(
                s,
                EventView::OrderPlaced {
                    order_id,
                    window_ts,
                    side,
                    token,
                    price,
                    size,
                    rapid_sell_price,
                    inline_sell_price,
                },
            );
            &&& after.orders.contains_key(order_id)
            &&& after.orders[order_id].status is Open
            &&& after.orders[order_id].window_ts == window_ts
            &&& after.orders[order_id].rapid_sell_state is Idle
            &&& after.orders.get(other) == s.orders.get(other)
        }),
{
}

/// A sale adds its amount to what the parent has sold, leaves the parent's fill as it is,
/// and leaves the parent ready for another sale exactly where at least the smallest amount
/// is left.
pub proof fn law_sale_is_recorded(
    s: StateView,
    parent: Seq<char>,
    child: Seq<char>,
    amount: Seq<char>,
    window_ts: u64,
    token: Seq<char>,
    price: Seq<char>,
)
    requires
        parent != child,
        s.orders.contains_key(parent),
        sale_rest(s.orders[parent], amount) is Some,
    ensures
        ({
            let sale = EventView::RapidSellOrderPlaced {
                parent_order_id: parent,
                sell_order_id: child,
                sell_amount: amount,
                window_ts,
                token,
                price,
            };
            let after = step(s, sale);
            &&& after.orders.contains_key(parent)
            &&& after.orders.contains_key(child)
            &&& after.orders[child].side == "sell"@
            &&& after.orders[child].size == amount
            &&& after.orders[parent].size_matched == s.orders[parent].size_matched
            &&& after.orders[parent].rapid_sell_size == decimal::decimal_text(
                sale_total(s.orders[parent], amount)->0,
            )
            &&& after.orders[parent].rapid_sell_state is Idle <==> !sale_rest(
                s.orders[parent],
                amount,
            )->0.below(sale_minimum())
        }),
{
}

/// An event changes the state exactly where there is something that it speaks of: a tick where the
/// window has prices and it is newer than their last, a change of the feed where the window has
/// prices, an update of an order where the order is there. A message never does, and every other
/// event does.
pub proof fn law_event_changes_what_is_there(s: StateView, event: EventView)
    ensures
        ({
            let noted = step(s, event).version != s.version;
            match event {
                EventView::PriceTick { window_ts, last_ts, .. } => noted
                    <==> s.market_prices.contains_key(window_ts)
                    && s.market_prices[window_ts].last_ts < last_ts,
                EventView::FeedStatusChanged { window_ts, .. } => noted
                    <==> s.market_prices.contains_key(window_ts),
                EventView::OrderStatusUpdated { order_id, .. } => noted <==> s.orders.contains_key(
                    order_id,
                ),
                EventView::OrderCancelled { order_id } => noted <==> s.orders.contains_key(order_id),
                EventView::RapidSellStateChanged { order_id, .. } => noted <==> s.orders.contains_key(
                    order_id,
                ),
                EventView::Notify { .. } => !noted,
                _ => noted,
            }
        }),
{
}

/// Whether two states have the same trades, prices and feeds, and the same orders but for one.
pub open spec fn same_but_order(a: StateView, b: StateView, id: Seq<char>) -> bool {
    &&& a.trades == b.trades && a.market_prices == b.market_prices && a.market_feeds
        == b.market_feeds
    &&& forall|other: Seq<char>|
        other != id ==> (#[trigger] a.orders.contains_key(other) <==> b.orders.contains_key(other))
    &&& forall|other: Seq<char>|
        other != id && a.orders.contains_key(other) ==> #[trigger] a.orders[other]
            == b.orders[other]
}

/// A status update is noted on its order: its status, its sizes, prices and trades are those of the
/// update, the fields of the exit desk follow what was executed, and nothing else changes.
pub proof fn law_status_update_is_noted(
    s: StateView,
    order_id: Seq<char>,
    status: StatusView,
    size_matched: Seq<char>,
    executed_price: Option<Seq<char>>,
    executed_size: Option<Seq<char>>,
    is_trade_fully_confirmed: bool,
    associate_trades: Seq<Seq<char>>,
)
    requires
        s.orders.contains_key(order_id),
    ensures
        ({
            let after = step(
                s,
                EventView::OrderStatusUpdated {
                    order_id,
                    status,
                    size_matched,
                    executed_price,
                    executed_size,
                    is_trade_fully_confirmed,
                    associate_trades,
                },
            );
            let was = s.orders[order_id];
            let now = after.orders[order_id];
            &&& after.orders.contains_key(order_id)
            &&& now.status == status
            &&& now.size_matched == size_matched
            &&& now.executed_price == executed_price && now.executed_size == executed_size
            &&& now.is_trade_fully_confirmed == is_trade_fully_confirmed
            &&& now.associate_trades == associate_trades
            &&& executed_price is Some ==> now.inline_sell_price == executed_price->0
            &&& executed_price is None ==> now.inline_sell_price == was.inline_sell_price
            &&& executed_size is Some ==> now.inline_sell_size == executed_size->0
            &&& executed_size is None ==> now.inline_sell_size == was.inline_sell_size
            &&& now.id == was.id && now.side == was.side && now.token == was.token && now.price
                == was.price && now.size == was.size && now.window_ts == was.window_ts
            &&& now.inline_sell_market_type == was.inline_sell_market_type
            &&& now.rapid_sell_price == was.rapid_sell_price && now.rapid_sell_size
                == was.rapid_sell_size && now.rapid_sell_state == was.rapid_sell_state
            &&& same_but_order(after, s, order_id)
        }),
{
}

/// A cancelled order is cancelled, and nothing else of it or of anything else changes.
pub proof fn law_cancellation_is_noted(s: StateView, order_id: Seq<char>)
    requires
        s.orders.contains_key(order_id),
    ensures
        ({
            let after = step(s, EventView::OrderCancelled { order_id });
            &&& after.orders.contains_key(order_id)
            &&& after.orders[order_id].status is Canceled
            &&& after.orders[order_id] == (OrderView {
                status: after.orders[order_id].status,
                ..s.orders[order_id]
            })
            &&& same_but_order(after, s, order_id)
        }),
{
}

/// A change of an order's automatic sale is noted on that order, and nothing else changes.
pub proof fn law_sale_state_is_noted(s: StateView, order_id: Seq<char>, new_state: RapidSellView)
    requires
        s.orders.contains_key(order_id),
    ensures
        ({
            let after = step(s, EventView::RapidSellStateChanged { order_id, new_state });
            &&& after.orders.contains_key(order_id)
            &&& after.orders[order_id].rapid_sell_state == new_state
            &&& after.orders[order_id] == (OrderView {
                rapid_sell_state: new_state,
                ..s.orders[order_id]
            })
            &&& same_but_order(after, s, order_id)
        }),
{
}

/// A placed order is there as it was asked for: open, with nothing of it matched, executed or sold,
/// and nothing else changes.
pub proof fn law_placed_order_is_as_asked(
    s: StateView,
    order_id: Seq<char>,
    window_ts: u64,
    side: Seq<char>,
    token: Seq<char>,
    price: Seq<char>,
    size: Seq<char>,
    rapid_sell_price: Seq<char>,
    inline_sell_price: Seq<char>,
)
    ensures
        ({
            let after = step(
                s,
                EventView::OrderPlaced {
                    order_id,
                    window_ts,
                    side,
                    token,
                    price,
                    size,
                    rapid_sell_price,
                    inline_sell_price,
                },
            );
            let now = after.orders[order_id];
            &&& after.orders.contains_key(order_id)
            &&& now.id == order_id && now.window_ts == window_ts
            &&& now.side == side && now.token == token && now.price == price && now.size == size
            &&& now.rapid_sell_price == rapid_sell_price && now.inline_sell_price
                == inline_sell_price
            &&& now.status is Open && now.rapid_sell_state is Idle
            &&& now.size_matched == "0"@ && now.rapid_sell_size == "0"@ && now.inline_sell_size
                == "0"@ && now.inline_sell_market_type == "FAK"@
            &&& now.executed_price is None && now.executed_size is None
            &&& !now.is_trade_fully_confirmed && now.associate_trades.len() == 0
            &&& same_but_order(after, s, order_id)
        }),
{
}

/// A trade that came in is there under its own identifier as it came, and nothing else changes.
pub proof fn law_trade_is_noted(s: StateView, trade: crate::state::TradeView)
    ensures
        ({
            let after = step(s, EventView::TradeReceived { trade });
            &&& after.trades.contains_key(trade.id)
            &&& after.trades[trade.id] == trade
            &&& forall|other: Seq<char>|
                other != trade.id ==> (#[trigger] after.trades.contains_key(other)
                    <==> s.trades.contains_key(other))
            &&& forall|other: Seq<char>|
                other != trade.id && s.trades.contains_key(other) ==> #[trigger] after.trades[other]
                    == s.trades[other]
            &&& after.orders == s.orders && after.market_prices == s.market_prices
                && after.market_feeds == s.market_feeds
        }),
{
}

/// A newer tick sets both prices and the time, and says that the feed is alive; the assets stay. A
/// change of the feed sets its state and leaves the prices and the time. Neither touches another
/// window, an order or a trade.
pub proof fn law_prices_are_noted(
    s: StateView,
    window_ts: u64,
    up_price: crate::double::Double,
    down_price: crate::double::Double,
    last_ts: u64,
    connected: bool,
    stale: bool,
    error: Option<Seq<char>>,
    other: u64,
)
    requires
        s.market_prices.contains_key(window_ts),
        s.market_prices[window_ts].last_ts < last_ts,
        other != window_ts,
    ensures
        ({
            let was = s.market_prices[window_ts];
            let tick = step(s, EventView::PriceTick { window_ts, up_price, down_price, last_ts });
            let feed = step(s, EventView::FeedStatusChanged { window_ts, connected, stale, error });
            let a = tick.market_prices[window_ts];
            let b = feed.market_prices[window_ts];
            &&& a.up_price == up_price && a.down_price == down_price && a.last_ts == last_ts
            &&& a.connected && !a.stale && a.error is None
            &&& a.up_asset_id == was.up_asset_id && a.down_asset_id == was.down_asset_id
            &&& b.connected == connected && b.stale == stale && b.error == error
            &&& b.up_price == was.up_price && b.down_price == was.down_price && b.last_ts
                == was.last_ts && b.up_asset_id == was.up_asset_id && b.down_asset_id
                == was.down_asset_id
            &&& tick.market_prices.contains_key(other) <==> s.market_prices.contains_key(other)
            &&& feed.market_prices.contains_key(other) <==> s.market_prices.contains_key(other)
            &&& s.market_prices.contains_key(other) ==> tick.market_prices[other]
                == s.market_prices[other] && feed.market_prices[other] == s.market_prices[other]
            &&& tick.orders == s.orders && feed.orders == s.orders
            &&& tick.trades == s.trades && feed.trades == s.trades
            &&& tick.market_feeds == s.market_feeds && feed.market_feeds == s.market_feeds
        }),
{
}

/// An opened window is only announced: nothing of the state changes but its version.
pub proof fn law_opening_is_only_announced(s: StateView, window_ts: u64, slug: Seq<char>)
    ensures
        ({
            let after = step(s, EventView::WindowOpened { window_ts, slug });
            after.orders == s.orders && after.trades == s.trades && after.market_prices
                == s.market_prices && after.market_feeds == s.market_feeds
        }),
{
}

/// A closed window takes with it exactly its own orders, and of the trades exactly those that such
/// an order lists.
pub proof fn law_closing_removes_its_orders_and_their_trades(
    s: StateView,
    window_ts: u64,
    id: Seq<char>,
    trade: Seq<char>,
)
    ensures
        ({
            let after = step(s, EventView::WindowClosed { window_ts });
            &&& after.orders.contains_key(id) <==> s.orders.contains_key(id)
                && s.orders[id].window_ts != window_ts
            &&& s.orders.contains_key(id) && s.orders[id].window_ts == window_ts
                && s.orders[id].associate_trades.contains(trade) ==> !after.trades.contains_key(
                trade,
            )
            &&& s.trades.contains_key(trade) && !after.trades.contains_key(trade) ==> exists|
                o: Seq<char>,
            | #[trigger]
                s.orders.contains_key(o) && s.orders[o].window_ts == window_ts
                    && s.orders[o].associate_trades.contains(trade)
        }),
{
}

/// Only a sale can be inapplicable, and only where what was sold of its order, with this sale, or
/// what is then left of the fill, is out of range.
pub proof fn law_only_a_sale_can_be_out_of_range(
    s: StateView,
    event: EventView,
    parent: Seq<char>,
    child: Seq<char>,
    amount: Seq<char>,
    window_ts: u64,
    token: Seq<char>,
    price: Seq<char>,
)
    requires
        parent != child,
    ensures
        !(event is RapidSellOrderPlaced) ==> applicable(s, event),
        ({
            let sale = EventView::RapidSellOrderPlaced {
                parent_order_id: parent,
                sell_order_id: child,
                sell_amount: amount,
                window_ts,
                token,
                price,
            };
            let order = s.orders[parent];
            let sold = decimal::decimal_sum(
                decimal::amount_of(order.rapid_sell_size),
                decimal::amount_of(amount),
            );
            &&& !s.orders.contains_key(parent) ==> applicable(s, sale)
            &&& s.orders.contains_key(parent) ==> (applicable(s, sale) <==> sold is Some
                && decimal::decimal_difference(
                decimal::amount_of(order.size_matched),
                sold->0,
            ) is Some)
        }),
{
}

/// A sale completes the order exactly where less than five are left of its fill; else the order is
/// idle again.
pub proof fn law_small_rest_completes_the_sale(order: OrderView, amount: Seq<char>)
    requires
        sale_rest(order, amount) is Some,
    ensures
        ({
            let sold = decimal::decimal_sum(
                decimal::amount_of(order.rapid_sell_size),
                decimal::amount_of(amount),
            )->0;
            let left = decimal::decimal_difference(decimal::amount_of(order.size_matched), sold)->0;
            let after = with_sale(order, amount);
            &&& after.rapid_sell_state is Completed <==> left.mantissa < 5 * decimal::pow10(
                left.scale as nat,
            )
            &&& after.rapid_sell_state is Completed || after.rapid_sell_state is Idle
            &&& after.rapid_sell_size == decimal::decimal_text(sold)
            &&& after == (OrderView {
                rapid_sell_state: after.rapid_sell_state,
                rapid_sell_size: after.rapid_sell_size,
                ..order
            })
        }),
{
    let sold = decimal::decimal_sum(
        decimal::amount_of(order.rapid_sell_size),
        decimal::amount_of(amount),
    )->0;
    let left = decimal::decimal_difference(decimal::amount_of(order.size_matched), sold)->0;
    decimal::lemma_pow10_positive(left.scale as nat);
    assert(decimal::pow10(0) == 1);
    assert(left.mantissa * 1 == left.mantissa && 0 * 1 == 0);
    assert(5 * decimal::pow10(0) == 5);
}

} // verus!

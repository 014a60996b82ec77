//! Events, the reducer, commands and the feeds of market prices.

use polybot::decimal::Dec;
use polybot::double::Double;
use polybot::events::AppEvent;
use polybot::market_data::{
    check_stale, register_feed, route_tick, store_assets, stream_ended, stream_failed, take_feed,
    tokens_ready, STALE_TIMEOUT_MS,
};
use polybot::messages::{Queue, UiCommand};
use polybot::reducer::{apply, can_apply, try_apply};
use polybot::state::{
    slug_for_ts, stamp_5m, AppState, LocalOrderStatus, MarketPrices, NotificationKind,
    RapidSellState, Trade, TradeStatus,
};
use polybot::worker::market_cache::{MarketCache, MarketInfo};
use polybot::worker::clock::{
    clock_step, poll_step, secs_until_next_window, timer_period, ClockAction,
};
use polybot::worker::commands::{
    cancel_all_events, cancel_events, initial_exit_price, limit_events, limit_terms, limit_token,
    market_events, market_terms, market_token, open_order_ids, parse_response, parse_side, plan_command,
    CancelReply, LimitRequest, MarketAmount, MarketRequest, OrderError, OrderReply,
    OrderType, PostOrderReply, Side, WorkerAction,
};

fn d(x: f64) -> Double {
    Double::from_bits(x.to_bits())
}

fn dec(mantissa: i128, scale: u32) -> Dec {
    Dec { mantissa, scale }
}

fn s(x: &str) -> String {
    x.to_string()
}

fn placed(id: &str, side: &str, window_ts: u64) -> AppEvent {
    AppEvent::OrderPlaced {
        order_id: s(id),
        window_ts,
        side: s(side),
        token: s("up"),
        price: s("0.50"),
        size: s("10"),
        rapid_sell_price: s("0.60"),
        inline_sell_price: s("0.60"),
    }
}

fn filled(id: &str, size: &str, trades: Vec<String>) -> AppEvent {
    AppEvent::OrderStatusUpdated {
        order_id: s(id),
        status: LocalOrderStatus::FullyFilled,
        size_matched: s(size),
        executed_price: Some(s("0.49")),
        executed_size: Some(s(size)),
        is_trade_fully_confirmed: false,
        associate_trades: trades,
    }
}

fn with_order(id: &str, side: &str, window_ts: u64) -> AppState {
    let mut state = AppState::new();
    assert!(apply(&mut state, &placed(id, side, window_ts)));
    state
}

fn messages(events: &[AppEvent]) -> Vec<(String, NotificationKind)> {
    events
        .iter()
        .filter_map(|e| match e {
            AppEvent::Notify { message, kind } => Some((message.clone(), *kind)),
            _ => None,
        })
        .collect()
}

#[test]
fn windows_start_every_five_minutes() {
    assert_eq!(stamp_5m(0), 0);
    assert_eq!(stamp_5m(299), 0);
    assert_eq!(stamp_5m(300), 300);
    assert_eq!(stamp_5m(1_700_000_123), 1_700_000_100);
    assert_eq!(slug_for_ts(1_700_000_100), "btc-updown-5m-1700000100");
}

#[test]
fn placed_order_is_there() {
    let state = with_order("a", "buy", 300);
    let o = state.order("a").unwrap();
    assert_eq!(o.id, "a");
    assert_eq!((o.side.as_str(), o.token.as_str()), ("buy", "up"));
    assert_eq!((o.price.as_str(), o.size.as_str()), ("0.50", "10"));
    assert_eq!((o.executed_price, o.executed_size), (None, None));
    assert!(matches!(o.status, LocalOrderStatus::Open));
    assert_eq!((o.size_matched.as_str(), o.inline_sell_size.as_str()), ("0", "0"));
    assert_eq!((o.inline_sell_price.as_str(), o.inline_sell_market_type.as_str()), ("0.60", "FAK"));
    assert_eq!((o.rapid_sell_price.as_str(), o.rapid_sell_size.as_str()), ("0.60", "0"));
    assert!(matches!(o.rapid_sell_state, RapidSellState::Idle));
    assert!(!o.is_trade_fully_confirmed);
    assert!(o.associate_trades.is_empty());
    assert_eq!(o.window_ts, 300);
    assert_eq!(state.version(), 1);
    assert_eq!(state.order_ids(), vec![s("a")]);
}

#[test]
fn fills_move_the_exit_fields() {
    let mut state = with_order("a", "buy", 300);
    assert!(apply(&mut state, &filled("a", "10", vec![s("t")])));
    let o = state.order("a").unwrap();
    assert!(matches!(o.status, LocalOrderStatus::FullyFilled));
    assert_eq!((o.inline_sell_price.as_str(), o.inline_sell_size.as_str()), ("0.49", "10"));
    assert_eq!(o.associate_trades, vec![s("t")]);
    assert!(apply(
        &mut state,
        &AppEvent::OrderStatusUpdated {
            order_id: s("a"),
            status: LocalOrderStatus::Open,
            size_matched: s("0"),
            executed_price: None,
            executed_size: None,
            is_trade_fully_confirmed: true,
            associate_trades: vec![],
        },
    ));
    let o = state.order("a").unwrap();
    assert_eq!((o.inline_sell_price.as_str(), o.inline_sell_size.as_str()), ("0.49", "10"));
    assert_eq!(o.executed_price, None);
    assert!(o.is_trade_fully_confirmed);
}

#[test]
fn unknown_orders_change_nothing() {
    let mut state = with_order("a", "buy", 300);
    assert!(!apply(&mut state, &filled("b", "1", vec![])));
    assert!(!apply(&mut state, &AppEvent::OrderCancelled { order_id: s("b") }));
    assert!(!apply(
        &mut state,
        &AppEvent::RapidSellStateChanged { order_id: s("b"), new_state: RapidSellState::Completed },
    ));
    assert!(!apply(
        &mut state,
        &AppEvent::Notify { message: s("hello"), kind: NotificationKind::Info },
    ));
    assert_eq!(state.version(), 1);
}

#[test]
fn cancelled_order_stays_in_the_list() {
    let mut state = with_order("a", "buy", 300);
    assert!(apply(&mut state, &AppEvent::OrderCancelled { order_id: s("a") }));
    assert!(matches!(state.order("a").unwrap().status, LocalOrderStatus::Canceled));
    assert!(state.pollable_orders().is_empty());
    assert_eq!(state.order_ids().len(), 1);
}

#[test]
fn closing_a_window_is_local() {
    let mut state = with_order("a", "buy", 300);
    apply(&mut state, &placed("b", "buy", 600));
    apply(&mut state, &filled("a", "10", vec![s("ta")]));
    apply(&mut state, &filled("b", "10", vec![s("tb")]));
    for id in ["ta", "tb"] {
        let trade = Trade { id: s(id), status: TradeStatus::Confirmed, size: dec(10, 0) };
        assert!(apply(&mut state, &AppEvent::TradeReceived { trade }));
    }
    register_feed(&mut state, 300, 1);
    register_feed(&mut state, 600, 2);
    assert!(apply(&mut state, &AppEvent::WindowClosed { window_ts: 300 }));
    assert!(state.order("a").is_none());
    assert!(state.order("b").is_some());
    assert!(state.prices(300).is_none());
    assert!(state.prices(600).is_some());
    assert_eq!(take_feed(&mut state, 300), None);
    assert_eq!(take_feed(&mut state, 600), Some(2));
    assert!(!state.trades.contains_key("ta"));
    assert!(state.trades.contains_key("tb"));
    // Closing it once more only counts.
    let version = state.version();
    assert!(apply(&mut state, &AppEvent::WindowClosed { window_ts: 300 }));
    assert_eq!(state.version(), version + 1);
    assert_eq!(state.order_ids(), vec![s("b")]);
}

#[test]
fn late_ticks_are_dropped() {
    let mut state = AppState::new();
    let tick = |ts: u64, up: f64| AppEvent::PriceTick {
        window_ts: 300,
        up_price: d(up),
        down_price: d(1.0 - up),
        last_ts: ts,
    };
    assert!(!apply(&mut state, &tick(5, 0.4)));
    register_feed(&mut state, 300, 1);
    assert!(apply(&mut state, &tick(5, 0.4)));
    assert!(!apply(&mut state, &tick(5, 0.9)));
    assert!(!apply(&mut state, &tick(4, 0.9)));
    assert!(apply(&mut state, &tick(6, 0.5)));
    let p = state.prices(300).unwrap();
    assert_eq!((p.up_price, p.down_price, p.last_ts), (d(0.5), d(0.5), 6));
    assert!(p.connected && !p.stale);
    assert_eq!(p.error, None);
}

#[test]
fn feed_status_is_shown() {
    let mut state = AppState::new();
    assert!(!apply(&mut state, &stream_ended(300)));
    let first = register_feed(&mut state, 300, 9);
    assert!(matches!(
        first,
        AppEvent::FeedStatusChanged { window_ts: 300, connected: false, stale: true, error: None }
    ));
    assert!(apply(&mut state, &stream_failed(300, s("boom"))));
    assert_eq!(state.prices(300).unwrap().error, Some(s("boom")));
    assert!(apply(&mut state, &stream_ended(300)));
    let p = state.prices(300).unwrap();
    assert_eq!(p.error, Some(s("stream ended")));
    assert!(p.stale && !p.connected);
}

#[test]
fn ticks_are_routed_by_asset() {
    assert!(!tokens_ready(&vec![s("1")]));
    assert!(tokens_ready(&vec![s("1"), s("2")]));
    let mut state = AppState::new();
    register_feed(&mut state, 300, 1);
    let e = store_assets(&mut state, 300, s("111"), s("222"));
    assert!(matches!(
        e,
        AppEvent::FeedStatusChanged { window_ts: 300, connected: true, stale: false, error: None }
    ));
    let p = state.prices(300).unwrap();
    assert_eq!((p.up_asset_id.as_str(), p.down_asset_id.as_str()), ("111", "222"));
    let up = route_tick(300, &p, "111", d(0.7), 10).unwrap();
    assert!(apply(&mut state, &up));
    let p = state.prices(300).unwrap();
    assert_eq!((p.up_price, p.down_price), (d(0.7), d(0.0)));
    let down = route_tick(300, &p, "222", d(0.2), 11).unwrap();
    assert!(apply(&mut state, &down));
    let p = state.prices(300).unwrap();
    assert_eq!((p.up_price, p.down_price), (d(0.7), d(0.2)));
    assert!(route_tick(300, &p, "333", d(0.2), 12).is_none());
    assert!(route_tick(300, &p, "111", d(0.2), 11).is_none());
}

#[test]
fn silence_makes_a_feed_stale_once() {
    let fresh = MarketPrices { stale: false, ..MarketPrices::default() };
    assert!(check_stale(300, &fresh, STALE_TIMEOUT_MS).is_none());
    assert!(matches!(
        check_stale(300, &fresh, STALE_TIMEOUT_MS + 1),
        Some(AppEvent::FeedStatusChanged { window_ts: 300, connected: false, stale: true, error: None })
    ));
    let stale = MarketPrices { stale: true, ..MarketPrices::default() };
    assert!(check_stale(300, &stale, STALE_TIMEOUT_MS + 1).is_none());
}

#[test]
fn sale_is_recorded_on_the_parent() {
    let mut state = with_order("a", "buy", 300);
    apply(&mut state, &filled("a", "12", vec![]));
    let sale = |id: &str, amount: &str| AppEvent::RapidSellOrderPlaced {
        parent_order_id: s("a"),
        sell_order_id: s(id),
        sell_amount: s(amount),
        window_ts: 300,
        token: s("up"),
        price: s("0.60"),
    };
    assert!(can_apply(&state, &sale("x", "6")));
    assert_eq!(try_apply(&mut state, &sale("x", "6")), Some(true));
    let parent = state.order("a").unwrap();
    assert_eq!(parent.rapid_sell_size, "6");
    assert!(matches!(parent.rapid_sell_state, RapidSellState::Idle));
    let child = state.order("x").unwrap();
    assert_eq!((child.side.as_str(), child.size.as_str(), child.rapid_sell_price.as_str()), ("sell", "6", "0"));
    assert_eq!(try_apply(&mut state, &sale("y", "2.5")), Some(true));
    let parent = state.order("a").unwrap();
    assert_eq!(parent.rapid_sell_size, "8.5");
    assert!(matches!(parent.rapid_sell_state, RapidSellState::Completed));
    let huge = "79228162514264337593543950335";
    assert!(!can_apply(&state, &sale("z", huge)));
    let version = state.version();
    assert_eq!(try_apply(&mut state, &sale("z", huge)), None);
    assert_eq!(state.version(), version);
}

#[test]
fn clock_wakes_after_the_boundary() {
    assert_eq!(secs_until_next_window(0), 302);
    assert_eq!(secs_until_next_window(299), 3);
    assert_eq!(clock_step(300, 300), ClockAction::Wait);
    assert_eq!(clock_step(300, 600), ClockAction::Switch { close_feed: 300, open: 600 });
    assert_eq!((timer_period(0), timer_period(7)), (1, 7));
    let step = poll_step(1_000, 1_000);
    assert_eq!((step.interval_ms, step.restart_timer, step.poll), (1_000, None, true));
    let off = poll_step(1_000, 0);
    assert_eq!((off.interval_ms, off.restart_timer, off.poll), (0, Some(1), false));
    assert_eq!(poll_step(0, 250).restart_timer, Some(250));
}

#[test]
fn sides_and_tokens() {
    assert_eq!(parse_side("BUY").unwrap(), Side::Buy);
    assert_eq!(parse_side("Sell").unwrap(), Side::Sell);
    assert_eq!(parse_side("hold").unwrap_err().message(), "invalid side 'hold'");
    let ids = vec![s("1"), s("2")];
    assert_eq!(limit_token("UP", &ids, "slug").unwrap(), "1");
    assert_eq!(limit_token("down", &ids, "slug").unwrap(), "2");
    assert_eq!(
        limit_token("side", &ids, "slug").unwrap_err().message(),
        "invalid token 'side'; must be 'up' or 'down'"
    );
    assert_eq!(limit_token("up", &vec![s("1")], "slug").unwrap_err().message(), "no token IDs for slug slug");
    assert_eq!(market_token("Up", &ids, "slug").unwrap(), "1");
    assert_eq!(market_token("DOWN", &ids, "slug").unwrap(), "2");
    assert_eq!(market_token("side", &ids, "slug").unwrap_err().message(), "invalid token 'side'");
    assert_eq!(market_token("up", &vec![], "x").unwrap_err().message(), "no token IDs for slug x");
}

#[test]
fn terms_of_a_limit_order() {
    let request = |side: &str, price: &str, size: &str| LimitRequest {
        side: s(side),
        token: s("up"),
        price: s(price),
        size: s(size),
    };
    let terms = limit_terms(&request("buy", "0.50", "10")).unwrap();
    assert_eq!((terms.price, terms.size, terms.side), (dec(50, 2), dec(10, 0), Side::Buy));
    assert!(matches!(limit_terms(&request("buy", "x", "10")), Err(OrderError::InvalidAmount(why)) if why == "Invalid decimal: unknown character"));
    assert!(matches!(limit_terms(&request("buy", "1", "")), Err(OrderError::InvalidAmount(why)) if why == "Invalid decimal: empty"));
    assert!(matches!(limit_terms(&request("z", "1", "1")), Err(OrderError::InvalidSide(a)) if a == "z"));
}

#[test]
fn terms_of_a_market_order() {
    let request = |usdc: Option<&str>, shares: Option<&str>, kind: Option<&str>| MarketRequest {
        side: s("sell"),
        token: s("up"),
        usdc: usdc.map(s),
        shares: shares.map(s),
        order_type: kind.map(s),
    };
    let t = market_terms(&request(Some("5.00"), Some("7"), Some("FAK"))).unwrap();
    assert_eq!((t.side, t.order_type), (Side::Sell, OrderType::Fak));
    assert_eq!(t.amount, MarketAmount::Usdc(dec(500, 2)));
    let t = market_terms(&request(None, Some("7"), Some("fak"))).unwrap();
    assert_eq!((t.order_type, t.amount), (OrderType::Fok, MarketAmount::Shares(dec(7, 0))));
    assert!(matches!(market_terms(&request(None, None, None)), Err(OrderError::MissingAmount)));
    assert_eq!(OrderError::MissingAmount.message(), "market order requires usdc or shares");
    let no_amount = market_terms(&request(Some("1.2.3"), None, None)).unwrap_err();
    assert_eq!(no_amount.message(), "Invalid decimal: two decimal points");
}

#[test]
fn replies_of_the_exchange() {
    let reply = |success: bool, error_msg: Option<&str>| PostOrderReply {
        success,
        error_msg: error_msg.map(s),
        order_id: s("id"),
    };
    assert_eq!(parse_response(reply(true, Some("x"))), Ok(s("id")));
    assert_eq!(parse_response(reply(false, Some("x"))), Err(s("Engine reject: x")));
    assert_eq!(parse_response(reply(false, None)), Err(s("Engine reject: Order rejected")));
}

#[test]
fn exit_price_of_a_new_order() {
    assert_eq!(initial_exit_price("0.75"), "0.75");
    assert_eq!(initial_exit_price("0.00"), "0.10");
    assert_eq!(initial_exit_price("-1"), "0.10");
    assert_eq!(initial_exit_price("x"), "0.10");
}

#[test]
fn events_of_a_limit_order() {
    let request = || LimitRequest { side: s("buy"), token: s("up"), price: s("0.5"), size: s("9") };
    let events = limit_events(request(), s("0"), 300, OrderReply::Placed(s("id")));
    assert_eq!(events.len(), 2);
    assert!(matches!(
        &events[0],
        AppEvent::OrderPlaced { order_id, window_ts: 300, rapid_sell_price, inline_sell_price, .. }
            if order_id == "id" && rapid_sell_price == "0" && inline_sell_price == "0.10"
    ));
    assert_eq!(messages(&events), vec![(s("Limit Order Placed"), NotificationKind::Success)]);
    let events = limit_events(request(), s("0"), 300, OrderReply::Rejected(s("no")));
    assert_eq!(messages(&events), vec![(s("Limit rejected: no"), NotificationKind::Error)]);
    let events = limit_events(request(), s("0"), 300, OrderReply::Failed(s("net")));
    assert_eq!(messages(&events), vec![(s("Limit transport error: net"), NotificationKind::Error)]);
}

#[test]
fn events_of_a_market_order() {
    let events = market_events(s("buy"), s("up"), 300, OrderReply::Placed(s("id")));
    assert!(matches!(
        &events[0],
        AppEvent::OrderPlaced { price, size, rapid_sell_price, inline_sell_price, .. }
            if price == "Market" && size == "Market" && rapid_sell_price == "0.00" && inline_sell_price == "0.50"
    ));
    assert_eq!(messages(&events), vec![(s("Market Order Placed"), NotificationKind::Success)]);
    let events = market_events(s("buy"), s("up"), 300, OrderReply::Rejected(s("no")));
    assert_eq!(messages(&events), vec![(s("Market rejected: no"), NotificationKind::Error)]);
    let events = market_events(s("buy"), s("up"), 300, OrderReply::Failed(s("net")));
    assert_eq!(messages(&events), vec![(s("Market transport error: net"), NotificationKind::Error)]);
}

#[test]
fn events_of_a_cancellation() {
    let answered = |canceled: Vec<&str>| CancelReply::Answered {
        canceled: canceled.into_iter().map(s).collect(),
        not_canceled: vec![(s("b"), s("too late"))],
    };
    let events = cancel_events(s("a"), &answered(vec!["a"]));
    assert!(matches!(&events[0], AppEvent::OrderCancelled { order_id } if order_id == "a"));
    assert_eq!(messages(&events), vec![(s("Order cancelled"), NotificationKind::Success)]);
    let events = cancel_events(s("b"), &answered(vec!["a"]));
    assert_eq!(messages(&events), vec![(s("Cancel rejected: too late"), NotificationKind::Error)]);
    let events = cancel_events(s("c"), &answered(vec!["a"]));
    assert_eq!(messages(&events), vec![(s("Cancel rejected: unknown reason"), NotificationKind::Error)]);
    let events = cancel_events(s("c"), &CancelReply::Failed(s("net")));
    assert_eq!(messages(&events), vec![(s("Cancel transport error: net"), NotificationKind::Error)]);

    let local = vec![s("a"), s("b")];
    let events = cancel_all_events(&local, &answered(vec!["x", "b"]));
    assert_eq!(events.len(), 2);
    assert!(matches!(&events[0], AppEvent::OrderCancelled { order_id } if order_id == "b"));
    assert_eq!(messages(&events), vec![(s("Batch cancel: 2 cancelled"), NotificationKind::Success)]);
    let events = cancel_all_events(&local, &CancelReply::Failed(s("net")));
    assert_eq!(messages(&events), vec![(s("Batch cancel error: net"), NotificationKind::Error)]);
}

#[test]
fn commands_become_actions() {
    let state = with_order("a", "buy", 300);
    assert!(matches!(
        plan_command(&state, UiCommand::InitializeClient { token: s("t") }),
        WorkerAction::Ignore
    ));
    assert!(matches!(
        plan_command(&state, UiCommand::UpdatePollInterval { milliseconds: 5, queue: Queue::Trades }),
        WorkerAction::SetInterval { queue: Queue::Trades, milliseconds: 5 }
    ));
    assert!(matches!(
        plan_command(&state, UiCommand::CheckStatus { order_id: s("a"), window_ts: 300 }),
        WorkerAction::QueryStatus { order_id } if order_id == "a"
    ));
    assert!(matches!(
        plan_command(&state, UiCommand::CancelIndividual { order_id: s("a"), window_ts: 300 }),
        WorkerAction::Cancel { order_id } if order_id == "a"
    ));
    assert!(matches!(
        plan_command(&state, UiCommand::CancelAllInWindow { window_ts: 300 }),
        WorkerAction::CancelAll { order_ids } if order_ids == vec![s("a")]
    ));
    assert!(matches!(
        plan_command(&state, UiCommand::CloseWindow { window_ts: 300 }),
        WorkerAction::Emit(AppEvent::WindowClosed { window_ts: 300 })
    ));
    assert!(open_order_ids(&state, 600).is_empty());
}

#[test]
fn open_orders_of_one_window_are_cancelled() {
    let mut state = with_order("a", "buy", 300);
    for (id, window_ts) in [("b", 300), ("c", 300), ("d", 300), ("e", 600)] {
        assert!(apply(&mut state, &placed(id, "buy", window_ts)));
    }
    apply(&mut state, &filled("b", "10", vec![]));
    apply(&mut state, &AppEvent::OrderCancelled { order_id: s("c") });
    let ids = |state: &AppState, window_ts: u64| match plan_command(state, UiCommand::CancelAllInWindow { window_ts }) {
        WorkerAction::CancelAll { mut order_ids } => {
            order_ids.sort();
            order_ids
        },
        _ => panic!("not a cancellation"),
    };
    assert_eq!(ids(&state, 300), vec![s("a"), s("d")]);
    assert_eq!(ids(&state, 600), vec![s("e")]);
    assert!(ids(&state, 900).is_empty());
}

#[test]
fn last_market_is_kept() {
    let info = |id: &str| MarketInfo {
        token_ids: Some(vec![format!("{id}-up"), format!("{id}-down")]),
        condition_id: Some(id.to_string()),
    };
    let mut cache = MarketCache::new();
    assert!(cache.get("a").is_none());
    cache.store("a".to_string(), info("x"));
    assert_eq!(cache.get("a").unwrap().tokens(), vec!["x-up".to_string(), "x-down".to_string()]);
    assert_eq!(cache.condition("a"), Some("x".to_string()));
    cache.store("b".to_string(), MarketInfo { token_ids: None, condition_id: None });
    assert!(cache.get("a").is_none());
    assert!(cache.get("b").unwrap().tokens().is_empty());
    assert_eq!(cache.condition("b"), None);
}

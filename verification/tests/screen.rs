//! The user interface: windows, messages, cards and consoles.

use polybot::decimal::Dec;
use polybot::double::Double;
use polybot::events::AppEvent;
use polybot::messages::{Queue, UiCommand};
use polybot::prediction::features::BtcFeatures;
use polybot::prediction::signals::{Note, PredictionSide, PredictionSignal, Reason, StrategyId};
use polybot::reducer::apply;
use polybot::state::{AppState, LocalOrderStatus, NotificationKind, TrackedOrder};
use polybot::ui::cards::{
    can_cancel, can_sell, cancel_order, card_tone, column_of, headline, limit_exit, market_exit,
    order_columns, tone_of_side, window_headline, CardTone, Column,
};
use polybot::ui::consoles::{LimitForm, MarketForm};
use polybot::ui::dashboard::{PolymarketDashboardApp, IDLE_REPAINT_MS};
use polybot::ui::intervals::{submit_interval, IntervalInputs, PollConfig};
use polybot::ui::ticker::{badge, btc_ticker, clock_text, time_remaining, urgency, Badge, Urgency};

fn s(x: &str) -> String {
    x.to_string()
}

fn d(x: f64) -> Double {
    Double::from_bits(x.to_bits())
}

fn dec(mantissa: i128, scale: u32) -> Dec {
    Dec { mantissa, scale }
}

fn config() -> PollConfig {
    PollConfig { orders: 1_000, trades: 2_000, rapid_sell: 0 }
}

fn place(state: &mut AppState, id: &str, side: &str, token: &str, window_ts: u64) {
    apply(
        state,
        &AppEvent::OrderPlaced {
            order_id: s(id),
            window_ts,
            side: s(side),
            token: s(token),
            price: s("0.50"),
            size: s("10"),
            rapid_sell_price: s("0"),
            inline_sell_price: s("0.60"),
        },
    );
}

fn order(side: &str, token: &str, status: LocalOrderStatus) -> TrackedOrder {
    let mut state = AppState::new();
    place(&mut state, "id", side, token, 300);
    let mut o = state.order("id").unwrap();
    o.status = status;
    o
}

#[test]
fn intervals_by_queue() {
    let mut c = config();
    c.set(Queue::Trades, 7);
    assert_eq!((c.get(Queue::Orders), c.get(Queue::Trades), c.get(Queue::RapidSell)), (1_000, 7, 0));
    let mut inputs = IntervalInputs::of_config(&c);
    assert_eq!((inputs.get(Queue::Orders), inputs.get(Queue::Trades), inputs.get(Queue::RapidSell)), ("1000", "7", "0"));
    inputs.get_mut(Queue::RapidSell).push('5');
    *inputs.get_mut(Queue::Orders) = s("x");
    assert_eq!((inputs.get(Queue::Orders), inputs.get(Queue::Trades), inputs.get(Queue::RapidSell)), ("x", "7", "05"));
}

#[test]
fn confirmed_intervals() {
    for (text, value) in [("250", 250), ("+7", 7), ("007", 7), ("0", 0), ("18446744073709551615", u64::MAX)] {
        let r = submit_interval("Orders", text, Queue::Orders);
        assert!(matches!(
            r.command,
            Some(UiCommand::UpdatePollInterval { milliseconds, queue: Queue::Orders }) if milliseconds == value
        ));
        assert_eq!(r.message, format!("Orders updated to {value} ms"));
        assert_eq!(r.kind, NotificationKind::Success);
    }
    for text in ["", "+", "-1", "1.5", "abc", " 1", "18446744073709551616"] {
        let r = submit_interval("Orders", text, Queue::Orders);
        assert!(r.command.is_none());
        assert_eq!((r.message.as_str(), r.kind), ("Invalid interval value", NotificationKind::Error));
    }
    // The number that a field shows at first is the one in force.
    let mut app = PolymarketDashboardApp::new(&config());
    assert!(app.limit.side_buy && app.limit.token_up);
    assert_eq!((app.limit.price.as_str(), app.limit.size.as_str(), app.limit.rapid_price.as_str()), ("0.50", "10", "0.00"));
    assert!(app.market.token_up && app.market.use_usdc && app.market.type_fok);
    assert_eq!((app.market.usdc.as_str(), app.market.shares.as_str()), ("5.00", "0"));
    let r = app.confirm_interval("Trades", Queue::Trades, 0);
    assert!(matches!(r.command, Some(UiCommand::UpdatePollInterval { milliseconds: 2_000, queue: Queue::Trades })));
    assert_eq!(app.notifications[0].message, "Trades updated to 2000 ms");
}

#[test]
fn messages_live_their_time() {
    let mut app = PolymarketDashboardApp::new(&config());
    app.push_toast(s("bad"), NotificationKind::Error, 1_000);
    app.push_toast(s("good"), NotificationKind::Success, 1_000);
    app.expire_toasts(4_999);
    assert_eq!(app.notifications.len(), 2);
    app.expire_toasts(5_000);
    assert_eq!(app.notifications.len(), 1);
    assert_eq!(app.notifications[0].message, "bad");
    app.expire_toasts(8_999);
    assert_eq!(app.notifications.len(), 1);
    app.expire_toasts(9_000);
    assert!(app.notifications.is_empty());
}

#[test]
fn windows_follow_the_events() {
    let mut app = PolymarketDashboardApp::new(&config());
    let mut state = AppState::new();
    let times = |app: &PolymarketDashboardApp| -> Vec<u64> { app.windows.iter().map(|w| w.timestamp_5m).collect() };
    for ts in [300, 600, 300] {
        let event = AppEvent::WindowOpened { window_ts: ts, slug: s("slug") };
        assert_eq!(app.receive(&mut state, &event, 0), Some(true));
    }
    assert_eq!(times(&app), vec![600, 300]);
    assert!(!app.ensure_window(600));
    assert!(app.ensure_window(900));
    assert_eq!(times(&app), vec![900, 600, 300]);
    let closed = AppEvent::WindowClosed { window_ts: 600 };
    assert_eq!(app.receive(&mut state, &closed, 0), Some(true));
    assert_eq!(times(&app), vec![900, 300]);
    let note = AppEvent::Notify { message: s("hi"), kind: NotificationKind::Info };
    assert_eq!(app.receive(&mut state, &note, 7), Some(false));
    assert_eq!(app.notifications[0].expires_at_ms, 4_007);
    let unknown = AppEvent::OrderCancelled { order_id: s("x") };
    assert_eq!(app.receive(&mut state, &unknown, 7), Some(false));
}

#[test]
fn waiting_events_are_taken_in_at_once() {
    let mut app = PolymarketDashboardApp::new(&config());
    let mut state = AppState::new();
    let note = |text: &str| AppEvent::Notify { message: s(text), kind: NotificationKind::Info };
    assert_eq!(app.receive_all(&mut state, &vec![], 0), Some(false));
    assert_eq!(app.receive_all(&mut state, &vec![note("a"), note("b")], 0), Some(false));
    let events = vec![
        AppEvent::WindowOpened { window_ts: 300, slug: s("slug") },
        AppEvent::WindowOpened { window_ts: 600, slug: s("slug") },
        AppEvent::WindowClosed { window_ts: 300 },
        note("c"),
    ];
    assert_eq!(app.receive_all(&mut state, &events, 0), Some(true));
    let messages: Vec<&str> = app.notifications.iter().map(|t| t.message.as_str()).collect();
    assert_eq!(messages, vec!["a", "b", "c"]);
    assert_eq!((app.windows.len(), app.windows[0].timestamp_5m), (1, 600));
    assert_eq!(state.version(), 3);
}

#[test]
fn event_that_cannot_be_applied_stops_the_rest() {
    let mut app = PolymarketDashboardApp::new(&config());
    let mut state = AppState::new();
    place(&mut state, "a", "buy", "up", 300);
    let sold = |amount: &str, id: &str| AppEvent::RapidSellOrderPlaced {
        parent_order_id: s("a"),
        sell_order_id: s(id),
        sell_amount: s(amount),
        window_ts: 300,
        token: s("up"),
        price: s("0.60"),
    };
    let largest = "79228162514264337593543950335";
    let events = vec![
        sold(largest, "b"),
        sold(largest, "c"),
        AppEvent::Notify { message: s("late"), kind: NotificationKind::Info },
    ];
    assert_eq!(app.receive_all(&mut state, &events, 0), None);
    assert!(state.order("b").is_some() && state.order("c").is_none());
    assert!(app.notifications.is_empty());
}

#[test]
fn orders_are_listed_under_their_window() {
    let mut app = PolymarketDashboardApp::new(&config());
    let mut state = AppState::new();
    app.ensure_window(300);
    app.windows[0].is_expanded = false;
    place(&mut state, "a", "buy", "up", 300);
    place(&mut state, "b", "buy", "up", 600);
    place(&mut state, "c", "buy", "up", 300);
    for _ in 0..2 {
        app.sync_window_order_ids(&state);
        assert_eq!(app.windows.len(), 2);
        assert_eq!((app.windows[0].timestamp_5m, app.windows[0].is_expanded), (300, false));
        let mut ids = app.windows[0].order_ids.clone();
        ids.sort();
        assert_eq!(ids, vec![s("a"), s("c")]);
        assert_eq!((app.windows[1].timestamp_5m, app.windows[1].is_expanded), (600, true));
        assert_eq!(app.windows[1].order_ids, vec![s("b")]);
    }
    apply(&mut state, &AppEvent::WindowClosed { window_ts: 300 });
    app.sync_window_order_ids(&state);
    assert!(app.windows[0].order_ids.is_empty());
}

#[test]
fn idle_screen_is_painted_four_times_a_second() {
    let mut app = PolymarketDashboardApp::new(&config());
    assert_eq!(app.schedule_repaint(0), Some(IDLE_REPAINT_MS));
    assert_eq!(app.schedule_repaint(3), None);
    assert_eq!(app.last_seen_version, 3);
    assert_eq!(app.schedule_repaint(3), Some(250));
    app.auto_refresh_active = false;
    assert_eq!(app.schedule_repaint(3), None);
    assert_eq!(app.schedule_repaint(9), None);
    assert_eq!(app.last_seen_version, 3);
}

#[test]
fn columns_of_orders() {
    assert_eq!(column_of(&order("BUY", "up", LocalOrderStatus::Open)), Column::Bought);
    assert_eq!(column_of(&order("Sell", "up", LocalOrderStatus::FullyFilled)), Column::Sold);
    assert_eq!(column_of(&order("swap", "up", LocalOrderStatus::Open)), Column::Others);
    assert_eq!(column_of(&order("buy", "up", LocalOrderStatus::Canceled)), Column::Others);
    assert_eq!(column_of(&order("buy", "up", LocalOrderStatus::Failed(s("x")))), Column::Others);
    let mut state = AppState::new();
    place(&mut state, "a", "buy", "up", 300);
    place(&mut state, "b", "sell", "up", 300);
    place(&mut state, "c", "buy", "up", 300);
    apply(&mut state, &AppEvent::OrderCancelled { order_id: s("c") });
    let c = order_columns(&state, &vec![s("c"), s("gone"), s("b"), s("a")]);
    assert_eq!((c.bought, c.sold, c.others), (vec![s("a")], vec![s("b")], vec![s("c")]));
}

#[test]
fn looks_of_cards() {
    let open = || LocalOrderStatus::Open;
    assert_eq!(card_tone(&order("Buy", "UP", open())), CardTone::BuyUp);
    assert_eq!(card_tone(&order("buy", "Down", open())), CardTone::BuyDown);
    assert_eq!(card_tone(&order("SELL", "x", open())), CardTone::Sell);
    assert_eq!(card_tone(&order("buy", "x", open())), CardTone::Plain);
    assert_eq!(card_tone(&order("buy", "up", LocalOrderStatus::Canceled)), CardTone::Canceled);
    assert_eq!(card_tone(&order("buy", "up", LocalOrderStatus::Failed(s("x")))), CardTone::Failed);
    assert_eq!(tone_of_side("buy", "up"), CardTone::BuyUp);
    assert_eq!(tone_of_side("BUY", "up"), CardTone::Plain);
}

#[test]
fn buttons_of_cards() {
    let partial = || LocalOrderStatus::PartiallyFilled { filled: s("1") };
    assert!(can_cancel(&order("buy", "up", LocalOrderStatus::Open)));
    assert!(can_cancel(&order("buy", "up", partial())));
    assert!(!can_cancel(&order("buy", "up", LocalOrderStatus::FullyFilled)));
    assert!(can_sell(&order("Buy", "up", partial())));
    assert!(can_sell(&order("buy", "up", LocalOrderStatus::TradeConfirmed)));
    assert!(!can_sell(&order("sell", "up", LocalOrderStatus::FullyFilled)));
    assert!(!can_sell(&order("buy", "up", LocalOrderStatus::Open)));
    let o = order("buy", "up", LocalOrderStatus::FullyFilled);
    assert!(matches!(
        limit_exit(&o, 300),
        UiCommand::PlaceLimit { side, token, price, size, rapid_price, window_ts: 300 }
            if side == "sell" && token == "up" && price == "0.60" && size == "0" && rapid_price == "0"
    ));
    assert!(matches!(
        market_exit(&o, 300),
        UiCommand::PlaceMarket { side, usdc: None, shares: Some(n), order_type: Some(t), window_ts: 300, .. }
            if side == "sell" && n == "0" && t == "FAK"
    ));
    assert!(matches!(
        cancel_order(&o, 300),
        UiCommand::CancelIndividual { order_id, window_ts: 300 } if order_id == "id"
    ));
}

#[test]
fn headlines() {
    let mut o = order("buy", "up", LocalOrderStatus::Open);
    assert_eq!(headline(&o), "BUY UP @ 0.50 x 10");
    o.executed_price = Some(s("0.49"));
    o.executed_size = Some(s("9"));
    assert_eq!(headline(&o), "BUY UP @ 0.49 x 9");
    assert_eq!(window_headline(300, "slug", 2), "WINDOW 300 | slug | ORDERS 2");
}

#[test]
fn consoles_become_commands() {
    let mut limit = LimitForm::new();
    assert!(matches!(
        limit.command(300),
        UiCommand::PlaceLimit { side, token, price, size, rapid_price, window_ts: 300 }
            if side == "buy" && token == "up" && price == "0.50" && size == "10" && rapid_price == "0.00"
    ));
    limit.side_buy = false;
    limit.token_up = false;
    assert!(matches!(
        limit.command(300),
        UiCommand::PlaceLimit { side, token, .. } if side == "sell" && token == "down"
    ));
    let mut market = MarketForm::new();
    assert!(matches!(
        market.command(300),
        UiCommand::PlaceMarket { side, token, usdc: Some(u), shares: None, order_type: Some(t), window_ts: 300 }
            if side == "buy" && token == "up" && u == "5.00" && t == "FOK"
    ));
    market.use_usdc = false;
    market.type_fok = false;
    assert!(matches!(
        market.command(300),
        UiCommand::PlaceMarket { usdc: None, shares: Some(n), order_type: Some(t), .. } if n == "0" && t == "FAK"
    ));
}

#[test]
fn clock_of_the_window() {
    assert_eq!((time_remaining(0), time_remaining(299), time_remaining(300)), (300, 1, 300));
    assert_eq!(clock_text(300), "05:00");
    assert_eq!(clock_text(61), "01:01");
    assert_eq!(clock_text(9), "00:09");
    assert_eq!((urgency(30), urgency(31), urgency(60), urgency(61)), (Urgency::High, Urgency::Medium, Urgency::Medium, Urgency::Low));
}

#[test]
fn badges_of_strategies() {
    let none = PredictionSignal::no_trade(StrategyId::HypeReversion, Reason::Note(Note::NoLeader), 1);
    assert_eq!(badge(&none), (Badge::NoTrade, false));
    let buy = |side, confidence| {
        PredictionSignal::buy(StrategyId::HypeReversion, side, d(confidence), dec(1, 0), 1, Reason::Note(Note::NoLeader))
    };
    assert_eq!(badge(&buy(PredictionSide::Up, 0.5)), (Badge::Up, true));
    assert_eq!(badge(&buy(PredictionSide::Down, 0.0)), (Badge::Down, false));
}

#[test]
fn line_on_bitcoin() {
    assert_eq!(btc_ticker(&BtcFeatures::default()), None);
    let mut btc = BtcFeatures {
        origin_price: dec(1000, 1),
        current_price: dec(9950, 2),
        distance_from_origin_pct: d(-0.005),
        ..BtcFeatures::default()
    };
    let t = btc_ticker(&btc).unwrap();
    assert_eq!((t.distance, t.rising), (dec(50, 2), false));
    btc.distance_from_origin_pct = d(0.0);
    assert!(btc_ticker(&btc).unwrap().rising);
}

//! The automatic sale of filled orders, and the status of orders.

use polybot::decimal::Dec;
use polybot::events::AppEvent;
use polybot::reducer::apply;
use polybot::state::{AppState, LocalOrderStatus, NotificationKind, RapidSellState, Trade, TradeStatus};
use polybot::worker::commands::OrderReply;
use polybot::worker::rapid_sell::{
    acquire, candidates, compute_retry_state, is_candidate, plan_sale, rapid_sell_backoff, sale_events,
    sale_request, start_sale, unsold_amount, RAPID_SELL_MAX_ATTEMPTS,
};
use polybot::worker::status::{try_build_status_event, ExchangeOrderStatus, OpenOrderInfo};

fn s(x: &str) -> String {
    x.to_string()
}

fn dec(mantissa: i128, scale: u32) -> Dec {
    Dec { mantissa, scale }
}

fn bought(id: &str, side: &str, matched: &str, rapid_price: &str) -> AppState {
    let mut state = AppState::new();
    add(&mut state, id, side, matched, rapid_price);
    state
}

fn add(state: &mut AppState, id: &str, side: &str, matched: &str, rapid_price: &str) {
    apply(
        state,
        &AppEvent::OrderPlaced {
            order_id: s(id),
            window_ts: 300,
            side: s(side),
            token: s("up"),
            price: s("0.50"),
            size: s("10"),
            rapid_sell_price: s(rapid_price),
            inline_sell_price: s("0.60"),
        },
    );
    apply(
        state,
        &AppEvent::OrderStatusUpdated {
            order_id: s(id),
            status: LocalOrderStatus::FullyFilled,
            size_matched: s(matched),
            executed_price: None,
            executed_size: None,
            is_trade_fully_confirmed: false,
            associate_trades: vec![],
        },
    );
}

#[test]
fn waits_grow_with_the_attempts() {
    let waits: Vec<u64> = (0..9).map(rapid_sell_backoff).collect();
    assert_eq!(waits, vec![1, 2, 5, 10, 20, 30, 60, 120, 120]);
}

#[test]
fn attempts_are_bounded() {
    assert!(matches!(
        compute_retry_state(0, s("r"), 50),
        RapidSellState::RetryScheduled { attempt: 1, retry_at: 1_050, reason } if reason == "r"
    ));
    assert!(matches!(
        compute_retry_state(7, s("r"), 0),
        RapidSellState::RetryScheduled { attempt: 8, retry_at: 120_000, .. }
    ));
    assert!(matches!(
        compute_retry_state(RAPID_SELL_MAX_ATTEMPTS, s("r"), 0),
        RapidSellState::PermanentlyFailed { attempts: 8, reason } if reason == "r"
    ));
}

#[test]
fn only_filled_buys_of_five_are_sold() {
    let state = bought("a", "Buy", "5", "0.60");
    let o = state.order("a").unwrap();
    assert_eq!(unsold_amount(&o), Some(dec(5, 0)));
    assert!(is_candidate(&o, 0));
    assert_eq!(plan_sale(&o), Some(dec(5, 0)));
    assert!(!is_candidate(&bought("a", "sell", "5", "0.60").order("a").unwrap(), 0));
    assert!(!is_candidate(&bought("a", "buy", "4.99", "0.60").order("a").unwrap(), 0));
    assert_eq!(plan_sale(&bought("a", "buy", "5", "0.00").order("a").unwrap()), None);
    assert_eq!(plan_sale(&bought("a", "buy", "4.99", "0.6").order("a").unwrap()), None);
    let mut open = o.clone();
    open.status = LocalOrderStatus::Open;
    assert!(!is_candidate(&open, 0));
    let mut waiting = o.clone();
    waiting.rapid_sell_state = RapidSellState::RetryScheduled { attempt: 1, retry_at: 100, reason: s("") };
    assert!(!is_candidate(&waiting, 99));
    assert!(is_candidate(&waiting, 100));
    let mut sold = o;
    sold.rapid_sell_size = s("0.01");
    assert!(!is_candidate(&sold, 0));
    assert_eq!(candidates(&state, 0).unwrap().len(), 1);
}

#[test]
fn an_order_is_claimed_once() {
    let mut state = bought("a", "buy", "12", "0.60");
    let o = state.order("a").unwrap();
    let start = start_sale(&mut state, &o, 7).unwrap();
    assert_eq!((start.amount, start.attempt), (dec(12, 0), 0));
    assert!(matches!(
        state.order("a").unwrap().rapid_sell_state,
        RapidSellState::InFlight { attempt: 0, started_at: 7 }
    ));
    assert!(start_sale(&mut state, &o, 8).is_none());
    assert_eq!(acquire(&mut state, &s("a"), 8), None);
    assert_eq!(acquire(&mut state, &s("missing"), 8), None);
    apply(
        &mut state,
        &AppEvent::RapidSellStateChanged {
            order_id: s("a"),
            new_state: compute_retry_state(0, s("r"), 10),
        },
    );
    assert_eq!(acquire(&mut state, &s("a"), 1_009), None);
    assert_eq!(acquire(&mut state, &s("a"), 1_010), Some(1));
}

#[test]
fn a_claim_is_no_matter_to_other_orders() {
    let mut state = bought("a", "buy", "12", "0.60");
    add(&mut state, "b", "buy", "8", "0.60");
    let a = state.order("a").unwrap();
    assert!(start_sale(&mut state, &a, 0).is_some());
    let b = state.order("b").unwrap();
    assert!(matches!(b.rapid_sell_state, RapidSellState::Idle));
    assert!(start_sale(&mut state, &b, 0).is_some());
}

#[test]
fn every_reply_releases_the_order() {
    let mut state = bought("a", "buy", "12", "0.60");
    let o = state.order("a").unwrap();
    let request = sale_request(&o, dec(12, 0));
    assert_eq!((request.side.as_str(), request.token.as_str()), ("sell", "up"));
    assert_eq!((request.price.as_str(), request.size.as_str()), ("0.60", "12"));
    let text = |events: &[AppEvent]| match &events[1] {
        AppEvent::Notify { message, kind } => (message.clone(), *kind),
        _ => unreachable!(),
    };
    let events = sale_events(&o, dec(12, 0), 0, OrderReply::Placed(s("x")), 0);
    assert_eq!(text(&events), (s("Rapid Sell placed: 12 up @ 0.60"), NotificationKind::Success));
    assert!(apply(&mut state, &events[0]));
    assert!(matches!(state.order("a").unwrap().rapid_sell_state, RapidSellState::Completed));
    let events = sale_events(&o, dec(12, 0), 2, OrderReply::Rejected(s("no")), 0);
    assert_eq!(text(&events), (s("Rapid Sell rejected: no"), NotificationKind::Error));
    assert!(matches!(
        &events[0],
        AppEvent::RapidSellStateChanged {
            new_state: RapidSellState::RetryScheduled { attempt: 3, retry_at: 5_000, .. }, ..
        }
    ));
    let events = sale_events(&o, dec(12, 0), 8, OrderReply::Failed(s("net")), 0);
    assert_eq!(text(&events), (s("Rapid Sell transport error: net"), NotificationKind::Error));
    assert!(matches!(
        &events[0],
        AppEvent::RapidSellStateChanged { new_state: RapidSellState::PermanentlyFailed { attempts: 8, .. }, .. }
    ));
}

fn info(status: ExchangeOrderStatus, matched: Dec, trades: Vec<String>) -> OpenOrderInfo {
    OpenOrderInfo {
        status,
        size_matched: matched,
        original_size: dec(100, 0),
        price: dec(512345, 6),
        associate_trades: trades,
    }
}

fn status_of(state: &AppState, info: &OpenOrderInfo, check_trades: bool) -> (LocalOrderStatus, bool, Option<String>) {
    match try_build_status_event(state, "a", info, check_trades).unwrap().unwrap() {
        AppEvent::OrderStatusUpdated { status, is_trade_fully_confirmed, executed_price, .. } => {
            (status, is_trade_fully_confirmed, executed_price)
        },
        _ => unreachable!(),
    }
}

#[test]
fn status_of_an_order() {
    let mut state = bought("a", "buy", "0", "0");
    let none = dec(0, 0);
    let open = status_of(&state, &info(ExchangeOrderStatus::Live, none, vec![]), true);
    assert!(matches!(open, (LocalOrderStatus::Open, false, None)));
    let part = status_of(&state, &info(ExchangeOrderStatus::Live, dec(15, 1), vec![]), true);
    assert!(matches!(&part.0, LocalOrderStatus::PartiallyFilled { filled } if filled == "1.5"));
    assert_eq!(part.2, Some(s("0.5123")));
    let full = status_of(&state, &info(ExchangeOrderStatus::Matched, dec(995, 1), vec![]), true);
    assert!(matches!(full.0, LocalOrderStatus::FullyFilled));
    let short = status_of(&state, &info(ExchangeOrderStatus::Matched, dec(9949, 2), vec![]), true);
    assert!(matches!(&short.0, LocalOrderStatus::PartiallyFilled { filled } if filled == "99.49"));
    for status in [
        ExchangeOrderStatus::Canceled,
        ExchangeOrderStatus::Unknown(s("INVALID")),
        ExchangeOrderStatus::Unknown(s("new")),
        ExchangeOrderStatus::Other,
    ] {
        let gone = status_of(&state, &info(status, none, vec![]), true);
        assert!(matches!(gone.0, LocalOrderStatus::Canceled));
    }
    for (id, status, size) in [("t1", TradeStatus::Confirmed, 60), ("t2", TradeStatus::Pending, 50)] {
        let trade = Trade { id: s(id), status, size: dec(size, 0) };
        apply(&mut state, &AppEvent::TradeReceived { trade });
    }
    let trades = vec![s("t1"), s("t2"), s("t3")];
    let waiting = status_of(&state, &info(ExchangeOrderStatus::Matched, dec(100, 0), trades.clone()), true);
    assert!(matches!(waiting.0, LocalOrderStatus::FullyFilled));
    let trade = Trade { id: s("t2"), status: TradeStatus::Confirmed, size: dec(40, 0) };
    apply(&mut state, &AppEvent::TradeReceived { trade });
    let done = status_of(&state, &info(ExchangeOrderStatus::Matched, dec(100, 0), trades.clone()), true);
    assert!(matches!(done, (LocalOrderStatus::TradeConfirmed, true, _)));
    let unchecked = status_of(&state, &info(ExchangeOrderStatus::Matched, dec(100, 0), trades), false);
    assert!(matches!(unchecked, (LocalOrderStatus::FullyFilled, false, _)));
}

#[test]
fn status_of_a_forgotten_order_is_no_event() {
    let state = AppState::new();
    let nothing = try_build_status_event(&state, "a", &info(ExchangeOrderStatus::Live, dec(0, 0), vec![]), true);
    assert!(matches!(nothing, Some(None)));
}

//! The feeds of bitcoin's price and of the tokens' books, and what ties them together.

use polybot::decimal::{Dec, MAX_MANTISSA};
use polybot::double::Double;
use polybot::prediction::asset_table::AssetTable;
use polybot::prediction::btc_aggregator::aggregator::Candle;
use polybot::prediction::btc_aggregator::pipeline::CleanPrice;
use polybot::prediction::btc_aggregator::tick::{Exchange, ExchangeTable};
use polybot::prediction::btc_feed::{
    extremes, features, prices_within, split_by_exchange, strided_prices, BtcHistory, BtcSnapshot, FeatureReadings,
    MergedLevel,
};
use polybot::prediction::context::{ModelView, PredictionContext};
use polybot::prediction::conviction::Tally;
use polybot::prediction::direction::TrendDirection;
use polybot::prediction::features::{BtcFeatures, PolymarketFeatures, TokenFeatures};
use polybot::prediction::polymarket_feed::{
    compute_token_state, dump_files, market_expired, vwaps, BtcState, BtcStep, DumpKind, PublishReading,
    TokenFeed, TokenQuotients, VwapReading, VwapSums, Vwaps,
};
use polybot::prediction::service::{
    blend, run_round, seconds_remaining, standard_engine, window_started_ms, MarketWatch, ModelReceiver,
};
use polybot::prediction::state::PredictionStore;
use polybot::prediction::token_book::{spread_share, BookLevel, OrderbookState};
use polybot::prediction::window_state::{BtcReading, TokenReading, WindowState};

fn d(x: f64) -> Double {
    Double::from_bits(x.to_bits())
}

fn f(x: Double) -> f64 {
    f64::from_bits(x.bits)
}

fn dec(mantissa: i128, scale: u32) -> Dec {
    Dec { mantissa, scale }
}

fn s(x: &str) -> String {
    x.to_string()
}

fn reading(distance: f64, area: f64) -> BtcReading {
    BtcReading {
        distance: d(distance),
        area: d(area),
        tick_return: d(0.01),
        path_length: d(0.02),
        acceleration: d(0.03),
        elapsed: d(4.0),
        above: d(2.0),
        below: d(7.0),
    }
}

fn clean() -> CleanPrice {
    let z = d(0.0);
    CleanPrice {
        timestamp_ms: 5,
        smoothed: d(1.5),
        raw_vwmp: d(1.25),
        kalman_gain: z,
        candle: Candle {
            open_ms: 5,
            close_ms: 255,
            open: z,
            high: z,
            low: z,
            close: z,
            vwmp: z,
            volume: z,
            tick_count: 1,
            exchange_contributions: ExchangeTable::new(),
        },
    }
}

#[test]
fn last_price_is_shown() {
    let mut h = BtcHistory::new();
    assert_eq!(h.snapshot, BtcSnapshot::default());
    assert!(h.publish_clean(clean(), dec(15, 1), 40, reading(0.0, 0.0)));
    let shown = BtcSnapshot { timestamp_ms: 40, price: dec(15, 1), clean: Some(clean()) };
    assert_eq!(h.snapshot, shown);
    h.notify_window_start(300_000);
    assert_eq!(h.snapshot, shown);
    assert!(!h.btc_origin_locked());
}

#[test]
fn merged_book_is_split_by_exchange() {
    let level = |exchange, price| MergedLevel { exchange, price: dec(price, 0), amount: dec(1, 0) };
    let bids = vec![level(Exchange::Kraken, 10), level(Exchange::Binance, 9), level(Exchange::Kraken, 8)];
    let asks = vec![level(Exchange::Bitstamp, 11)];
    let ticks = split_by_exchange(&bids, &asks, 77);
    assert_eq!(ticks.len(), 3);
    let kraken = ticks.iter().find(|t| t.exchange == Exchange::Kraken).unwrap();
    assert_eq!(kraken.received_ms, 77);
    let prices: Vec<Dec> = kraken.bids.iter().map(|l| l.price).collect();
    assert_eq!(prices, vec![dec(10, 0), dec(8, 0)]);
    assert!(kraken.asks.is_empty());
    assert!(ticks.iter().all(|t| t.exchange != Exchange::Coinbase));
    let total: usize = ticks.iter().map(|t| t.bids.len() + t.asks.len()).sum();
    assert_eq!(total, 4);
    assert!(split_by_exchange(&vec![], &vec![], 0).is_empty());
}

#[test]
fn history_and_its_stretches() {
    let mut h = BtcHistory::new();
    for (t, p) in [(0, 100), (1_000, 103), (1_500, 99), (2_500, 101)] {
        assert!(h.publish_clean(clean(), dec(p, 0), t, reading(0.0, 0.0)));
    }
    assert_eq!(prices_within(&h.window, 2_500, 1_000), vec![dec(99, 0), dec(101, 0)]);
    assert_eq!(prices_within(&h.window, 2_500, 1_500).len(), 3);
    assert_eq!(extremes(&h.window, 2_500, dec(101, 0)), (dec(103, 0), dec(99, 0)));
    assert_eq!(strided_prices(&h.window, 2_500, 1_000, 60), vec![dec(100, 0), dec(99, 0), dec(101, 0)]);
    assert_eq!(strided_prices(&h.window, 2_500, 1_000, 1), vec![dec(99, 0), dec(101, 0)]);
    assert_eq!(strided_prices(&h.window, 2_500, 1, u64::MAX).len(), 4);
    h.publish_clean(clean(), dec(50, 0), 3_602_501, reading(0.0, 0.0));
    assert_eq!(h.window.len(), 1);
}

#[test]
fn origin_is_the_mean_of_three_seconds() {
    let mut h = BtcHistory::new();
    h.notify_window_start(10_000);
    for (t, p) in [(10_100, 100), (11_000, 104), (13_000, 102)] {
        assert!(h.publish_clean(clean(), dec(p, 0), t, reading(9.9, 9.9)));
        assert!(!h.window_state.btc_origin_locked);
    }
    assert_eq!(h.window_state.upcoming_origin(dec(110, 0), 13_001), Some(dec(102, 0)));
    assert_eq!(h.window_state.upcoming_origin(dec(110, 0), 13_000), None);
    assert!(h.publish_clean(clean(), dec(110, 0), 13_001, reading(0.08, 0.5)));
    let ws = h.window_state;
    assert!(ws.btc_origin_locked);
    assert_eq!(ws.btc_origin_price, dec(102, 0));
    assert_eq!((f(ws.btc_distance_from_origin_pct), f(ws.btc_area)), (0.08, 0.5));
    assert_eq!((f(ws.btc_current_return), f(ws.btc_prev_return)), (0.01, 0.0));
    assert_eq!((f(ws.btc_same_side_seconds), f(ws.btc_above_seconds), f(ws.btc_below_seconds)), (2.0, 2.0, 0.0));
    h.publish_clean(clean(), dec(90, 0), 14_000, reading(-0.1, 0.4));
    assert_eq!(h.window_state.btc_origin_price, dec(102, 0));
    assert_eq!(f(h.window_state.btc_prev_return), 0.01);
    let samples = h.window.len();
    h.notify_window_start(20_000);
    assert_eq!(h.window.len(), samples);
    assert!(!h.window_state.btc_origin_locked);
}

#[test]
fn sides_of_the_origin() {
    let mut ws = WindowState::default();
    ws.btc_origin_locked = true;
    ws.btc_origin_price = dec(100, 0);
    let seconds = |ws: &WindowState| {
        (f(ws.btc_above_seconds), f(ws.btc_below_seconds), f(ws.btc_same_side_seconds))
    };
    ws.ingest_btc(dec(99, 0), 5_000, reading(-0.01, 0.5));
    assert_eq!(seconds(&ws), (0.0, 7.0, 7.0));
    ws.ingest_btc(dec(101, 0), 6_000, reading(0.01, 0.5));
    assert_eq!(seconds(&ws), (2.0, 7.0, 2.0));
    let later = BtcReading { above: d(3.0), below: d(8.0), ..reading(0.0, 0.5) };
    ws.ingest_btc(dec(100, 0), 7_000, later);
    assert_eq!(seconds(&ws), (3.0, 7.0, 3.0));
    ws.ingest_btc(dec(98, 0), 8_000, BtcReading { distance: d(-0.02), ..later });
    assert_eq!(seconds(&ws), (3.0, 8.0, 8.0));
}

#[test]
fn range_reaches_back_five_minutes() {
    let mut h = BtcHistory::new();
    for (t, p) in [(0, 200), (600_000, 100), (600_500, 110)] {
        assert!(h.publish_clean(clean(), dec(p, 0), t, reading(0.0, 0.0)));
    }
    let x = features(&h.window, &h.window_state, &blank_readings());
    assert_eq!((x.high_5m, x.low_5m), (dec(110, 0), dec(100, 0)));
    assert_eq!(extremes(&h.window, 300_000, dec(110, 0)), (dec(200, 0), dec(100, 0)));
    assert_eq!(extremes(&h.window, 300_001, dec(110, 0)), (dec(110, 0), dec(100, 0)));
}

#[test]
fn origin_that_cannot_be_added_up() {
    let mut ws = WindowState::default();
    assert!(ws.try_ingest_btc(dec(MAX_MANTISSA, 0), 0, reading(0.0, 0.0)));
    let before = ws;
    assert!(!ws.try_ingest_btc(dec(MAX_MANTISSA, 0), 1, reading(0.0, 0.0)));
    assert_eq!(ws, before);
}

#[test]
fn tokens_have_their_own_origin() {
    let mut ws = WindowState::default();
    let r = TokenReading { distance: d(0.2), area: d(0.4) };
    ws.ingest_up(dec(50, 2), 1, r);
    assert_eq!(ws.up.origin_price, dec(50, 2));
    assert_eq!(f(ws.up.distance_from_origin_pct), 0.0);
    ws.ingest_up(dec(60, 2), 2, r);
    assert_eq!((ws.up.origin_price, ws.up.last_price), (dec(50, 2), dec(60, 2)));
    assert_eq!((f(ws.up.distance_from_origin_pct), f(ws.up.area)), (0.2, 0.4));
    assert_eq!(ws.down.origin_price, dec(0, 0));
    ws.ingest_down(dec(40, 2), 3, r);
    assert_eq!(ws.down.last_update_ms, 3);
}

fn blank_readings() -> FeatureReadings {
    let z = d(0.0);
    FeatureReadings {
        high: d(103.0),
        low: d(99.0),
        range_position: d(0.25),
        efficiency: d(1.5),
        persistence: d(0.75),
        avg_distance: d(0.125),
        er_1s: z,
        er_5s: z,
        er_10s: z,
        er_30s: z,
        er_full: z,
        volatility_30s: z,
        volatility_60s: z,
        z_score_30: z,
        z_score_60: z,
        z_score_5m: z,
        range_position_30s: z,
        range_position_60s: z,
        range_position_5m: z,
        range_position_10m: z,
        range_position_30m: z,
        range_position_60m: z,
        toward_high: d(0.9),
    }
}

#[test]
fn features_without_a_divisor() {
    let mut h = BtcHistory::new();
    assert_eq!(features(&h.window, &h.window_state, &blank_readings()), BtcFeatures::default());
    h.publish_clean(clean(), dec(100, 0), 0, reading(0.0, 0.0));
    let x = features(&h.window, &h.window_state, &blank_readings());
    assert_eq!((f(x.efficiency_ratio), f(x.momentum_persistence), f(x.avg_distance_from_origin)), (0.0, 0.5, 0.0));
    assert_eq!(f(x.range_position), 0.25);
    assert_eq!((x.current_price, x.high_5m, x.low_5m), (dec(100, 0), dec(100, 0), dec(100, 0)));
    h.publish_clean(clean(), dec(101, 0), 4_000, reading(0.01, 0.1));
    let flat = FeatureReadings { high: d(100.0), low: d(100.0), ..blank_readings() };
    let x = features(&h.window, &h.window_state, &flat);
    assert_eq!((f(x.efficiency_ratio), f(x.momentum_persistence), f(x.avg_distance_from_origin)), (1.0, 0.75, 0.125));
    assert_eq!((f(x.range_position), f(x.toward_high)), (0.5, 0.9));
    assert_eq!((x.high_5m, x.low_5m), (dec(101, 0), dec(100, 0)));
}

fn level(price: i128, size: i128) -> BookLevel {
    BookLevel { price: dec(price, 2), size: dec(size, 0) }
}

#[test]
fn book_is_summed_up() {
    let bids = vec![level(40, 5), level(45, 7), level(41, 1)];
    let asks = vec![level(60, 2), level(50, 3), level(55, 4)];
    let book = OrderbookState::of_book(&bids, &asks, 9).unwrap();
    assert_eq!((book.best_bid, book.best_ask), (dec(45, 2), dec(50, 2)));
    assert_eq!((book.bid_depth, book.ask_depth), (dec(13, 0), dec(9, 0)));
    let prices: Vec<Dec> = book.asks.iter().map(|l| l.price).collect();
    assert_eq!(prices, vec![dec(50, 2), dec(55, 2), dec(60, 2)]);
    assert_eq!(book.timestamp_ms, 9);
    let empty = OrderbookState::of_book(&vec![], &vec![], 1).unwrap();
    assert_eq!((empty.best_bid, empty.best_ask), (dec(0, 0), dec(0, 0)));
    let huge = BookLevel { price: dec(1, 0), size: dec(MAX_MANTISSA, 0) };
    assert!(OrderbookState::of_book(&vec![huge, huge], &vec![], 1).is_none());
    // Of equal prices, the last bid and the first ask are the best.
    let same = vec![BookLevel { price: dec(5, 1), size: dec(1, 0) }, level(50, 1)];
    let book = OrderbookState::of_book(&same, &same, 1).unwrap();
    assert_eq!((book.best_bid, book.best_ask), (dec(50, 2), dec(5, 1)));
}

#[test]
fn spread_is_a_share_of_the_ask() {
    assert_eq!(spread_share(dec(45, 2), dec(50, 2)), Some(dec(10, 2)));
    assert_eq!(spread_share(dec(45, 2), dec(0, 0)), Some(dec(0, 0)));
    assert_eq!(spread_share(dec(0, 0), dec(50, 2)), Some(dec(1, 0)));
}

#[test]
fn table_of_assets() {
    let mut t: AssetTable<u32> = AssetTable::new();
    assert_eq!(t.get("a"), None);
    t.insert("a", 1);
    t.insert("b", 2);
    t.insert("a", 3);
    assert_eq!((t.get("a"), t.get("b")), (Some(&3), Some(&2)));
    assert_eq!(t.remove("a"), Some(3));
    assert_eq!(t.remove("a"), None);
    assert_eq!(t.get("b"), Some(&2));
}

#[test]
fn means_fall_back() {
    let sums = |qty: f64| VwapSums { mid_cum_pv: d(1.0), mid_cum_qty: d(qty), asks_cum_pv: d(1.0), asks_cum_qty: d(qty) };
    let quotients = Vwaps { book: d(0.1), asks: d(0.2), book_cum: d(0.3), asks_cum: d(0.4) };
    let q = VwapReading {
        best_ask: d(0.5),
        total_depth: d(3.0),
        ladder_size: d(2.0),
        sums: sums(1.0),
        quotients,
    };
    assert_eq!(vwaps(&q), quotients);
    let bare = VwapReading { total_depth: d(0.0), ladder_size: d(0.0), sums: sums(0.0), ..q };
    assert_eq!(vwaps(&bare), Vwaps { book: d(0.5), asks: d(0.5), book_cum: d(0.5), asks_cum: d(0.5) });
    let deviations = Vwaps { book: d(1.0), asks: d(2.0), book_cum: d(3.0), asks_cum: d(4.0) };
    let state = compute_token_state(&q, &deviations, d(0.7));
    assert_eq!((f(state.vwap_dev), f(state.vwap_asks_cum_dev), f(state.orderbook_imbalance)), (1.0, 4.0, 0.7));
    assert_eq!(f(state.last_price), 0.5);
    let zero = VwapReading { best_ask: d(-0.0), ..bare };
    let state = compute_token_state(&zero, &deviations, d(0.7));
    assert_eq!((f(state.vwap_dev), f(state.orderbook_imbalance)), (0.0, 0.0));
}

fn btc_step(path: f64) -> BtcStep {
    BtcStep {
        net_displacement: d(1.0),
        return_pct: d(0.01),
        acceleration: d(0.001),
        path_length: d(path),
        efficiency: d(0.9),
        position: d(0.75),
        volatility: d(0.05),
    }
}

#[test]
fn log_of_bitcoin_waits_for_the_origin() {
    let mut b = BtcState::default();
    b.advance(d(100.0), dec(0, 0), true, &btc_step(1.0));
    b.advance(d(101.0), dec(100, 0), false, &btc_step(1.0));
    assert_eq!((f(b.return_pct), f(b.last_price), b.price_history.len()), (0.0, 101.0, 2));
    assert_eq!(f(b.rolling_high), 0.0);
    b.advance(d(102.0), dec(100, 0), true, &btc_step(0.0));
    assert_eq!((f(b.rolling_high), f(b.rolling_low), f(b.near_high_low)), (102.0, 102.0, 0.5));
    assert_eq!((f(b.efficiency_ratio), f(b.prev_return_pct)), (0.0, 0.01));
    assert_eq!(b.bounds(d(99.0)), (d(102.0), d(99.0)));
    b.advance(d(99.0), dec(100, 0), true, &btc_step(3.0));
    assert_eq!((f(b.near_high_low), f(b.efficiency_ratio), b.price_history.len()), (0.75, 0.9, 4));
}

fn publish(feed: &mut TokenFeed, ws: &mut WindowState, asset: &str) -> bool {
    let one = d(1.0);
    let q = PublishReading {
        token: TokenReading { distance: d(0.1), area: d(0.2) },
        means: VwapReading {
            best_ask: d(0.5),
            total_depth: d(10.0),
            ladder_size: d(0.0),
            sums: VwapSums { mid_cum_pv: one, mid_cum_qty: one, asks_cum_pv: one, asks_cum_qty: one },
            quotients: Vwaps { book: d(0.48), asks: d(0.51), book_cum: d(0.47), asks_cum: d(0.52) },
        },
        deviations: Vwaps { book: d(0.1), asks: d(0.2), book_cum: d(0.3), asks_cum: d(0.4) },
        imbalance: d(0.4),
        btc_price: d(101.0),
        origin_price: d(100.0),
        btc: btc_step(1.0),
    };
    feed.try_publish_sample(ws, asset, 600, "up-id", "down-id", &q)
}

fn quotients() -> TokenQuotients {
    TokenQuotients { spread_pct: d(0.1), total_depth: d(9.0), imbalance: d(0.3), avg_distance: d(0.05) }
}

#[test]
fn books_are_published_by_token() {
    let mut feed = TokenFeed::new();
    let mut ws = WindowState::default();
    assert!(!publish(&mut feed, &mut ws, "up-id"));
    for asset in ["up-id", "down-id", "other"] {
        let book = OrderbookState::of_book(&vec![level(45, 7)], &vec![level(50, 3)], 1_000).unwrap();
        feed.store_book(asset, book);
    }
    assert!(!publish(&mut feed, &mut ws, "other"));
    assert!(publish(&mut feed, &mut ws, "down-id"));
    assert_eq!(ws.down.origin_price, dec(50, 2));
    assert_eq!(ws.up.origin_price, dec(0, 0));
    // Without asks their mean is the best one.
    let kept = feed.token_states.get("down-id").unwrap();
    assert_eq!((f(kept.last_price), f(kept.vwap), f(kept.vwap_asks)), (0.5, 0.48, 0.5));
    assert_eq!((f(kept.vwap_dev), f(kept.vwap_asks_cum_dev)), (0.1, 0.4));
    assert_eq!(f(kept.orderbook_imbalance), 0.4);
    // Without a price of bitcoin the state of the up token is kept.
    assert!(publish(&mut feed, &mut ws, "up-id"));
    assert!(feed.token_states.get("up-id").is_some());
    assert_eq!(f(feed.sums("up-id").mid_cum_qty), 1.0);
    assert_eq!(f(feed.sums("nothing").mid_cum_qty), 0.0);
    feed.token_states.remove("up-id");
    ws.btc_last_price = dec(101, 0);
    ws.btc_origin_price = dec(100, 0);
    ws.btc_origin_locked = true;
    assert!(publish(&mut feed, &mut ws, "up-id"));
    assert!(feed.token_states.get("up-id").is_none());
    assert_eq!(f(feed.btc_state.return_pct), 0.01);
    let w = feed.windows.get("up-id").unwrap();
    assert_eq!((w.window_ts, w.expires_at_sec), (300, 600));
    assert_eq!((w.window.len(), w.token_log.len(), w.btc_log.len()), (2, 2, 1));
    assert_eq!((f(w.btc_log[0].price), f(w.btc_log[0].origin_price)), (101.0, 100.0));
    assert_eq!((f(w.token_log[0].vwap_asks), f(w.token_log[0].imbalance)), (0.5, 0.4));

    let x = feed.token_features(&ws, "up-id", true, &quotients()).unwrap();
    assert_eq!((x.current_price, x.origin_price), (dec(50, 2), dec(50, 2)));
    assert_eq!((x.bid_depth, x.ask_depth), (dec(7, 0), dec(3, 0)));
    assert_eq!((f(x.spread_pct), f(x.imbalance), f(x.avg_distance)), (0.1, 0.3, 0.05));
    let shallow = TokenQuotients { total_depth: d(0.0), ..quotients() };
    assert_eq!(f(feed.token_features(&ws, "up-id", true, &shallow).unwrap().imbalance), 0.0);
    assert!(feed.token_features(&ws, "other", true, &quotients()).is_none());

    let dumps = feed.evict_market("up-id", "down-id");
    assert_eq!(dumps.len(), 2);
    assert!(dumps[0].up && !dumps[1].up);
    assert_eq!((dumps[0].btc_log.len(), dumps[1].btc_log.len()), (1, 0));
    assert!(feed.windows.get("up-id").is_none());
    assert!(feed.latest_orderbooks.get("down-id").is_none());
    assert!(feed.latest_orderbooks.get("other").is_some());
    assert_eq!(f(feed.btc_state.return_pct), 0.0);
    let files: Vec<(DumpKind, String, String)> =
        dump_files(&dumps[0]).into_iter().map(|x| (x.kind, x.dir, x.name)).collect();
    assert_eq!(
        files,
        vec![
            (DumpKind::Orderbook, s("orderbook_dumps"), s("300_up.ndjson")),
            (DumpKind::TokenLog, s("logs_token_state"), s("300_up.log")),
            (DumpKind::BtcLog, s("logs_btc_state"), s("300.log")),
        ]
    );
    let files: Vec<String> = dump_files(&dumps[1]).into_iter().map(|x| x.name).collect();
    assert_eq!(files, vec![s("300_down.ndjson"), s("300_down.log")]);
}

#[test]
fn book_without_asks_is_not_published() {
    let mut feed = TokenFeed::new();
    let mut ws = WindowState::default();
    feed.store_book("up-id", OrderbookState::of_book(&vec![level(45, 7)], &vec![], 1_000).unwrap());
    assert!(!publish(&mut feed, &mut ws, "up-id"));
    assert_eq!(ws, WindowState::default());
}

#[test]
fn markets_expire() {
    assert!(!market_expired(599, 300));
    assert!(market_expired(600, 300));
    assert!(!market_expired(100, u64::MAX));
}

fn model(fused: TrendDirection, rules: TrendDirection, confidence: f64) -> ModelView {
    ModelView {
        fused_direction: fused,
        fused_confidence: d(0.9),
        heuristic_direction: rules,
        heuristic_confidence: d(confidence),
        short_direction: TrendDirection::Sideways,
        short_confidence: d(0.0),
        broad_direction: TrendDirection::Sideways,
        broad_confidence: d(0.0),
        snapshot_at_us: 0,
    }
}

#[test]
fn model_speaks_before_the_rules() {
    let (up, down, flat) = (TrendDirection::Bullish, TrendDirection::Bearish, TrendDirection::Sideways);
    assert_eq!(blend(&model(up, down, 0.99)), (up, d(0.9)));
    assert_eq!(blend(&model(flat, down, 0.70)), (down, d(0.70)));
    assert_eq!(blend(&model(flat, down, 0.69)), (flat, d(0.9)));
    assert_eq!(blend(&model(flat, flat, 0.99)), (flat, d(0.9)));
}

#[test]
fn tracker_forgets_and_detector_does_not() {
    let mut r = ModelReceiver::new();
    let m = model(TrendDirection::Bullish, TrendDirection::Sideways, 0.0);
    assert!(!r.enter_window(300));
    for i in 0..8 {
        assert!(!r.enter_window(300));
        r.push(&m, Tally { cumulative: d(0.9 * (i + 1) as f64), mean: d(0.9) }, d(0.9), i * 100);
    }
    let (conviction, strength) = r.snapshots(800, d(0.9), d(0.0));
    assert_eq!(conviction.active.unwrap().direction, TrendDirection::Bullish);
    assert_eq!(strength.leader.unwrap().direction, TrendDirection::Bullish);
    assert!(r.enter_window(600));
    let (conviction, strength) = r.snapshots(800, d(0.9), d(0.0));
    assert_eq!(conviction.active, None);
    assert_eq!(strength.leader.unwrap().consecutive_ticks, 8);
}

#[test]
fn market_is_watched() {
    let mut w = MarketWatch::new();
    assert!(w.wants(300));
    assert!(!w.found(300, vec![s("1")]));
    assert!(w.wants(300));
    assert_eq!(w.ready(true), None);
    assert!(w.found(300, vec![s("1"), s("2")]));
    assert!(!w.wants(300));
    assert!(w.wants(600));
    assert_eq!(w.ready(false), None);
    assert_eq!(w.ready(true), Some((s("1"), s("2"))));
    assert_eq!((seconds_remaining(300, 300), seconds_remaining(599, 300), seconds_remaining(700, 300)), (300, 1, 0));
    assert_eq!(seconds_remaining(200, 300), 300);
    assert_eq!(window_started_ms(300), 300_000);
}

#[test]
fn round_shows_every_strategy() {
    let engine = standard_engine();
    let mut store = PredictionStore::new();
    let ctx = |timestamp_ms| PredictionContext {
        timestamp_ms,
        btc: BtcFeatures::default(),
        polymarket: PolymarketFeatures { up: TokenFeatures::default(), down: TokenFeatures::default() },
        seconds_remaining: 10,
        external_prediction: None,
        conviction: None,
        trend_strength: None,
        reversion: None,
    };
    run_round(&engine, &mut store, 300, &ctx(1_000));
    run_round(&engine, &mut store, 600, &ctx(40_000));
    assert_eq!(store.get(600).unwrap().signals.len(), 4);
    assert!(store.get(300).unwrap().signals.is_empty());
}

//! Strategies, the reversion engine, and what is stored of their signals.

use polybot::decimal::Dec;
use polybot::double::Double;
use polybot::prediction::analysis::MarketAnalyzer;
use polybot::prediction::context::{ModelView, PredictionContext};
use polybot::prediction::conviction::{ActiveSignal, ConvictionSnapshot};
use polybot::prediction::direction::TrendDirection;
use polybot::prediction::engine::PredictionEngine;
use polybot::prediction::features::{BtcFeatures, PolymarketFeatures, TokenFeatures};
use polybot::prediction::reversion::barrier::ContinuationBarrier;
use polybot::prediction::reversion::calibration::{bin_of, IsotonicCalibrator};
use polybot::prediction::reversion::config::ReversionConfig;
use polybot::prediction::reversion::engine::{EngineLifecycle, ReversionEngine, TickStage};
use polybot::prediction::reversion::errors::ReversionError;
use polybot::prediction::reversion::features::{
    FeatureSnapshot, MomentumFeatures, OrderFlowFeatures, RecentValues, VolatilityState,
};
use polybot::prediction::reversion::horizon::{Horizon, HorizonTable};
use polybot::prediction::reversion::output::{
    best_horizon, best_probability, BuilderInputs, ReversionLevels, ReversionOutput, TradeBias,
};
use polybot::prediction::reversion::quality::{
    book_mask, is_stale_at, missing_count, DataQuality, FreshnessMonitor, MISSING_AGGRESSOR,
    MISSING_ORDER_BOOK,
};
use polybot::prediction::reversion::regime::{MarketRegime, RegimeDistribution};
use polybot::prediction::samples::BtcSample;
use polybot::prediction::service::standard_engine;
use polybot::prediction::signals::{
    Note, PredictionSide, PredictionSignal, Reason, SignalType, Source, StrategyId,
};
use polybot::prediction::state::{PredictionStore, MAX_SIGNAL_AGE_MS};
use polybot::prediction::statistics::PredictionStats;
use polybot::prediction::storage::RollingWindow;
use polybot::prediction::strategies::conviction_follow::ConvictionFollowStrategy;
use polybot::prediction::strategies::external_btc::{direction_side, ExternalBtcStrategy};
use polybot::prediction::strategies::hype_reversion::HypeReversionStrategy;
use polybot::prediction::strategies::mean_reversion::MeanReversionStrategy;
use polybot::prediction::strategies::trend_strength_strategy::TrendStrengthStrategy;
use polybot::prediction::strategy::PredictionStrategy;
use polybot::prediction::trend_strength::{TrendStrengthSignal, TrendStrengthSnapshot};

fn d(x: f64) -> Double {
    Double::from_bits(x.to_bits())
}

fn f(x: Double) -> f64 {
    f64::from_bits(x.bits)
}

fn dec(mantissa: i128, scale: u32) -> Dec {
    Dec { mantissa, scale }
}

fn token(price: Dec) -> TokenFeatures {
    TokenFeatures {
        current_price: price,
        origin_price: dec(50, 2),
        avg_distance: d(0.25),
        ..TokenFeatures::default()
    }
}

fn model(direction: TrendDirection, confidence: f64) -> ModelView {
    ModelView {
        fused_direction: TrendDirection::Sideways,
        fused_confidence: d(0.5),
        heuristic_direction: direction,
        heuristic_confidence: d(confidence),
        short_direction: TrendDirection::Sideways,
        short_confidence: d(0.0),
        broad_direction: TrendDirection::Sideways,
        broad_confidence: d(0.0),
        snapshot_at_us: 100_000_000,
    }
}

fn context(distance: f64) -> PredictionContext {
    PredictionContext {
        timestamp_ms: 100_000,
        btc: BtcFeatures {
            current_price: dec(101, 0),
            origin_price: dec(100, 0),
            distance_from_origin_pct: d(distance),
            toward_high: d(0.8),
            ..BtcFeatures::default()
        },
        polymarket: PolymarketFeatures { up: token(dec(60, 2)), down: token(dec(40, 2)) },
        seconds_remaining: 100,
        external_prediction: None,
        conviction: None,
        trend_strength: None,
        reversion: None,
    }
}

fn note(s: &PredictionSignal) -> Option<&'static str> {
    match s.reason {
        Reason::Note(n) => Some(n.text()),
        _ => None,
    }
}

#[test]
fn names_of_strategies() {
    assert_eq!(ConvictionFollowStrategy::new().name(), "conviction_follow");
    assert_eq!(HypeReversionStrategy::new().name(), "hype_reversion");
    assert_eq!(ExternalBtcStrategy::new().name(), "external_btc");
    assert_eq!(TrendStrengthStrategy::new().name(), "trend_strength");
    assert_eq!(MeanReversionStrategy::new().name(), "mean_reversion");
    assert_eq!(Source::Conviction.label(), "conviction");
    assert_eq!(Source::Heuristic.label(), "heuristic");
    assert_eq!(Note::NoLeader.text(), "waiting: no leader established yet");
}

#[test]
fn summaries_wait_for_their_origin() {
    let mut ctx = context(0.0);
    assert_eq!(MarketAnalyzer::btc_trend(&ctx).unwrap().side, PredictionSide::Up);
    ctx.btc.distance_from_origin_pct = d(-0.001);
    assert_eq!(MarketAnalyzer::btc_trend(&ctx).unwrap().side, PredictionSide::Down);
    ctx.btc.origin_price = dec(0, 0);
    assert_eq!(MarketAnalyzer::btc_trend(&ctx), None);
    let t = MarketAnalyzer::token_trend(&ctx, PredictionSide::Up, 10).unwrap();
    assert_eq!(f(t.avg_distance_from_origin), 0.25);
    let t = MarketAnalyzer::token_trend(&ctx, PredictionSide::Up, 0).unwrap();
    assert_eq!(f(t.avg_distance_from_origin), 0.0);
    ctx.polymarket.up.origin_price = dec(0, 0);
    assert_eq!(MarketAnalyzer::token_trend(&ctx, PredictionSide::Up, 10), None);
}

#[test]
fn conviction_follow_buys_the_side_of_the_move() {
    let strategy = ConvictionFollowStrategy::new();
    let s = strategy.evaluate(&context(-0.01));
    assert_eq!((s.signal_type, s.side), (SignalType::Buy, PredictionSide::Down));
    assert_eq!((s.target_entry, s.target_exit, s.stop_loss), (dec(40, 2), dec(40, 2), dec(40, 2)));
    assert_eq!(s.strategy, StrategyId::ConvictionFollow);
    assert_eq!(s.generated_at_ms, 100_000);
    let mut ctx = context(0.01);
    ctx.polymarket.up.current_price = dec(0, 0);
    assert_eq!(note(&strategy.evaluate(&ctx)), Some("waiting: token price is zero"));
    ctx.polymarket.up.origin_price = dec(0, 0);
    assert_eq!(note(&strategy.evaluate(&ctx)), Some("waiting: token origin not set"));
    ctx.btc.origin_price = dec(0, 0);
    let s = strategy.evaluate(&ctx);
    assert_eq!(note(&s), Some("waiting: btc origin not locked"));
    assert_eq!((s.signal_type, s.target_entry), (SignalType::NoTrade, dec(0, 0)));
}

#[test]
fn hype_reversion_buys_the_other_side() {
    let strategy = HypeReversionStrategy::new();
    assert_eq!(HypeReversionStrategy::suppressed_side(PredictionSide::Up), PredictionSide::Down);
    assert_eq!(HypeReversionStrategy::suppressed_side(PredictionSide::Down), PredictionSide::Up);
    let mut ctx = context(0.01);
    assert_eq!(note(&strategy.evaluate(&ctx)), Some("waiting: external prediction not available"));
    ctx.external_prediction = Some(model(TrendDirection::Sideways, 0.0));
    let s = strategy.evaluate(&ctx);
    assert_eq!((s.signal_type, s.side, f(s.confidence)), (SignalType::Buy, PredictionSide::Down, 0.8));
    assert_eq!(s.target_entry, dec(40, 2));
    // The two strategies take opposite sides.
    assert_eq!(ConvictionFollowStrategy::new().evaluate(&ctx).side, PredictionSide::Up);
}

#[test]
fn external_btc_takes_the_conviction_first() {
    let strategy = ExternalBtcStrategy::new();
    let mut ctx = context(0.01);
    assert_eq!(note(&strategy.evaluate(&ctx)), Some("waiting: conviction tracker not populated"));
    ctx.external_prediction = Some(model(TrendDirection::Bearish, 0.7));
    let s = strategy.evaluate(&ctx);
    assert_eq!((s.signal_type, s.side, f(s.confidence)), (SignalType::Buy, PredictionSide::Down, 0.7));
    ctx.conviction = Some(ConvictionSnapshot {
        active: Some(ActiveSignal {
            direction: TrendDirection::Bullish,
            mean_confidence: d(0.66),
            activated_at_ms: 0,
        }),
        ..ConvictionSnapshot::default()
    });
    let s = strategy.evaluate(&ctx);
    assert_eq!((s.side, f(s.confidence)), (PredictionSide::Up, 0.66));
    assert!(matches!(s.reason, Reason::External { source: Source::Conviction, .. }));
    ctx.conviction = Some(ConvictionSnapshot {
        building_ticks: 3,
        queued: 1,
        ..ConvictionSnapshot::default()
    });
    ctx.external_prediction = Some(model(TrendDirection::Bearish, 0.69));
    let s = strategy.evaluate(&ctx);
    assert!(matches!(s.reason, Reason::Building { ticks: 3, queued: 1 }));
    ctx.external_prediction = Some(model(TrendDirection::Bearish, 0.9));
    ctx.timestamp_ms = 105_001;
    assert!(matches!(strategy.evaluate(&ctx).reason, Reason::Building { .. }));
    ctx.timestamp_ms = 105_000;
    assert_eq!(strategy.evaluate(&ctx).signal_type, SignalType::Buy);
    assert_eq!(direction_side(TrendDirection::Sideways), None);
}

#[test]
fn trend_strength_follows_the_leader() {
    let strategy = TrendStrengthStrategy::new();
    let mut ctx = context(0.01);
    assert_eq!(note(&strategy.evaluate(&ctx)), Some("waiting: trend strength snapshot not available"));
    ctx.trend_strength = Some(TrendStrengthSnapshot { bull: None, bear: None, leader: None });
    assert_eq!(note(&strategy.evaluate(&ctx)), Some("waiting: no leader established yet"));
    let leader = |direction| TrendStrengthSignal {
        direction,
        score: d(0.9),
        ewma_confidence: d(0.95),
        consecutive_ticks: 9,
        held_ms: 900,
    };
    ctx.trend_strength = Some(TrendStrengthSnapshot {
        bull: None,
        bear: Some((d(0.9), 9)),
        leader: Some(leader(TrendDirection::Bearish)),
    });
    let s = strategy.evaluate(&ctx);
    assert_eq!((s.signal_type, s.side), (SignalType::Buy, PredictionSide::Down));
    ctx.trend_strength = Some(TrendStrengthSnapshot {
        bull: None,
        bear: None,
        leader: Some(leader(TrendDirection::Sideways)),
    });
    assert_eq!(note(&strategy.evaluate(&ctx)), Some("no-trade: leader direction is Sideways"));
}

fn regime(n: f64, m: f64, b: f64, l: f64) -> RegimeDistribution {
    RegimeDistribution {
        normal_liquidity: d(n),
        mean_reverting_volatility: d(m),
        momentum_breakout: d(b),
        liquidation_event: d(l),
    }
}

fn snapshot(deviation: f64) -> FeatureSnapshot {
    FeatureSnapshot {
        timestamp_us: 7,
        price: d(101.0),
        equilibrium: d(100.0),
        deviation_sigma: d(deviation),
        stretch_score: d(0.9),
        equilibrium_confidence: d(0.8),
        volatility: VolatilityState::default(),
        order_flow: OrderFlowFeatures::new(d(0.1), d(0.0), d(2.0), d(1.8)),
        momentum: MomentumFeatures {
            velocity_sigma_per_tick: d(-2.0),
            momentum_displacement_cosine: d(1.0),
            momentum_zscore: d(1.0),
        },
        regime: regime(0.1, 0.2, 0.6, 0.1),
        tod_sin: d(0.0),
        tod_cos: d(1.0),
        data_quality: DataQuality::perfect(),
    }
}

fn levels() -> ReversionLevels {
    ReversionLevels {
        entry_price: d(101.0),
        equilibrium: d(100.0),
        displacement: d(1.0),
        target_25pct: d(100.75),
        target_50pct: d(100.5),
        target_75pct: d(100.25),
        target_100pct: d(100.0),
        prob_reach_25: d(0.5),
        prob_reach_50: d(0.4),
        prob_reach_75: d(0.3),
        prob_reach_100: d(0.2),
    }
}

fn gaps_of(probs: &HorizonTable<Double>) -> HorizonTable<Double> {
    let best = f(best_probability(probs));
    let mut gaps = HorizonTable::new();
    for h in Horizon::all() {
        if let Some(p) = probs.get(h) {
            gaps.set(h, d((f(p) - best).abs()));
        }
    }
    gaps
}

/// What the inputs say of the barrier is the opposite of what the snapshot gives rise to.
fn inputs(deviation: f64, score: f64, barrier_active: bool) -> BuilderInputs {
    let mut snapshot = snapshot(deviation);
    if !barrier_active {
        snapshot.momentum.velocity_sigma_per_tick = d(1.5);
    }
    let mut horizon_probs = HorizonTable::new();
    let mut all_levels = HorizonTable::new();
    for h in Horizon::all() {
        horizon_probs.set(h, d(0.1));
        all_levels.set(h, levels());
    }
    horizon_probs.set(Horizon::S30, d(0.6));
    horizon_probs.set(Horizon::M5, d(0.6));
    BuilderInputs {
        snapshot,
        gaps: gaps_of(&horizon_probs),
        horizon_probs,
        levels: all_levels,
        half_life: None,
        contributors: vec![],
        barrier_active: !barrier_active,
        calibration_brier: d(0.1),
        regime_confidence: d(0.6),
        raw_score: d(score),
    }
}

fn answer(deviation: f64, score: f64, barrier_active: bool) -> ReversionOutput {
    let mut engine = ReversionEngine::new(ReversionConfig::default()).unwrap();
    assert!(engine.current().is_none());
    engine.answer(inputs(deviation, score, barrier_active));
    engine.last_output.take().unwrap()
}

#[test]
fn answers_point_to_the_equilibrium() {
    assert_eq!(answer(2.0, 0.5, false).trade_bias, TradeBias::ShortMeanReversion);
    assert_eq!(answer(-2.0, 0.5, false).trade_bias, TradeBias::LongMeanReversion);
    assert_eq!(answer(2.0, 0.34, false).trade_bias, TradeBias::Neutral);
    assert_eq!(answer(2.0, 0.35, false).trade_bias, TradeBias::ShortMeanReversion);
    assert_eq!(answer(2.0, 0.9, true).trade_bias, TradeBias::Suppressed);
    assert!(answer(2.0, 0.9, true).barrier_active && !answer(2.0, 0.9, false).barrier_active);
    let a = answer(2.0, 1.5, false);
    assert_eq!(f(a.opportunity_score), 1.0);
    assert_eq!(a.best_horizon, Some(Horizon::S30));
    assert_eq!(a.regime, MarketRegime::MomentumBreakout);
    assert!(a.half_life.seconds.is_nan());
    assert_eq!(f(a.half_life.confidence), 0.0);
    assert_eq!(f(a.reversion.get(Horizon::S30).unwrap().probability), 0.6);
    assert_eq!(f(answer(2.0, -1.0, false).opportunity_score), 0.0);
}

#[test]
fn mean_reversion_needs_a_bias() {
    let strategy = MeanReversionStrategy::new();
    let mut ctx = context(0.01);
    assert_eq!(note(&strategy.evaluate(&ctx)), Some("waiting: reversion engine not yet warmed up"));
    ctx.reversion = Some(answer(2.0, 0.5, false));
    let s = strategy.evaluate(&ctx);
    assert_eq!((s.signal_type, s.side, f(s.confidence)), (SignalType::Buy, PredictionSide::Down, 0.5));
    ctx.reversion = Some(answer(-2.0, 0.5, false));
    assert_eq!(strategy.evaluate(&ctx).side, PredictionSide::Up);
    ctx.reversion = Some(answer(2.0, 0.39, false));
    assert!(matches!(strategy.evaluate(&ctx).reason, Reason::BelowFloor { .. }));
    ctx.reversion = Some(answer(2.0, 0.1, false));
    assert!(matches!(strategy.evaluate(&ctx).reason, Reason::BelowThreshold { .. }));
    ctx.reversion = Some(answer(2.0, 0.9, true));
    assert!(matches!(strategy.evaluate(&ctx).reason, Reason::BarrierActive { .. }));
    let barred = ReversionOutput { barrier_active: true, ..answer(2.0, 0.9, false) };
    ctx.reversion = Some(barred);
    assert!(matches!(strategy.evaluate(&ctx).reason, Reason::BarrierActive { .. }));
    let mut poor = answer(2.0, 0.9, false);
    poor.data_quality.confidence = d(0.49);
    ctx.reversion = Some(poor);
    assert!(matches!(strategy.evaluate(&ctx).reason, Reason::LowQuality { .. }));
}

#[test]
fn engine_asks_every_strategy() {
    let ctx = context(0.01);
    let signals = standard_engine().evaluate(&ctx);
    let ids: Vec<StrategyId> = signals.iter().map(|s| s.strategy).collect();
    assert_eq!(
        ids,
        vec![
            StrategyId::ConvictionFollow,
            StrategyId::HypeReversion,
            StrategyId::ExternalBtc,
            StrategyId::TrendStrength,
        ]
    );
    let one = PredictionEngine::new().with_strategy(MeanReversionStrategy::new());
    assert_eq!(one.evaluate(&ctx).len(), 1);
    let mut two = one;
    two.register(MeanReversionStrategy::new());
    assert_eq!(two.evaluate(&ctx).len(), 2);
}

#[test]
fn engine_warms_up_runs_and_goes_stale() {
    let config = ReversionConfig { warmup_ticks: 3, ..ReversionConfig::default() };
    let mut e = ReversionEngine::new(config).unwrap();
    assert_eq!(e.lifecycle(), EngineLifecycle::Warming);
    assert!(e.check_staleness(None));
    assert!(e.check_staleness(Some(3_600_000)));
    assert!(!e.check_staleness(Some(5_000)));
    assert_eq!(e.lifecycle(), EngineLifecycle::Warming);
    assert_eq!(e.on_raw_tick(Some(d(1.0)), false, false), TickStage::Accumulate);
    assert_eq!(e.on_raw_tick(None, true, false), TickStage::Skip);
    assert_eq!(e.freshness.missing_fields(), 0);
    assert_eq!(e.on_raw_tick(Some(d(1.0)), true, false), TickStage::Answer);
    assert_eq!(e.freshness.missing_fields(), MISSING_ORDER_BOOK);
    assert_eq!(e.lifecycle(), EngineLifecycle::Running);
    assert!(!e.check_staleness(Some(5_000)));
    assert!(e.check_staleness(Some(5_001)));
    assert_eq!(e.lifecycle(), EngineLifecycle::Stale);
    assert!(e.check_staleness(Some(9_000)));
    assert!(!e.check_staleness(Some(1)));
    assert_eq!(e.lifecycle(), EngineLifecycle::Stale);
    assert_eq!(e.on_raw_tick(Some(d(1.0)), false, false), TickStage::Answer);
    assert_eq!(e.lifecycle(), EngineLifecycle::Running);
}

#[test]
fn settings_are_checked() {
    let fault = |c: ReversionConfig| match ReversionEngine::new(c) {
        Err(e) => e.message(),
        Ok(_) => "fine".to_string(),
    };
    let standard = ReversionConfig::default();
    assert_eq!(f(standard.ewma_fast_lambda), 0.04);
    assert_eq!(f(standard.ewma_medium_lambda), 0.01);
    assert_eq!(f(standard.vwap_weight), 0.3);
    assert_eq!(f(standard.barrier_volume_n), 1.8);
    assert_eq!(fault(standard), "fine");
    assert_eq!(
        fault(ReversionConfig { warmup_ticks: 0, ..ReversionConfig::default() }),
        "configuration invalid: warmup_ticks must be > 0"
    );
    assert_eq!(
        fault(ReversionConfig { horizons: vec![], ..ReversionConfig::default() }),
        "configuration invalid: at least one horizon required"
    );
    assert_eq!(
        fault(ReversionConfig { ewma_fast_lambda: d(1.5), ..ReversionConfig::default() }),
        "configuration invalid: ewma_fast_lambda must be in [0,1]"
    );
    assert_eq!(
        fault(ReversionConfig { ewma_fast_lambda: d(0.01), ..ReversionConfig::default() }),
        "configuration invalid: ewma_fast_lambda must be greater than ewma_medium_lambda"
    );
    let other = ReversionError::NumericalInstability { component: "x".to_string(), detail: "y".to_string() };
    assert_eq!(other.message(), "numerical instability in x: y");
}

#[test]
fn barrier_needs_all_four() {
    let barrier = ContinuationBarrier::new(&ReversionConfig::default());
    assert!(barrier.is_continuation(&snapshot(1.0)));
    let mut slow = snapshot(1.0);
    slow.momentum.velocity_sigma_per_tick = d(-1.5);
    assert!(!barrier.is_continuation(&slow));
    let mut thin = snapshot(1.0);
    thin.order_flow = OrderFlowFeatures::new(d(0.1), d(0.0), d(1.8), d(1.8));
    assert!(!thin.order_flow.volume_surge);
    assert!(!barrier.is_continuation(&thin));
    let mut back = snapshot(1.0);
    back.momentum.momentum_displacement_cosine = d(-1.0);
    assert!(!barrier.is_continuation(&back));
    let mut calm = snapshot(1.0);
    calm.regime = regime(0.9, 0.0, 0.1, 0.0);
    assert!(!barrier.is_continuation(&calm));
    let off = ContinuationBarrier { enabled: false, ..barrier };
    assert!(!off.is_continuation(&snapshot(1.0)));
}

#[test]
fn regimes_and_their_peak() {
    let even = RegimeDistribution::default();
    assert_eq!(f(even.peak()), 0.25);
    assert_eq!(even.mode(), MarketRegime::LiquidationEvent);
    assert_eq!(regime(0.5, 0.5, 0.0, 0.0).mode(), MarketRegime::MeanRevertingVolatility);
    assert_eq!(f(regime(0.1, 0.7, 0.1, 0.1).peak()), 0.7);
    let all = [
        (MarketRegime::NormalLiquidity, 1.0, false),
        (MarketRegime::MeanRevertingVolatility, 1.15, false),
        (MarketRegime::MomentumBreakout, 0.55, true),
        (MarketRegime::LiquidationEvent, 0.25, true),
    ];
    for (r, multiplier, hostile) in all {
        assert_eq!(f(r.reversion_multiplier()), multiplier);
        assert_eq!(r.is_hostile(), hostile);
    }
}

#[test]
fn horizons_ascend() {
    let seconds: Vec<u64> = Horizon::all().iter().map(|h| h.seconds()).collect();
    assert_eq!(seconds, vec![5, 10, 30, 60, 300]);
    let labels: Vec<&str> = Horizon::all().iter().map(|h| h.label()).collect();
    assert_eq!(labels, vec!["5s", "10s", "30s", "1m", "5m"]);
    let mut probs: HorizonTable<Double> = HorizonTable::new();
    assert_eq!(best_horizon(&probs, &gaps_of(&probs)), None);
    assert_eq!(f(best_probability(&probs)), 0.0);
    probs.set(Horizon::M1, d(0.2));
    probs.set(Horizon::S10, d(0.2));
    assert_eq!(best_horizon(&probs, &gaps_of(&probs)), Some(Horizon::S10));
    assert_eq!(f(best_probability(&probs)), 0.2);
}

#[test]
fn best_horizon_has_a_margin() {
    let best = |list: &[(Horizon, f64)]| {
        let mut probs: HorizonTable<Double> = HorizonTable::new();
        for (h, p) in list {
            probs.set(*h, d(*p));
        }
        best_horizon(&probs, &gaps_of(&probs))
    };
    assert_eq!(best(&[(Horizon::S5, -1e-12)]), Some(Horizon::S5));
    assert_eq!(best(&[(Horizon::S5, -1e-8)]), None);
    assert_eq!(best(&[(Horizon::S5, f64::INFINITY)]), None);
    assert_eq!(best(&[(Horizon::S5, f64::NAN), (Horizon::M1, 0.1)]), Some(Horizon::M1));
    assert_eq!(best(&[(Horizon::S5, 0.5 - 1e-10), (Horizon::M1, 0.5)]), Some(Horizon::S5));
    assert_eq!(best(&[(Horizon::S5, 0.5 - 1e-8), (Horizon::M1, 0.5)]), Some(Horizon::M1));
}

#[test]
fn calibration_waits_for_ten_outcomes() {
    assert_eq!(bin_of(d(-0.5)), 0);
    assert_eq!(bin_of(d(0.99)), 0);
    assert_eq!(bin_of(d(1.0)), 1);
    assert_eq!(bin_of(d(9.99)), 9);
    assert_eq!(bin_of(d(12.0)), 9);
    assert_eq!(bin_of(d(f64::NAN)), 0);
    let mut c = IsotonicCalibrator::new();
    for i in 0..10 {
        assert_eq!(c.calibrate(3, d(0.35), d(0.9)), d(0.35));
        c.update(3, d(0.35 * (i + 1) as f64), i % 2 == 0);
    }
    assert_eq!(c.calibrate(3, d(0.35), d(0.9)), d(0.9));
    assert_eq!((c.bins[3].count, c.bins[3].reverted), (10, 5));
    assert_eq!(c.calibrate(4, d(0.45), d(0.9)), d(0.45));
}

#[test]
fn quality_of_data() {
    assert_eq!(book_mask(false, false), 0);
    assert_eq!(book_mask(true, false), MISSING_ORDER_BOOK);
    assert_eq!(missing_count(MISSING_ORDER_BOOK | MISSING_AGGRESSOR), 2);
    assert_eq!(missing_count(255), 8);
    assert!(is_stale_at(None, u64::MAX));
    let mut m = FreshnessMonitor::new();
    assert!(m.is_stale(u64::MAX));
    assert_eq!(m.age_ms(), None);
    assert_eq!(m.quality(None, d(0.0)).feed_age_ms, u64::MAX);
    m.record();
    assert!(!m.is_stale(60_000));
    assert!(!m.is_stale(u64::MAX));
    assert!(m.age_ms().unwrap() < 60_000);
    let start = std::time::Instant::now();
    while start.elapsed().as_millis() < 30 {}
    assert!(m.age_ms().unwrap() >= 30);
    assert!(m.is_stale(1));
    m.set_missing_fields(3);
    assert!(m.age_ms().unwrap() >= 30);
    // Silence is counted from the last data.
    m.record();
    assert!(!m.is_stale(29));
    m.record_at(start);
    assert!(m.is_stale(29));
    assert_eq!(m.quality(Some(5), d(0.5)), DataQuality { feed_age_ms: 5, missing_fields: 3, confidence: d(0.5) });
}

#[test]
fn snapshots_and_recent_values() {
    let s = snapshot(-2.0);
    assert_eq!(f(s.displacement_sign()), -1.0);
    assert_eq!(f(s.abs_deviation_sigma()), 2.0);
    assert!(s.is_trustworthy());
    let mut old = snapshot(1.0);
    old.data_quality.feed_age_ms = 2_000;
    assert!(!old.is_trustworthy());
    assert_eq!(f(VolatilityState::default().safe_sigma()), 1e-8);
    let mut v = RecentValues::new(2);
    assert_eq!(v.push(d(1.0)), None);
    assert_eq!(v.push(d(2.0)), None);
    assert_eq!(v.push(d(3.0)), Some(d(1.0)));
    assert_eq!((v.len(), v.last()), (2, Some(d(3.0))));
    assert_eq!(v.rank_of(d(2.0)), 1);
    // The last value is kept in any case.
    let mut v = RecentValues::new(0);
    assert_eq!(v.push(d(1.0)), None);
    assert_eq!(v.push(d(2.0)), Some(d(1.0)));
    assert_eq!((v.len(), v.last()), (1, Some(d(2.0))));
}

fn sample(timestamp_ms: u64) -> BtcSample {
    BtcSample { timestamp_ms, price: dec(timestamp_ms as i128, 0) }
}

#[test]
fn rolling_window_forgets_the_old() {
    let mut w = RollingWindow::new(100);
    assert!(w.is_empty());
    assert_eq!((w.latest(), w.oldest(), w.retention()), (None, None, 100));
    for t in [0, 50, 100, 150, 151] {
        w.push(sample(t));
    }
    let times: Vec<u64> = w.iter().map(|s| s.timestamp_ms).collect();
    assert_eq!(times, vec![100, 150, 151]);
    assert_eq!(w.samples().len(), 3);
    assert_eq!(w.latest(), Some(&sample(151)));
    assert_eq!(w.oldest(), Some(&sample(100)));
    // A sample that comes late stays behind a newer one.
    w.push(sample(120));
    assert_eq!(w.len(), 4);
    w.retain_recent(251);
    let times: Vec<u64> = w.iter().map(|s| s.timestamp_ms).collect();
    assert_eq!(times, vec![151, 120]);
    w.clear();
    assert_eq!(w.len(), 0);
}

#[test]
fn store_clears_what_is_stale() {
    let mut store = PredictionStore::default();
    let signals = || standard_engine().evaluate(&context(0.01));
    store.update_signals(300, signals(), BtcFeatures::default(), 1_000);
    store.update_signals(600, signals(), BtcFeatures::default(), 2_000);
    store.evict_stale(1_000 + MAX_SIGNAL_AGE_MS);
    assert_eq!(store.get(300).unwrap().signals.len(), 4);
    store.evict_stale(1_001 + MAX_SIGNAL_AGE_MS);
    let old = store.get(300).unwrap();
    assert_eq!((old.signals.len(), old.last_updated_ms), (0, 1_001 + MAX_SIGNAL_AGE_MS));
    assert!(old.btc.is_some());
    assert_eq!(store.get(600).unwrap().signals.len(), 4);
    store.clear_signals(600, 5);
    assert!(store.get(600).unwrap().signals.is_empty());
    store.clear_signals(900, 6);
    assert!(store.get(900).unwrap().btc.is_none());
    store.update_btc(900, BtcFeatures::default(), 7);
    assert_eq!(store.get(900).unwrap().last_updated_ms, 7);
    assert!(store.get(1_200).is_none());
}

#[test]
fn statistics_of_signals() {
    let mut s = PredictionStats::default();
    assert_eq!(s.win_rate(), None);
    s.register_signal(d(0.5), d(0.5));
    s.register_signal(d(1.1), d(0.55));
    s.register_win();
    s.register_loss();
    assert_eq!(s.win_rate(), Some((1, 2)));
    assert_eq!((f(s.cumulative_confidence), f(s.average_confidence)), (1.1, 0.55));
    assert_eq!(s.signals_lost, 1);
}

#[test]
fn reasons_without_measurements_in_words() {
    let text = |r: Reason| r.plain_text();
    assert_eq!(text(Reason::Note(Note::NoLeader)), Some("waiting: no leader established yet".to_string()));
    let building = Reason::Building { ticks: 12, queued: 2 };
    assert_eq!(text(building), Some("waiting: conviction building (12 ticks, queued=2)".to_string()));
    assert_eq!(text(Reason::BelowFloor { opportunity: d(0.5) }), None);
}

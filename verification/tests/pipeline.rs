//! The noise filter, layer by layer and as a whole.

use polybot::decimal::Dec;
use polybot::double::Double;
use polybot::prediction::btc_aggregator::aggregator::{
    contributes, into_candle, AddedSums, Aggregator, AggregatorConfig, BucketState, BucketTotals, Candle,
    ExchangeSums,
};
use polybot::prediction::btc_aggregator::kalman::{
    KalmanConfig, KalmanSmoother, KalmanStep, SmoothedPrice,
};
use polybot::prediction::btc_aggregator::outlier_gate::{OutlierGate, OutlierGateConfig};
use polybot::prediction::btc_aggregator::pipeline::{
    CleanPrice, Pipeline, PipelineConfig, TickReading,
};
use polybot::prediction::btc_aggregator::ranking::{middle, sorted, Middle};
use polybot::prediction::btc_aggregator::spike_filter::{
    SpikeFilter, SpikeFilterConfig, SpikeReading,
};
use polybot::prediction::btc_aggregator::tick::{Exchange, ExchangeTable, ExchangeTick, Level};
use rust_decimal::prelude::{FromPrimitive, ToPrimitive};
use rust_decimal::Decimal;

fn d(x: f64) -> Double {
    Double::from_bits(x.to_bits())
}

fn f(x: Double) -> f64 {
    f64::from_bits(x.bits)
}

fn dec(x: f64) -> Dec {
    let v = Decimal::from_f64(x).unwrap();
    Dec { mantissa: v.mantissa(), scale: v.scale() }
}

fn dec_f(x: Dec) -> f64 {
    Decimal::from_i128_with_scale(x.mantissa, x.scale).to_f64().unwrap()
}

fn make_level(price: f64, amount: f64) -> Level {
    Level { price: dec(price), amount: dec(amount) }
}

/// Ten bid levels descending, ten ask levels ascending.
fn make_tick(exchange: Exchange, ms: u64, mid: f64) -> ExchangeTick {
    let spread = 1.0;
    let bids: Vec<Level> = (0..10)
        .map(|i| make_level(mid - spread / 2.0 - i as f64 * 0.5, 0.1 + i as f64 * 0.05))
        .collect();
    let asks: Vec<Level> = (0..10)
        .map(|i| make_level(mid + spread / 2.0 + i as f64 * 0.5, 0.1 + i as f64 * 0.05))
        .collect();
    ExchangeTick { exchange, received_ms: ms, bids, asks }
}

/// One level on each side.
fn small_tick(exchange: Exchange, ms: u64, price: f64) -> ExchangeTick {
    ExchangeTick {
        exchange,
        received_ms: ms,
        bids: vec![make_level(price - 0.5, 1.0)],
        asks: vec![make_level(price, 1.0)],
    }
}

fn vwap_of(levels: &[Level]) -> Option<f64> {
    let mut notional = 0.0;
    let mut size = 0.0;
    for level in levels {
        notional += dec_f(level.price) * dec_f(level.amount);
        size += dec_f(level.amount);
    }
    if size == 0.0 {
        None
    } else {
        Some(notional / size)
    }
}

fn mid_vwap(tick: &ExchangeTick) -> Option<f64> {
    match (vwap_of(&tick.bids), vwap_of(&tick.asks)) {
        (Some(bid), Some(ask)) => Some((bid + ask) / 2.0),
        _ => None,
    }
}

fn volume(tick: &ExchangeTick) -> f64 {
    dec_f(tick.checked_volume().unwrap())
}

fn spike_reading(filter: &SpikeFilter, exchange: Exchange, mid: Option<f64>) -> SpikeReading {
    match (filter.ema(exchange), mid) {
        (Some(ema), Some(price)) => {
            let ema = f(ema);
            let alpha = f(filter.cfg.ema_alpha);
            SpikeReading {
                change: d((price - ema).abs() / ema),
                blended: d(alpha * price + (1.0 - alpha) * ema),
            }
        },
        _ => SpikeReading { change: d(0.0), blended: d(0.0) },
    }
}

fn spike_accept(filter: &mut SpikeFilter, tick: &ExchangeTick) -> bool {
    let mid = mid_vwap(tick);
    let reading = spike_reading(filter, tick.exchange, mid);
    filter.accept(tick.exchange, mid.map(d), reading)
}

fn median(values: &[f64]) -> f64 {
    let list: Vec<Double> = values.iter().map(|x| d(*x)).collect();
    match middle(&sorted(&list)) {
        Middle::One(x) => f(x),
        Middle::Two(a, b) => (f(a) + f(b)) / 2.0,
    }
}

fn z_score(gate: &OutlierGate, exchange: Exchange, price: f64, ms: u64) -> Double {
    match gate.pool(exchange, d(price), ms) {
        None => d(0.0),
        Some(pool) => {
            let pool: Vec<f64> = pool.iter().map(|x| f(*x)).collect();
            let med = median(&pool);
            let distances: Vec<f64> = pool.iter().map(|x| (x - med).abs()).collect();
            let mad = median(&distances);
            d(0.6745 * (price - med).abs() / (mad + f64::EPSILON))
        },
    }
}

fn gate_accept(gate: &mut OutlierGate, exchange: Exchange, price: f64, ms: u64) -> bool {
    let z = z_score(gate, exchange, price, ms);
    gate.accept(exchange, d(price), ms, z)
}

fn added_sums(agg: &Aggregator, tick: &ExchangeTick, mid: Option<f64>) -> AddedSums {
    let vol = volume(tick);
    let w = vol * f(agg.cfg.trust(tick.exchange));
    let (weighted, weight, total) = match agg.sums(tick.exchange, tick.received_ms) {
        Some(s) => (f(s.weighted), f(s.weight), f(s.volume)),
        None => (0.0, 0.0, 0.0),
    };
    AddedSums {
        weighted: d(weighted + mid.unwrap_or(0.0) * w),
        weight: d(weight + w),
        volume: d(total + vol),
    }
}

fn totals_of(bucket: &BucketState) -> BucketTotals {
    let mut mids: ExchangeTable<Double> = ExchangeTable::new();
    let (mut weighted, mut weight, mut vol) = (0.0, 0.0, 0.0);
    for exchange in [Exchange::Binance, Exchange::Coinbase, Exchange::Kraken, Exchange::Bitstamp] {
        let sums: Option<ExchangeSums> = bucket.per_exchange.get(exchange);
        if let Some(s) = sums {
            if contributes(&s) {
                let mid = f(s.weighted) / f(s.weight);
                mids.set(exchange, d(mid));
                weighted += mid * f(s.weight);
                weight += f(s.weight);
                vol += f(s.volume);
            }
        }
    }
    BucketTotals {
        mids,
        weight: d(weight),
        volume: d(vol),
        average: d(weighted / weight),
    }
}

fn aggregate(agg: &mut Aggregator, tick: &ExchangeTick) -> Option<Candle> {
    let mid = mid_vwap(tick);
    let added = added_sums(agg, tick, mid);
    agg.ingest(tick.exchange, tick.received_ms, mid.map(d), added)
        .map(|b| into_candle(&b, agg.cfg.bucket_ms, &totals_of(&b)))
}

fn kalman_step(kf: &KalmanSmoother, vwmp: f64, vol_proxy: f64) -> (Double, KalmanStep) {
    let scaled = f(kf.cfg.measure_noise) * (1.0 + f(kf.cfg.adaptive_scale) * vol_proxy);
    let r = f(kf.effective_noise(d(scaled)));
    let predicted = f(kf.error_cov) + f(kf.cfg.process_noise);
    let gain = predicted / (predicted + r);
    let step = KalmanStep {
        gain: d(gain),
        estimate: d(f(kf.estimate) + gain * (vwmp - f(kf.estimate))),
        error_cov: d((1.0 - gain) * predicted),
    };
    (d(scaled), step)
}

fn smooth(kf: &mut KalmanSmoother, vwmp: f64, vol_proxy: f64) -> SmoothedPrice {
    let (scaled, step) = kalman_step(kf, vwmp, vol_proxy);
    kf.update(d(vwmp), scaled, step)
}

fn run(pipeline: &mut Pipeline, tick: &ExchangeTick) -> Option<CleanPrice> {
    let mid = mid_vwap(tick);
    let reading = TickReading {
        exchange: tick.exchange,
        received_ms: tick.received_ms,
        mid: mid.map(d),
        spike: spike_reading(&pipeline.spike, tick.exchange, mid),
        z: z_score(&pipeline.outlier, tick.exchange, mid.unwrap_or(0.0), tick.received_ms),
        sums: added_sums(&pipeline.aggregator, tick, mid),
    };
    let bucket = pipeline.ingest(&reading)?;
    Some(finish(pipeline, &bucket))
}

fn finish(pipeline: &mut Pipeline, bucket: &BucketState) -> CleanPrice {
    let totals = totals_of(bucket);
    let candle = into_candle(bucket, pipeline.aggregator.cfg.bucket_ms, &totals);
    let vwmp = f(candle.vwmp);
    let vol_proxy = if vwmp > 0.0 { (f(candle.high) - f(candle.low)) / vwmp } else { 0.0 };
    let (scaled, step) = kalman_step(&pipeline.kalman, vwmp, vol_proxy);
    pipeline.publish(bucket, &totals, scaled, step)
}

fn spike_config() -> SpikeFilterConfig {
    SpikeFilterConfig { max_change_frac: d(0.003), ema_alpha: d(0.1), warmup_ticks: 3 }
}

#[test]
fn defaults_are_exact() {
    assert_eq!(SpikeFilterConfig::default(), spike_config());
    let o = OutlierGateConfig::default();
    assert_eq!((f(o.z_threshold), o.min_exchanges, o.max_age_ms), (3.5, 2, 5_000));
    let a = AggregatorConfig::default();
    assert_eq!((a.bucket_ms, a.min_ticks, a.use_trust_weight), (250, 1, true));
    let k = KalmanConfig::default();
    assert_eq!((f(k.process_noise), f(k.measure_noise)), (1e-4, 1e-2));
    assert_eq!((k.adaptive, f(k.adaptive_scale)), (true, 10.0));
}

#[test]
fn exchange_names_and_trust() {
    let all = [
        (Exchange::Binance, "binance", 1.0),
        (Exchange::Coinbase, "coinbase", 0.9),
        (Exchange::Kraken, "kraken", 0.85),
        (Exchange::Bitstamp, "bitstamp", 0.75),
    ];
    for (exchange, label, trust) in all {
        assert_eq!(exchange.label(), label);
        assert_eq!(f(exchange.trust_weight()), trust);
    }
    let plain = AggregatorConfig { use_trust_weight: false, ..AggregatorConfig::default() };
    assert_eq!(f(plain.trust(Exchange::Bitstamp)), 1.0);
}

#[test]
fn depths_and_notional() {
    let tick = make_tick(Exchange::Kraken, 0, 105_000.0);
    assert_eq!(tick.best_bid(), Some(dec(104_999.5)));
    assert_eq!(tick.best_ask(), Some(dec(105_000.5)));
    let (bids, asks) = tick.checked_depths().unwrap();
    assert!((dec_f(bids) - 3.25).abs() < 1e-12);
    assert_eq!(bids, asks);
    assert_eq!(tick.total_bid_size(), bids);
    assert_eq!(tick.total_ask_size(), asks);
    assert!((dec_f(tick.checked_volume().unwrap()) - 6.5).abs() < 1e-12);
    let level = Level { price: Dec { mantissa: 25, scale: 1 }, amount: Dec { mantissa: 4, scale: 0 } };
    assert_eq!(level.checked_notional(), Some(Dec { mantissa: 100, scale: 1 }));
    assert_eq!(level.notional(), Dec { mantissa: 100, scale: 1 });
    let huge = Dec { mantissa: 79228162514264337593543950335, scale: 0 };
    let too_much = Level { price: huge, amount: huge };
    assert_eq!(too_much.checked_notional(), None);
    let empty = ExchangeTick { exchange: Exchange::Kraken, received_ms: 0, bids: vec![], asks: vec![] };
    assert_eq!(empty.best_bid(), None);
    assert_eq!(empty.checked_volume(), Some(Dec { mantissa: 0, scale: 0 }));
    let deep = Level { price: dec(1.0), amount: huge };
    let both = ExchangeTick { bids: vec![deep], asks: vec![deep], ..empty };
    assert_eq!(both.checked_depths(), Some((huge, huge)));
    assert_eq!(both.checked_volume(), None);
    let empty = ExchangeTick { exchange: Exchange::Kraken, received_ms: 0, bids: vec![], asks: vec![] };
    assert_eq!(empty.checked_depths(), Some((Dec { mantissa: 0, scale: 0 }, Dec { mantissa: 0, scale: 0 })));
}

#[test]
fn spike_filter_rejects_large_jump() {
    let mut filter = SpikeFilter::new(SpikeFilterConfig { warmup_ticks: 1, ..spike_config() });

    let t1 = make_tick(Exchange::Binance, 1_000, 105_000.0);
    let t2 = make_tick(Exchange::Binance, 1_100, 105_001.0);
    let t3 = make_tick(Exchange::Binance, 1_200, 105_600.0);
    let t4 = make_tick(Exchange::Binance, 1_300, 105_002.0);

    assert!(spike_accept(&mut filter, &t1), "first tick always passes");
    assert!(spike_accept(&mut filter, &t2), "normal tick passes");
    let before = filter.ema(Exchange::Binance);
    assert!(!spike_accept(&mut filter, &t3), "spike rejected");
    assert_eq!(filter.ema(Exchange::Binance), before, "a spike leaves the average");
    assert!(spike_accept(&mut filter, &t4), "normal tick after spike passes");
    assert_eq!(filter.stats(), vec![(Exchange::Binance, 3, 1)]);
}

#[test]
fn spike_filter_independent_per_exchange() {
    let mut filter = SpikeFilter::new(SpikeFilterConfig::default());

    assert!(spike_accept(&mut filter, &make_tick(Exchange::Binance, 1_000, 105_000.0)));
    assert!(spike_accept(&mut filter, &make_tick(Exchange::Kraken, 1_000, 106_000.0)));
}

#[test]
fn tick_without_price_is_no_tick() {
    let mut filter = SpikeFilter::new(SpikeFilterConfig::default());
    let reading = SpikeReading { change: d(0.0), blended: d(0.0) };
    assert!(!filter.accept(Exchange::Binance, None, reading));
    assert!(!filter.accept(Exchange::Binance, Some(d(0.0)), reading));
    assert!(!filter.accept(Exchange::Binance, Some(d(-1.0)), reading));
    assert_eq!(filter.stats(), vec![]);
    assert_eq!(filter.ema(Exchange::Binance), None);
}

#[test]
fn clean_prices_pass() {
    let mut gate = OutlierGate::new(OutlierGateConfig::default());
    assert!(gate_accept(&mut gate, Exchange::Binance, 105_000.0, 1_000));
    assert!(gate_accept(&mut gate, Exchange::Coinbase, 105_010.0, 1_001));
    assert!(gate_accept(&mut gate, Exchange::Kraken, 104_990.0, 1_002));
    assert!(gate_accept(&mut gate, Exchange::Bitstamp, 105_005.0, 1_003));
}

#[test]
fn stale_outlier_rejected() {
    let mut gate = OutlierGate::new(OutlierGateConfig::default());
    assert!(gate_accept(&mut gate, Exchange::Binance, 105_000.0, 1_000));
    assert!(gate_accept(&mut gate, Exchange::Coinbase, 105_010.0, 1_001));
    assert!(gate_accept(&mut gate, Exchange::Kraken, 104_990.0, 1_002));
    assert!(!gate_accept(&mut gate, Exchange::Bitstamp, 105_600.0, 1_003));
}

#[test]
fn outlier_gate_rejects_divergent_exchange() {
    let mut gate = OutlierGate::new(OutlierGateConfig {
        z_threshold: d(3.5),
        min_exchanges: 2,
        max_age_ms: 5_000,
    });

    assert!(gate_accept(&mut gate, Exchange::Binance, 105_000.0, 1_000));
    assert!(gate_accept(&mut gate, Exchange::Coinbase, 105_002.0, 1_001));
    assert!(gate_accept(&mut gate, Exchange::Kraken, 104_998.0, 1_002));

    assert!(!gate_accept(&mut gate, Exchange::Bitstamp, 105_300.0, 1_003));
    assert!(gate_accept(&mut gate, Exchange::Bitstamp, 105_001.0, 1_004));
}

#[test]
fn outlier_gate_stale_peers_excluded() {
    let mut gate = OutlierGate::new(OutlierGateConfig {
        z_threshold: d(3.5),
        min_exchanges: 2,
        max_age_ms: 500,
    });

    assert!(gate_accept(&mut gate, Exchange::Binance, 105_000.0, 0));
    assert!(gate_accept(&mut gate, Exchange::Coinbase, 105_010.0, 0));
    assert!(gate_accept(&mut gate, Exchange::Kraken, 108_000.0, 1_000));
}

#[test]
fn lonely_price_need_not_be_a_number() {
    let mut gate = OutlierGate::new(OutlierGateConfig::default());
    assert!(gate_accept(&mut gate, Exchange::Binance, f64::NAN, 0));
    assert!(gate_accept(&mut gate, Exchange::Binance, 100.0, 1));
    let alone = OutlierGateConfig { min_exchanges: 1, ..OutlierGateConfig::default() };
    let mut gate = OutlierGate::new(alone);
    assert!(gate_accept(&mut gate, Exchange::Binance, f64::NAN, 0));
    assert!(matches!(gate.cross_median(0), Some(Middle::One(x)) if x.is_nan()));
}

#[test]
fn median_across_exchanges() {
    let mut gate = OutlierGate::new(OutlierGateConfig::default());
    assert_eq!(gate.cross_median(0), None);
    assert!(gate_accept(&mut gate, Exchange::Binance, 100.0, 0));
    assert_eq!(gate.cross_median(0), None);
    assert!(gate_accept(&mut gate, Exchange::Kraken, 104.0, 0));
    assert_eq!(gate.cross_median(0), Some(Middle::Two(d(100.0), d(104.0))));
    assert!(gate_accept(&mut gate, Exchange::Coinbase, 101.0, 0));
    assert_eq!(gate.cross_median(5_000), Some(Middle::One(d(101.0))));
    assert_eq!(gate.cross_median(5_001), None);
}

#[test]
fn order_of_a_list_does_not_move_its_middle() {
    let a = sorted(&vec![d(3.0), d(1.0), d(2.0), d(-4.0)]);
    let b = sorted(&vec![d(-4.0), d(2.0), d(1.0), d(3.0)]);
    assert_eq!(a, vec![d(-4.0), d(1.0), d(2.0), d(3.0)]);
    assert_eq!(middle(&a), middle(&b));
    assert_eq!(middle(&a), Middle::Two(d(1.0), d(2.0)));
}

#[test]
fn emits_candle_on_bucket_boundary() {
    let mut agg = Aggregator::new(AggregatorConfig { bucket_ms: 250, ..AggregatorConfig::default() });

    assert!(aggregate(&mut agg, &small_tick(Exchange::Binance, 100, 105_000.0)).is_none());
    assert!(aggregate(&mut agg, &small_tick(Exchange::Coinbase, 200, 105_010.0)).is_none());
    assert_eq!(agg.current_bucket_open_ms(), Some(0));

    let candle = aggregate(&mut agg, &small_tick(Exchange::Kraken, 300, 105_005.0));
    assert!(candle.is_some());
    let c = candle.unwrap();
    assert_eq!(c.open_ms, 0);
    assert_eq!(c.close_ms, 250);
    assert_eq!(c.tick_count, 2);
    assert_eq!(f(c.open), 104_999.75);
    assert_eq!(f(c.close), 105_009.75);
    assert_eq!(f(c.high), 105_009.75);
    assert_eq!(f(c.low), 104_999.75);
    assert_eq!(c.exchange_contributions.get(Exchange::Binance).unwrap().ticks, 1);
    assert_eq!(c.exchange_contributions.get(Exchange::Kraken), None);
    assert_eq!(agg.current_bucket_open_ms(), Some(250));
}

#[test]
fn aggregator_vwmp_weighted_by_volume_and_trust() {
    let mut agg = Aggregator::new(AggregatorConfig {
        bucket_ms: 250,
        min_ticks: 1,
        use_trust_weight: true,
    });

    aggregate(&mut agg, &make_tick(Exchange::Binance, 100, 105_000.0));
    aggregate(&mut agg, &make_tick(Exchange::Bitstamp, 200, 106_000.0));

    let candle = aggregate(&mut agg, &make_tick(Exchange::Binance, 300, 105_000.0))
        .expect("candle should be emitted");

    assert!(f(candle.vwmp) < 105_500.0, "Binance should dominate: {}", f(candle.vwmp));
    println!("VWMP: {:.2} (Binance=105000, Bitstamp=106000)", f(candle.vwmp));
}

#[test]
fn aggregator_flush_returns_partial_bucket() {
    let mut agg = Aggregator::new(AggregatorConfig::default());
    aggregate(&mut agg, &make_tick(Exchange::Binance, 0, 105_000.0));

    let bucket = agg.flush().expect("flush should return partial bucket");
    let candle = into_candle(&bucket, agg.cfg.bucket_ms, &totals_of(&bucket));
    assert_eq!(candle.tick_count, 1);
    assert_eq!(agg.flush(), None);
}

#[test]
fn bucket_with_too_few_ticks_is_dropped() {
    let mut agg = Aggregator::new(AggregatorConfig { min_ticks: 2, ..AggregatorConfig::default() });
    assert!(aggregate(&mut agg, &small_tick(Exchange::Binance, 0, 100.0)).is_none());
    assert!(aggregate(&mut agg, &small_tick(Exchange::Binance, 250, 100.0)).is_none());
    assert!(aggregate(&mut agg, &small_tick(Exchange::Binance, 260, 100.0)).is_none());
    assert_eq!(aggregate(&mut agg, &small_tick(Exchange::Binance, 500, 100.0)).unwrap().tick_count, 2);
}

#[test]
fn seeds_on_first_call() {
    let mut kf = KalmanSmoother::new(KalmanConfig::default());
    assert_eq!(kf.current_estimate(), None);
    let out = smooth(&mut kf, 105_000.0, 0.0);
    assert_eq!(f(out.estimate), 105_000.0);
    assert_eq!(f(out.gain), 1.0);
    assert_eq!(kf.current_estimate(), Some(d(105_000.0)));
}

#[test]
fn smooths_noise() {
    let mut kf = KalmanSmoother::new(KalmanConfig::default());
    smooth(&mut kf, 100.0, 0.0);

    let measurements = [101.0, 99.0, 100.5, 99.5, 100.2];
    let mut estimates: Vec<f64> = Vec::new();

    for &m in &measurements {
        let out = smooth(&mut kf, m, 0.001);
        estimates.push(f(out.estimate));
    }

    let raw_var: f64 =
        measurements.iter().map(|x| (x - 100.0f64).powi(2)).sum::<f64>() / measurements.len() as f64;
    let est_var: f64 =
        estimates.iter().map(|x| (x - 100.0).powi(2)).sum::<f64>() / estimates.len() as f64;

    assert!(est_var < raw_var, "Kalman should reduce variance");
}

#[test]
fn kalman_reduces_variance_on_noisy_signal() {
    let mut kf = KalmanSmoother::new(KalmanConfig {
        process_noise: d(1e-4),
        measure_noise: d(1e-2),
        adaptive: false,
        adaptive_scale: d(0.0),
    });

    let true_price = 105_000.0_f64;
    let noise: [f64; 10] = [50.0, -40.0, 30.0, -20.0, 10.0, -30.0, 45.0, -15.0, 25.0, -5.0];

    let mut raw_mse = 0.0_f64;
    let mut kal_mse = 0.0_f64;

    smooth(&mut kf, true_price, 0.0);

    for &n in &noise {
        let measured = true_price + n;
        let out = smooth(&mut kf, measured, 0.0);
        raw_mse += n * n;
        kal_mse += (f(out.estimate) - true_price).powi(2);
    }

    println!("raw MSE: {raw_mse:.1}  kalman MSE: {kal_mse:.1}");
    assert!(kal_mse < raw_mse, "Kalman should reduce MSE");
}

#[test]
fn kalman_adaptive_increases_smoothing_during_volatile_candle() {
    let mut kf_fixed = KalmanSmoother::new(KalmanConfig { adaptive: false, ..KalmanConfig::default() });
    let mut kf_adaptive = KalmanSmoother::new(KalmanConfig {
        adaptive: true,
        adaptive_scale: d(10.0),
        ..KalmanConfig::default()
    });

    smooth(&mut kf_fixed, 105_000.0, 0.0);
    smooth(&mut kf_adaptive, 105_000.0, 0.0);

    let vol_proxy = 200.0 / 105_000.0;
    let measurement = 105_100.0;

    let fixed_out = smooth(&mut kf_fixed, measurement, vol_proxy);
    let adaptive_out = smooth(&mut kf_adaptive, measurement, vol_proxy);

    println!("fixed gain: {:.4}  adaptive gain: {:.4}", f(fixed_out.gain), f(adaptive_out.gain));
    assert!(
        f(adaptive_out.gain) < f(fixed_out.gain),
        "adaptive gain should be lower during volatile candle"
    );
    assert_eq!(f(fixed_out.r_effective), 1e-2);
}

#[test]
fn full_pipeline_emits_candles_and_cleans_spikes() {
    let cfg = PipelineConfig {
        spike: SpikeFilterConfig { max_change_frac: d(0.003), warmup_ticks: 3, ema_alpha: d(0.1) },
        outlier: OutlierGateConfig { z_threshold: d(3.5), min_exchanges: 1, max_age_ms: 5_000 },
        aggregator: AggregatorConfig { bucket_ms: 250, min_ticks: 1, use_trust_weight: true },
        kalman: KalmanConfig {
            process_noise: d(1e-4),
            measure_noise: d(1e-2),
            adaptive: true,
            adaptive_scale: d(10.0),
        },
    };

    let mut pipeline = Pipeline::new(cfg);
    let mut candles_emitted = 0usize;

    for i in 0..20_u64 {
        let ms = i * 50;
        let price = 105_000.0 + (i as f64 * 0.5).sin() * 10.0;
        let tick = make_tick(Exchange::Binance, ms, price);

        if let Some(clean) = run(&mut pipeline, &tick) {
            candles_emitted += 1;
            assert!(
                (f(clean.smoothed) - 105_000.0).abs() < 100.0,
                "smoothed price wildly off: {}",
                f(clean.smoothed)
            );
        }
    }

    let spike = make_tick(Exchange::Binance, 1_500, 108_000.0);
    let result = run(&mut pipeline, &spike);
    assert!(
        result.is_none()
            || result.map(|c| (f(c.smoothed) - 105_000.0).abs() < 500.0).unwrap_or(true)
    );

    println!("Pipeline stats: {:?}", pipeline.stats());
    assert!(candles_emitted >= 2, "should have emitted at least 2 candles");
    assert_eq!(pipeline.rejected(), 1);
    let stats = pipeline.stats();
    assert_eq!(stats.ticks_received, 21);
    assert_eq!(stats.ticks_spike_rejected, 1);
    assert_eq!(stats.ticks_accepted, 20);
    assert_eq!(stats.candles_emitted, candles_emitted as u64);
}

#[test]
fn candles_hold_together() {
    let mut pipeline = Pipeline::new(PipelineConfig::default());
    let prices = [105_000.0, 105_020.0, 104_985.0, 105_005.0, 105_010.0, 105_002.0];
    let exchanges = [Exchange::Binance, Exchange::Kraken, Exchange::Binance];
    let mut ticks = 0;
    for (i, price) in prices.iter().enumerate() {
        let tick = small_tick(exchanges[i % 3], 1_000 + i as u64 * 90, *price);
        if let Some(clean) = run(&mut pipeline, &tick) {
            let c = clean.candle;
            assert_eq!((c.open_ms, c.close_ms), (1_000, 1_250));
            assert_eq!((f(c.open), f(c.close)), (104_999.75, 104_984.75));
            assert_eq!((f(c.low), f(c.high)), (104_984.75, 105_019.75));
            let of = |e: Exchange| c.exchange_contributions.get(e).map(|x| x.ticks);
            assert_eq!((of(Exchange::Binance), of(Exchange::Kraken)), (Some(2), Some(1)));
            assert_eq!((of(Exchange::Coinbase), of(Exchange::Bitstamp)), (None, None));
            ticks += c.tick_count;
        }
    }
    assert_eq!(ticks, 3);
    let bucket = pipeline.flush().unwrap();
    let last = finish(&mut pipeline, &bucket).candle;
    assert_eq!((last.open_ms, last.tick_count), (1_250, 3));
    let stats = pipeline.stats();
    assert_eq!((stats.ticks_accepted, stats.candles_emitted), (6, 2));
}

#[test]
fn pipeline_reset_smoother_clears_kalman_state() {
    let mut pipeline = Pipeline::new(PipelineConfig::default());

    for i in 0..10_u64 {
        run(&mut pipeline, &make_tick(Exchange::Binance, i * 30, 105_000.0));
    }

    pipeline.reset_smoother();

    let tick = make_tick(Exchange::Binance, 400, 99_000.0);
    if let Some(clean) = run(&mut pipeline, &tick) {
        assert_eq!(clean.smoothed, clean.raw_vwmp, "first post-reset price = measurement");
    }
    let bucket = pipeline.flush().expect("the bucket before the rejected tick");
    let clean = finish(&mut pipeline, &bucket);
    assert_eq!(clean.smoothed, clean.raw_vwmp, "first post-reset price = measurement");
    assert_eq!(f(clean.kalman_gain), 1.0);
}

#[test]
fn tables_of_exchanges_are_independent() {
    let mut table: ExchangeTable<u8> = ExchangeTable::new();
    table.set(Exchange::Coinbase, 7);
    assert_eq!(table.get(Exchange::Coinbase), Some(7));
    assert_eq!(table.get(Exchange::Binance), None);
    assert_eq!(table.get(Exchange::Kraken), None);
    assert_eq!(table.get(Exchange::Bitstamp), None);
}

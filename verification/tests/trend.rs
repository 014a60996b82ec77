//! The tracker of convictions and the detector of trend strength.

use polybot::double::Double;
use polybot::prediction::conviction::{
    ConvictionTracker, Tally, CANDIDATE_EXPIRY_MS, EXIT_TICKS_REQUIRED, MAX_HOLD_MS, TICKS_REQUIRED,
};
use polybot::prediction::direction::TrendDirection;
use polybot::prediction::trend_strength::{
    TrendStrengthDetector, TrendStrengthSnapshot, DECAY_HALFLIFE_MS, FRESHNESS_MS, READY_TICKS,
    STALE_MS,
};

fn d(x: f64) -> Double {
    Double::from_bits(x.to_bits())
}

fn f(x: Double) -> f64 {
    f64::from_bits(x.bits)
}

fn push_tracker(t: &mut ConvictionTracker, direction: TrendDirection, confidence: f64, now_ms: u64) {
    let (sum, n) = match t.candidate(direction) {
        Some(c) => (f(c.cumulative_confidence), c.consecutive_ticks),
        None => (0.0, 0),
    };
    let cumulative = sum + confidence;
    let tally = Tally { cumulative: d(cumulative), mean: d(cumulative / (n + 1) as f64) };
    t.push(direction, d(confidence), tally, now_ms);
}

fn push_detector(x: &mut TrendStrengthDetector, direction: TrendDirection, confidence: f64, now_ms: u64) {
    let stream = match direction {
        TrendDirection::Bullish => x.bull,
        TrendDirection::Bearish => x.bear,
        TrendDirection::Sideways => None,
    };
    let blended = match stream {
        Some(s) => 0.05 * confidence + 0.95 * f(s.ewma_confidence),
        None => confidence,
    };
    x.push(direction, d(confidence), d(blended), now_ms);
}

fn snapshot(x: &TrendStrengthDetector, now_ms: u64) -> TrendStrengthSnapshot {
    let score = |s: Option<polybot::prediction::trend_strength::DirectionState>| match s {
        Some(s) => {
            let age = now_ms.saturating_sub(s.last_seen_ms) as f64;
            f(s.ewma_confidence) * 0.5f64.powf(age / DECAY_HALFLIFE_MS as f64)
        },
        None => 0.0,
    };
    x.snapshot(now_ms, d(score(x.bull)), d(score(x.bear)))
}

#[test]
fn opposites() {
    assert!(TrendDirection::Bullish.is_opposite(TrendDirection::Bearish));
    assert!(TrendDirection::Bearish.is_opposite(TrendDirection::Bullish));
    assert!(!TrendDirection::Bullish.is_opposite(TrendDirection::Bullish));
    assert!(!TrendDirection::Bullish.is_opposite(TrendDirection::Sideways));
}

#[test]
fn eight_ticks_make_a_conviction() {
    let mut t = ConvictionTracker::new();
    for i in 0..TICKS_REQUIRED {
        assert_eq!(t.snapshot().active, None);
        push_tracker(&mut t, TrendDirection::Bullish, 0.75, i as u64 * 100);
    }
    let active = t.snapshot().active.unwrap();
    assert_eq!(active.direction, TrendDirection::Bullish);
    assert_eq!(f(active.mean_confidence), 0.75);
    assert_eq!(active.activated_at_ms, 700);
    t.reset();
    assert_eq!(t.snapshot().active, None);
    assert_eq!(t.snapshot().building, None);
}

#[test]
fn weak_ticks_build_nothing() {
    let mut t = ConvictionTracker::new();
    for i in 0..20 {
        push_tracker(&mut t, TrendDirection::Bullish, 0.59, i * 100);
    }
    assert_eq!(t.snapshot().active, None);
    assert_eq!(t.snapshot().building_bullish, None);
}

#[test]
fn conviction_outlives_a_single_contradiction() {
    let mut t = ConvictionTracker::new();
    for i in 0..TICKS_REQUIRED {
        push_tracker(&mut t, TrendDirection::Bullish, 0.8, i as u64 * 100);
    }
    push_tracker(&mut t, TrendDirection::Bearish, 0.9, 1_000);
    assert_eq!(t.snapshot().active.unwrap().direction, TrendDirection::Bullish);
    push_tracker(&mut t, TrendDirection::Sideways, 0.9, 1_100);
    assert_eq!(t.snapshot().active.unwrap().direction, TrendDirection::Bullish);
    // The agreeing tick clears the count against the signal.
    push_tracker(&mut t, TrendDirection::Bullish, 0.9, 1_200);
    for i in 0..(EXIT_TICKS_REQUIRED as u64 - 1) {
        push_tracker(&mut t, TrendDirection::Bearish, 0.9, 1_300 + i * 100);
    }
    assert_eq!(t.snapshot().active.unwrap().direction, TrendDirection::Bullish);
}

#[test]
fn enough_contradiction_ends_a_conviction() {
    let mut t = ConvictionTracker::new();
    for i in 0..TICKS_REQUIRED {
        push_tracker(&mut t, TrendDirection::Bullish, 0.8, i as u64 * 100);
    }
    for i in 0..EXIT_TICKS_REQUIRED {
        push_tracker(&mut t, TrendDirection::Bearish, 0.9, 1_000 + i as u64 * 100);
    }
    assert_eq!(t.snapshot().active, None);
}

#[test]
fn only_an_unbroken_run_ends_a_conviction() {
    let mut t = ConvictionTracker::new();
    for i in 0..TICKS_REQUIRED {
        push_tracker(&mut t, TrendDirection::Bullish, 0.75, i as u64 * 100);
    }
    for i in 0..4 {
        push_tracker(&mut t, TrendDirection::Bearish, 0.7, 1_000 + i * 100);
    }
    push_tracker(&mut t, TrendDirection::Sideways, 0.7, 1_400);
    push_tracker(&mut t, TrendDirection::Bearish, 0.7, 1_500);
    assert_eq!(t.snapshot().active.unwrap().direction, TrendDirection::Bullish);
    for i in 0..3 {
        push_tracker(&mut t, TrendDirection::Bearish, 0.7, 1_600 + i * 100);
        assert!(t.snapshot().active.is_some());
    }
    push_tracker(&mut t, TrendDirection::Bearish, 0.7, 1_900);
    assert_eq!(t.snapshot().active, None);
}

#[test]
fn waiting_entry_expires_with_the_hold() {
    let mut t = ConvictionTracker::new();
    for i in 0..8 {
        push_tracker(&mut t, TrendDirection::Bullish, 0.75, i * 100);
    }
    for i in 0..8 {
        push_tracker(&mut t, TrendDirection::Bearish, 0.625, 800 + i * 100);
    }
    let waiting = t.snapshot();
    assert_eq!((waiting.active.unwrap().direction, waiting.queued), (TrendDirection::Bullish, 1));
    push_tracker(&mut t, TrendDirection::Sideways, 0.5, 300_000);
    assert_eq!((t.snapshot().active, t.snapshot().queued), (None, 0));
}

#[test]
fn fresh_entry_follows_the_hold() {
    let mut t = ConvictionTracker::new();
    for i in 0..8 {
        push_tracker(&mut t, TrendDirection::Bullish, 0.75, i * 100);
    }
    for i in 0..8 {
        push_tracker(&mut t, TrendDirection::Bearish, 0.625, 800 + i * 100);
    }
    push_tracker(&mut t, TrendDirection::Sideways, 0.5, 1_500 + CANDIDATE_EXPIRY_MS);
    let active = t.snapshot().active.unwrap();
    assert_eq!((active.direction, active.activated_at_ms), (TrendDirection::Bearish, 241_500));
    assert_eq!(f(active.mean_confidence), 0.625);
}

#[test]
fn conviction_is_held_for_four_minutes_at_most() {
    let mut t = ConvictionTracker::new();
    for i in 0..TICKS_REQUIRED {
        push_tracker(&mut t, TrendDirection::Bearish, 0.8, i as u64 * 100);
    }
    assert!(t.snapshot().active.is_some());
    push_tracker(&mut t, TrendDirection::Sideways, 0.1, 700 + MAX_HOLD_MS + 1);
    assert_eq!(t.snapshot().active, None);
}

#[test]
fn contradiction_preserves_ewma_and_timestamps_but_strips_readiness() {
    let mut x = TrendStrengthDetector::new();
    let mut t = 0u64;

    for _ in 0..READY_TICKS {
        push_detector(&mut x, TrendDirection::Bearish, 0.90, t);
        t += 100;
    }
    let before = x.bear.clone().unwrap();
    assert!(before.ready(t));
    assert!(f(before.ewma_confidence) > 0.0);

    push_detector(&mut x, TrendDirection::Bullish, 0.65, t);

    let after = x.bear.clone().unwrap();
    assert_eq!(after.consecutive_ticks, 0);
    assert!(!after.ready(t));
    assert_eq!(after.ewma_confidence, before.ewma_confidence);
    assert_eq!(after.first_seen_ms, before.first_seen_ms);
    assert_eq!(after.last_seen_ms, before.last_seen_ms);
}

#[test]
fn stream_starts_anew_after_a_long_silence() {
    let mut x = TrendStrengthDetector::new();
    for i in 0..READY_TICKS as u64 {
        push_detector(&mut x, TrendDirection::Bullish, 0.9, i * 100);
    }
    let mut kept = x;
    push_detector(&mut kept, TrendDirection::Bullish, 0.7, 700 + STALE_MS);
    assert_eq!((kept.bull.unwrap().consecutive_ticks, kept.bull.unwrap().first_seen_ms), (9, 0));
    push_detector(&mut x, TrendDirection::Bullish, 0.7, 701 + STALE_MS);
    let anew = x.bull.unwrap();
    assert_eq!((anew.consecutive_ticks, anew.first_seen_ms), (1, 60_701));
    assert_eq!(f(anew.ewma_confidence), 0.7);
    assert!(snapshot(&x, 60_701).leader.is_none());
}

#[test]
fn bull_and_bear_never_simultaneously_ready() {
    let mut x = TrendStrengthDetector::new();
    let mut t = 0u64;

    for _ in 0..READY_TICKS {
        push_detector(&mut x, TrendDirection::Bullish, 0.85, t);
        t += 100;
    }
    for _ in 0..READY_TICKS {
        push_detector(&mut x, TrendDirection::Bearish, 0.85, t);
        t += 100;
    }

    let bull_ready = x.bull.as_ref().is_some_and(|s| s.ready(t));
    let bear_ready = x.bear.as_ref().is_some_and(|s| s.ready(t));
    assert!(!(bull_ready && bear_ready));
}

#[test]
fn freshness_gates_leadership_without_evicting_stream() {
    let mut x = TrendStrengthDetector::new();
    let mut t = 0u64;

    for _ in 0..READY_TICKS {
        push_detector(&mut x, TrendDirection::Bullish, 0.85, t);
        t += 100;
    }

    let snap_fresh = snapshot(&x, t);
    assert!(snap_fresh.leader.is_some(), "should lead while fresh");

    let stale_t = t + FRESHNESS_MS + 1;
    let snap_stale = snapshot(&x, stale_t);
    assert!(
        snap_stale.leader.is_none(),
        "should lose leadership after FRESHNESS_MS of silence"
    );

    assert!(
        x.bull.is_some(),
        "stream must survive beyond FRESHNESS_MS; only STALE_MS evicts"
    );
}

#[test]
fn no_reset_method_exists_state_survives_indefinitely() {
    let mut x = TrendStrengthDetector::new();
    for i in 0..READY_TICKS {
        push_detector(&mut x, TrendDirection::Bullish, 0.80, i as u64 * 100);
    }
    let snap = snapshot(&x, READY_TICKS as u64 * 100);
    let leader = snap.leader.unwrap();
    assert_eq!(leader.direction, TrendDirection::Bullish);
    assert_eq!(leader.consecutive_ticks, READY_TICKS);
    assert_eq!(leader.held_ms, READY_TICKS as u64 * 100);
}

#[test]
fn silent_stream_is_dropped_after_a_minute() {
    let mut x = TrendStrengthDetector::new();
    push_detector(&mut x, TrendDirection::Bullish, 0.80, 0);
    assert!(!x.bull.unwrap().is_stale(STALE_MS));
    assert!(x.bull.unwrap().is_stale(STALE_MS + 1));
    push_detector(&mut x, TrendDirection::Bearish, 0.80, STALE_MS + 1);
    assert_eq!(x.bull, None);
}

#[test]
fn sideways_and_weak_ticks_touch_nothing() {
    let mut x = TrendStrengthDetector::new();
    push_detector(&mut x, TrendDirection::Bullish, 0.80, 0);
    let before = x;
    push_detector(&mut x, TrendDirection::Sideways, 0.99, 100);
    assert_eq!(x, before);
    push_detector(&mut x, TrendDirection::Bullish, 0.59, 100);
    assert_eq!(x, before);
}

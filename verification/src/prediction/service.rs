//! What ties the feeds, the model and the strategies together: the receiver of the model's
//! output, and the loop that asks the strategies once a second.

use vstd::prelude::*;
use crate::double::Double;
use crate::prediction::context::{ModelView, PredictionContext};
use crate::prediction::conviction;
use crate::prediction::conviction::{ConvictionSnapshot, ConvictionTracker, Tally, TrackerView};
use crate::prediction::direction::TrendDirection;
use crate::prediction::engine::{opinions, PredictionEngine};
use crate::prediction::signals::StrategyId;
use crate::prediction::state;
use crate::prediction::state::{PredictionStore, PredictionView};
use crate::prediction::storage;
use crate::prediction::storage::minus_or_zero;
use crate::prediction::strategies::any::AnyStrategy;
use crate::prediction::strategies::conviction_follow::ConvictionFollowStrategy;
use crate::prediction::strategies::external_btc::ExternalBtcStrategy;
use crate::prediction::strategies::hype_reversion::HypeReversionStrategy;
use crate::prediction::strategies::trend_strength_strategy::TrendStrengthStrategy;
use crate::prediction::strategy::PredictionStrategy;
use crate::prediction::trend_strength::{TrendStrengthDetector, TrendStrengthSnapshot};
use crate::state::WINDOW_SECS;
use crate::text::texts;

verus! {

/// How often the strategies are asked, in milliseconds.
pub const POLL_INTERVAL_MS: u64 = 1_000;

/// The confidence from which on the rules speak where the model sees no trend: 0.70.
pub const HEURISTIC_CONFIDENCE_BITS: u64 = 0x3fe6_6666_6666_6666;

/// The direction that a tick of the model counts for, and its confidence. The model comes
/// first; where it sees no trend, the rules, if they are confident.
pub open spec fn blended(m: ModelView) -> (TrendDirection, Double) {
    if m.fused_direction !is Sideways {
        (m.fused_direction, m.fused_confidence)
    } else if m.heuristic_direction !is Sideways && (Double {
        bits: HEURISTIC_CONFIDENCE_BITS,
    }).at_most(m.heuristic_confidence) {
        (m.heuristic_direction, m.heuristic_confidence)
    } else {
        (TrendDirection::Sideways, m.fused_confidence)
    }
}

/// The direction that a tick of the model counts for, and its confidence.
pub fn blend(m: &ModelView) -> (r: (TrendDirection, Double))
    ensures
        r == blended(*m),
{
    if m.fused_direction != TrendDirection::Sideways {
        return (m.fused_direction, m.fused_confidence);
    }
    let threshold = Double { bits: HEURISTIC_CONFIDENCE_BITS };
    if m.heuristic_direction != TrendDirection::Sideways && threshold.le(m.heuristic_confidence) {
        return (m.heuristic_direction, m.heuristic_confidence);
    }
    (TrendDirection::Sideways, m.fused_confidence)
}

/// A trend that is pushed is one that the model or the rules see, with their confidence; the
/// rules alone are heard only where the model sees no trend.
pub proof fn law_blend_has_a_source(m: ModelView)
    ensures
        blended(m).0 !is Sideways ==> blended(m) == (m.fused_direction, m.fused_confidence)
            || (m.fused_direction is Sideways && blended(m) == (
            m.heuristic_direction,
            m.heuristic_confidence,
        )),
        m.fused_direction !is Sideways ==> blended(m).0 == m.fused_direction,
{
}

/// What receives the model's output. The tracker forgets everything at the end of a window;
/// the detector never does.
pub struct ModelReceiver {
    pub tracker: ConvictionTracker,
    pub detector: TrendStrengthDetector,
    pub last_window_ts: Option<u64>,
}

impl ModelReceiver {
    /// Both parts are in order.
    pub open spec fn wf(self) -> bool {
        self.tracker@.wf() && self.detector.wf()
    }

    /// A receiver that has seen nothing.
    pub fn new() -> (r: Self)
        ensures
            r.wf(),
            r.tracker@ == TrackerView::initial(),
            r.detector == (TrendStrengthDetector { bull: None, bear: None }),
            r.last_window_ts is None,
    {
        ModelReceiver {
            tracker: ConvictionTracker::new(),
            detector: TrendStrengthDetector::new(),
            last_window_ts: None,
        }
    }

    /// Whether the window has changed since the last tick. The first window is no change.
    pub open spec fn rolls(self, window_ts: u64) -> bool {
        self.last_window_ts is Some && self.last_window_ts->0 != window_ts
    }

    /// Notes the window of a tick. Where it has changed, the tracker is reset and the result
    /// is true.
    pub fn enter_window(&mut self, window_ts: u64) -> (r: bool)
        requires
            old(self).wf(),
        ensures
            final(self).wf(),
            r == old(self).rolls(window_ts),
            final(self).last_window_ts == Some(window_ts),
            final(self).detector == old(self).detector,
            final(self).tracker@ == (if r { TrackerView::initial() } else { old(self).tracker@ }),
    {
        let rolls = match self.last_window_ts {
            Some(last) => last != window_ts,
            None => false,
        };
        if rolls {
            self.tracker.reset();
        }
        self.last_window_ts = Some(window_ts);
        rolls
    }

    /// Takes in a tick of the model. Both parts get the same direction and confidence.
    pub fn push(&mut self, m: &ModelView, tally: Tally, average: Double, now_ms: u64)
        requires
            old(self).wf(),
            old(self).detector.countable(blended(*m).0),
        ensures
            final(self).wf(),
            final(self).tracker@ == old(self).tracker@.pushed(
                blended(*m).0,
                blended(*m).1,
                tally,
                now_ms,
            ),
            final(self).detector == old(self).detector.pushed(
                blended(*m).0,
                blended(*m).1,
                average,
                now_ms,
            ),
            final(self).last_window_ts == old(self).last_window_ts,
    {
        let (direction, confidence) = blend(m);
        self.tracker.push(direction, confidence, tally, now_ms);
        self.detector.push(direction, confidence, average, now_ms);
    }

    /// What both parts show of themselves.
    pub fn snapshots(&self, now_ms: u64, bull_score: Double, bear_score: Double) -> (r: (
        ConvictionSnapshot,
        TrendStrengthSnapshot,
    ))
        requires
            self.wf(),
        ensures
            r == (
                conviction::shown(self.tracker@),
                self.detector.shown(now_ms, bull_score, bear_score),
            ),
    {
        (self.tracker.snapshot(), self.detector.snapshot(now_ms, bull_score, bear_score))
    }
}

/// The ids of the tokens that the loop looks at, and the window that they were found for.
pub struct MarketWatch {
    pub active_window: Option<u64>,
    pub token_ids: Option<Vec<String>>,
}

/// Whether there are the ids of two tokens.
pub open spec fn has_tokens(ids: Option<Vec<String>>) -> bool {
    ids is Some && ids->0@.len() >= 2
}

impl MarketWatch {
    /// A loop that has found nothing yet.
    pub fn new() -> (r: Self)
        ensures
            r.active_window is None,
            r.token_ids is None,
    {
        MarketWatch { active_window: None, token_ids: None }
    }

    /// Whether the tokens of a window are still to be found.
    pub fn wants(&self, window_ts: u64) -> (r: bool)
        ensures
            r == (self.active_window != Some(window_ts)),
    {
        match self.active_window {
            Some(w) => w != window_ts,
            None => true,
        }
    }

    /// Takes the ids that were found for a window. Fewer than two are refused, and nothing
    /// changes.
    pub fn found(&mut self, window_ts: u64, ids: Vec<String>) -> (r: bool)
        ensures
            r == (ids@.len() >= 2),
            r ==> final(self).active_window == Some(window_ts) && final(self).token_ids == Some(ids),
            !r ==> *final(self) == *old(self),
    {
        if ids.len() < 2 {
            return false;
        }
        self.token_ids = Some(ids);
        self.active_window = Some(window_ts);
        true
    }

    /// The ids of the up and the down token, where the strategies can be asked: there are two
    /// tokens, and the origin of bitcoin's price is fixed.
    pub fn ready(&self, origin_locked: bool) -> (r: Option<(String, String)>)
        ensures
            r is Some <==> has_tokens(self.token_ids) && origin_locked,
            r matches Some((up, down)) ==> up@ == texts(self.token_ids->0@)[0] && down@ == texts(
                self.token_ids->0@,
            )[1],
    {
        match &self.token_ids {
            Some(ids) => {
                if ids.len() >= 2 && origin_locked {
                    Some((ids[0].clone(), ids[1].clone()))
                } else {
                    None
                }
            },
            None => None,
        }
    }
}

/// The seconds that are left of a window; zero once it is over.
pub fn seconds_remaining(now_sec: u64, window_ts: u64) -> (r: u64)
    ensures
        r == storage::minus(WINDOW_SECS, storage::minus(now_sec, window_ts)),
        r <= WINDOW_SECS,
        now_sec <= window_ts ==> r == 300,
        window_ts <= now_sec <= window_ts + 300 ==> now_sec + r == window_ts + 300,
        now_sec > window_ts + 300 ==> r == 0,
{
    minus_or_zero(WINDOW_SECS, minus_or_zero(now_sec, window_ts))
}

/// The start of a window in milliseconds.
pub fn window_started_ms(window_ts: u64) -> (r: u64)
    requires
        window_ts * 1_000 <= u64::MAX,
    ensures
        r == window_ts * 1_000,
{
    window_ts * 1_000
}

/// The store after a round: every strategy's signal stands in the window, and what is stale is
/// cleared.
pub open spec fn after_round<S: PredictionStrategy>(
    m: Map<u64, PredictionView>,
    strategies: Seq<S>,
    window_ts: u64,
    ctx: PredictionContext,
) -> Map<u64, PredictionView> {
    state::evicted(
        m.insert(
            window_ts,
            PredictionView {
                signals: opinions(strategies, ctx),
                last_updated_ms: ctx.timestamp_ms,
                btc: Some(ctx.btc),
            },
        ),
        ctx.timestamp_ms,
    )
}

/// Asks every strategy, stores what they say, and clears what is stale.
pub fn run_round<S: PredictionStrategy>(
    engine: &PredictionEngine<S>,
    store: &mut PredictionStore,
    window_ts: u64,
    ctx: &PredictionContext,
)
    ensures
        final(store)@ == after_round(old(store)@, engine@, window_ts, *ctx),
{
    let signals = engine.evaluate(ctx);
    store.update_signals(window_ts, signals, ctx.btc, ctx.timestamp_ms);
    store.evict_stale(ctx.timestamp_ms);
}

/// After a round the window has exactly one signal of each strategy, however old the other
/// windows are.
pub proof fn law_round_shows_every_strategy<S: PredictionStrategy>(
    m: Map<u64, PredictionView>,
    strategies: Seq<S>,
    window_ts: u64,
    ctx: PredictionContext,
)
    ensures
        after_round(m, strategies, window_ts, ctx).contains_key(window_ts),
        after_round(m, strategies, window_ts, ctx)[window_ts].signals == opinions(strategies, ctx),
        after_round(m, strategies, window_ts, ctx)[window_ts].signals.len() == strategies.len(),
{
}

/// The engine with the strategies that the service runs.
pub fn standard_engine() -> (r: PredictionEngine<AnyStrategy>)
    ensures
        r@.len() == 4,
        r@[0].id() == StrategyId::ConvictionFollow,
        r@[1].id() == StrategyId::HypeReversion,
        r@[2].id() == StrategyId::ExternalBtc,
        r@[3].id() == StrategyId::TrendStrength,
{
    let mut engine = PredictionEngine::new();
    engine.register(AnyStrategy::ConvictionFollow(ConvictionFollowStrategy::new()));
    engine.register(AnyStrategy::HypeReversion(HypeReversionStrategy::new()));
    engine.register(AnyStrategy::ExternalBtc(ExternalBtcStrategy::new()));
    engine.register(AnyStrategy::TrendStrength(TrendStrengthStrategy::new()));
    engine
}

/// The model comes first: its direction is pushed wherever it sees one. Where it sees none, that
/// of the rules is, if they see one with a confidence of at least 0.70, and else no direction.
pub proof fn law_rules_are_heard_where_the_model_is_silent(m: ModelView)
    ensures
        ({
            let (direction, confidence) = blended(m);
            let confident = !m.heuristic_confidence.nan() && m.heuristic_confidence.rank()
                >= 0x3fe6_6666_6666_6666;
            let rules = m.fused_direction is Sideways && m.heuristic_direction !is Sideways
                && confident;
            &&& rules ==> direction == m.heuristic_direction && confidence == m.heuristic_confidence
            &&& !rules ==> direction == m.fused_direction && confidence == m.fused_confidence
        }),
{
}

/// A round leaves the window with what the strategies said, at the time of the round, and with the
/// features that they looked at. Every other window is as it was, unless it is older than thirty
/// seconds: then its signals are gone and its features stay.
pub proof fn law_round_touches_its_window_and_stale_ones<S: PredictionStrategy>(
    m: Map<u64, PredictionView>,
    strategies: Seq<S>,
    window_ts: u64,
    ctx: PredictionContext,
    other: u64,
)
    requires
        other != window_ts,
    ensures
        ({
            let after = after_round(m, strategies, window_ts, ctx);
            let stale = ctx.timestamp_ms - m[other].last_updated_ms > 30_000;
            &&& after.contains_key(window_ts)
            &&& after[window_ts].signals.len() == strategies.len()
            &&& forall|i: int|
                0 <= i < strategies.len() ==> (#[trigger] after[window_ts].signals[i])
                    == strategies[i].opinion(ctx)
            &&& after[window_ts].last_updated_ms == ctx.timestamp_ms
            &&& after[window_ts].btc == Some(ctx.btc)
            &&& after.contains_key(other) <==> m.contains_key(other)
            &&& m.contains_key(other) && !stale ==> after[other] == m[other]
            &&& m.contains_key(other) && stale ==> after[other].signals.len() == 0
                && after[other].last_updated_ms == ctx.timestamp_ms && after[other].btc
                == m[other].btc
        }),
{
}

/// The receiver rolls over exactly where it has seen a window before, and another one.
pub proof fn law_receiver_rolls_over_once_per_window(r: ModelReceiver, window_ts: u64)
    ensures
        r.last_window_ts is None ==> !r.rolls(window_ts),
        r.last_window_ts == Some(window_ts) ==> !r.rolls(window_ts),
        r.last_window_ts is Some && r.last_window_ts != Some(window_ts) ==> r.rolls(window_ts),
{
}

/// There are tokens to look at exactly where two or more were found.
pub proof fn law_a_market_has_two_tokens(ids: Option<Vec<String>>)
    ensures
        ids is None ==> !has_tokens(ids),
        ids is Some ==> (has_tokens(ids) <==> ids->0@.len() > 1),
{
}

/// Signals outlive thirty rounds of the loop.
pub proof fn law_signals_outlive_thirty_rounds()
    ensures
        POLL_INTERVAL_MS == 1_000,
        state::MAX_SIGNAL_AGE_MS == 30 * POLL_INTERVAL_MS,
{
}

} // verus!

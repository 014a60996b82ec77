//! What holds of all strategies.

use vstd::prelude::*;
use crate::prediction::context::PredictionContext;
use crate::prediction::btc_feed;
use crate::prediction::btc_feed::FeatureReadings;
use crate::prediction::samples::BtcSample;
use crate::prediction::signals::{Note, PredictionSignal, Reason, SignalType, StrategyId};
use crate::prediction::storage;
use crate::prediction::strategies::any::AnyStrategy;
use crate::prediction::strategies::conviction_follow;
use crate::prediction::strategies::external_btc;
use crate::prediction::strategies::hype_reversion;
use crate::prediction::strategies::mean_reversion;
use crate::prediction::strategies::trend_strength_strategy;
use crate::prediction::strategy::PredictionStrategy;
use crate::prediction::window_state;
use crate::prediction::window_state::{BtcReading, WindowState};
use crate::decimal::Dec;
use crate::double::Double;

verus! {

/// What a strategy says.
pub open spec fn opinion_of(id: StrategyId, ctx: PredictionContext) -> PredictionSignal {
    match id {
        StrategyId::ConvictionFollow => conviction_follow::follow(ctx),
        StrategyId::HypeReversion => hype_reversion::fade(ctx),
        StrategyId::ExternalBtc => external_btc::follow_model(ctx),
        StrategyId::TrendStrength => trend_strength_strategy::follow_leader(ctx),
        StrategyId::MeanReversion => mean_reversion::revert(ctx),
    }
}

/// Every strategy gives a signal under its own name and at the context's time; it buys at the
/// current price of its side's token, which is not zero, or does not trade at all.
pub proof fn law_every_strategy_buys_at_the_price_or_not_at_all(
    id: StrategyId,
    ctx: PredictionContext,
)
    ensures
        opinion_of(id, ctx).strategy == id,
        opinion_of(id, ctx).generated_at_ms == ctx.timestamp_ms,
        opinion_of(id, ctx).signal_type is Buy || opinion_of(id, ctx).signal_type is NoTrade,
        opinion_of(id, ctx).signal_type is Buy ==> {
            let s = opinion_of(id, ctx);
            s.target_entry == ctx.token_spec(s.side).current_price && s.target_entry.mantissa != 0
        },
        opinion_of(id, ctx).signal_type is NoTrade ==> opinion_of(id, ctx).target_entry
            == Dec::zero_spec(),
{
}

/// Of following bitcoin's move and fading it, the two never buy the same side.
pub proof fn law_following_and_fading_oppose(ctx: PredictionContext)
    requires
        conviction_follow::follow(ctx).signal_type is Buy,
        hype_reversion::fade(ctx).signal_type is Buy,
    ensures
        hype_reversion::fade(ctx).side == conviction_follow::follow(ctx).side.other(),
{
}

/// Mean reversion buys only where the engine speaks for a side, no continuation is under way,
/// the data is good enough and the opportunity large enough.
pub proof fn law_reversion_needs_a_bias(ctx: PredictionContext)
    requires
        mean_reversion::revert(ctx).signal_type is Buy,
    ensures
        ctx.reversion is Some,
        ctx.reversion->0.trade_bias is ShortMeanReversion || ctx.reversion->0.trade_bias is
            LongMeanReversion,
        !ctx.reversion->0.barrier_active,
        !ctx.reversion->0.opportunity_score.below(
            Double { bits: mean_reversion::MIN_OPPORTUNITY_SCORE_BITS },
        ),
        !ctx.reversion->0.data_quality.confidence.below(
            Double { bits: mean_reversion::MIN_DATA_QUALITY_BITS },
        ),
{
}

/// Whether bitcoin is at or above its origin.
pub open spec fn above_origin(ctx: PredictionContext) -> bool {
    !ctx.btc.distance_from_origin_pct.nan() && ctx.btc.distance_from_origin_pct.rank() >= 0
}

/// Following buys the token of the side where bitcoin is: the up token at or above the origin, the
/// down token below it. It does so exactly where bitcoin's origin and that token's origin and price
/// are not zero, at that price.
pub proof fn law_following_buys_the_side_of_the_move(ctx: PredictionContext)
    ensures
        ({
            let s = conviction_follow::follow(ctx);
            let token = if above_origin(ctx) { ctx.polymarket.up } else { ctx.polymarket.down };
            let known = ctx.btc.origin_price.mantissa != 0;
            &&& s.signal_type is Buy <==> known && token.origin_price.mantissa != 0
                && token.current_price.mantissa != 0
            &&& s.signal_type is Buy ==> (s.side is Up <==> above_origin(ctx)) && s.target_entry
                == token.current_price && s.target_exit == token.current_price && s.stop_loss
                == token.current_price && s.confidence.bits == 0
            &&& !known ==> s.reason == Reason::Note(Note::OriginNotLocked)
            &&& known && token.origin_price.mantissa == 0 ==> s.reason == Reason::Note(
                Note::TokenOriginNotSet,
            )
            &&& known && token.origin_price.mantissa != 0 && token.current_price.mantissa == 0
                ==> s.reason == Reason::Note(Note::TokenPriceZero)
            &&& s.signal_type is Buy ==> (s.reason matches Reason::Conviction {
                trend,
                token: shown,
                entry,
            } && trend.features == ctx.btc && (trend.side is Up <==> above_origin(ctx)) && entry
                == token.current_price && shown.distance_from_origin_pct
                == token.distance_from_origin_pct && shown.imbalance == token.imbalance
                && shown.avg_distance_from_origin == (if ctx.seconds_remaining < 300 {
                token.avg_distance
            } else {
                Double { bits: 0 }
            }))
        }),
{
}

/// Fading buys the token of the other side: the down token where bitcoin is at or above its origin,
/// the up token where it is below. It does so exactly where bitcoin's origin and that token's price
/// are not zero and the model has spoken.
pub proof fn law_fading_buys_the_other_side(ctx: PredictionContext)
    ensures
        ({
            let s = hype_reversion::fade(ctx);
            let token = if above_origin(ctx) { ctx.polymarket.down } else { ctx.polymarket.up };
            let known = ctx.btc.origin_price.mantissa != 0;
            &&& s.signal_type is Buy <==> known && token.current_price.mantissa != 0
                && ctx.external_prediction is Some
            &&& s.signal_type is Buy ==> (s.side is Down <==> above_origin(ctx)) && s.target_entry
                == token.current_price && s.target_exit == token.current_price && s.stop_loss
                == token.current_price && s.confidence == ctx.btc.toward_high
            &&& !known ==> s.reason == Reason::Note(Note::OriginNotLocked)
            &&& known && token.current_price.mantissa == 0 ==> s.reason == Reason::Note(
                Note::TokenPriceZero,
            )
            &&& known && token.current_price.mantissa != 0 && ctx.external_prediction is None
                ==> s.reason == Reason::Note(Note::NoExternalPrediction)
        }),
{
}

/// Whether the rules without the model speak for a direction: their output is at most five seconds
/// old, they see a direction, and their confidence is not below 0.70.
pub open spec fn rules_speak(ctx: PredictionContext) -> bool {
    let m = ctx.external_prediction->0;
    &&& ctx.external_prediction is Some
    &&& ctx.timestamp_ms - m.snapshot_at_us / 1_000 <= 5_000
    &&& !(m.heuristic_direction is Sideways)
    &&& m.heuristic_confidence.nan() || m.heuristic_confidence.rank() >= 0x3fe6_6666_6666_6666
}

/// The model is followed through its stable signal: where one is active its direction is bought,
/// up for a rising price and down for a falling one, with its mean confidence; only where none is
/// active do the rules without the model decide, and where those are silent nothing is bought.
pub proof fn law_model_is_followed_through_its_stable_signal(ctx: PredictionContext)
    ensures
        ({
            let s = external_btc::follow_model(ctx);
            let active = ctx.conviction is Some && ctx.conviction->0.active is Some;
            let signal = ctx.conviction->0.active->0;
            let rules = ctx.external_prediction->0;
            let direction = if active { signal.direction } else { rules.heuristic_direction };
            let price = if direction is Bullish {
                ctx.polymarket.up.current_price
            } else {
                ctx.polymarket.down.current_price
            };
            let speaks = active || rules_speak(ctx);
            &&& s.signal_type is Buy <==> speaks && !(direction is Sideways) && price.mantissa != 0
            &&& s.signal_type is Buy ==> (s.side is Up <==> direction is Bullish) && s.target_entry
                == price && s.target_exit == price && s.stop_loss == price
            &&& s.signal_type is Buy && active ==> s.confidence == signal.mean_confidence
            &&& s.signal_type is Buy && !active ==> s.confidence == rules.heuristic_confidence
            &&& s.signal_type is Buy ==> s.reason is External && s.reason->External_direction
                == direction && (s.reason->External_source is Conviction <==> active)
            &&& !speaks && ctx.conviction is None ==> s.reason == Reason::Note(Note::NoConviction)
            &&& !speaks && ctx.conviction is Some ==> s.reason == (Reason::Building {
                ticks: ctx.conviction->0.building_ticks,
                queued: ctx.conviction->0.queued,
            })
            &&& speaks && !(direction is Sideways) && price.mantissa == 0 ==> s.reason
                == Reason::Note(Note::TokenPriceZero)
            &&& speaks && direction is Sideways ==> s.reason is NoEdge
        }),
{
}

/// The direction that leads is bought, up for a rising price and down for a falling one, with its
/// score: exactly where one leads that is not sideways and its token has a price.
pub proof fn law_leader_is_bought(ctx: PredictionContext)
    ensures
        ({
            let s = trend_strength_strategy::follow_leader(ctx);
            let leads = ctx.trend_strength is Some && ctx.trend_strength->0.leader is Some;
            let leader = ctx.trend_strength->0.leader->0;
            let price = if leader.direction is Bullish {
                ctx.polymarket.up.current_price
            } else {
                ctx.polymarket.down.current_price
            };
            &&& s.signal_type is Buy <==> leads && !(leader.direction is Sideways) && price.mantissa
                != 0
            &&& s.signal_type is Buy ==> (s.side is Up <==> leader.direction is Bullish)
                && s.target_entry == price && s.target_exit == price && s.stop_loss == price
                && s.confidence == leader.score && s.reason == Reason::Strength(leader)
            &&& ctx.trend_strength is None ==> s.reason == Reason::Note(Note::NoTrendStrength)
            &&& ctx.trend_strength is Some && !leads ==> s.reason == Reason::Note(Note::NoLeader)
            &&& leads && leader.direction is Sideways ==> s.reason == Reason::Note(
                Note::LeaderSideways,
            )
            &&& leads && !(leader.direction is Sideways) && price.mantissa == 0 ==> s.reason
                == Reason::Note(Note::TokenPriceZero)
        }),
{
}

/// Reversion buys against the stretch: the down token where the price is too high, the up token
/// where it is too low. It does so exactly where the engine speaks for a side, the confidence in
/// the data is not below one half, no continuation is under way, the score is not below 0.40, and
/// the token has a price; the score is its confidence.
pub proof fn law_reversion_buys_against_the_stretch(ctx: PredictionContext)
    ensures
        ({
            let s = mean_reversion::revert(ctx);
            let rev = ctx.reversion->0;
            let high = rev.trade_bias is ShortMeanReversion;
            let low = rev.trade_bias is LongMeanReversion;
            let trusted = rev.data_quality.confidence.nan() || rev.data_quality.confidence.rank()
                >= 0x3fe0_0000_0000_0000;
            let large = rev.opportunity_score.nan() || rev.opportunity_score.rank()
                >= 0x3fd9_9999_9999_999a;
            let price = if high {
                ctx.polymarket.down.current_price
            } else {
                ctx.polymarket.up.current_price
            };
            &&& s.signal_type is Buy <==> ctx.reversion is Some && (high || low) && trusted
                && !rev.barrier_active && large && price.mantissa != 0
            &&& s.signal_type is Buy ==> (s.side is Down <==> high) && s.target_entry == price
                && s.target_exit == price && s.stop_loss == price && s.confidence
                == rev.opportunity_score
            &&& s.signal_type is Buy ==> s.reason is Reversion && {
                let g = s.reason->Reversion_0;
                &&& g.bias == rev.trade_bias && g.stretch_score == rev.stretch_score
                    && g.deviation_sigma == rev.deviation_sigma && g.regime == rev.regime
                    && g.regime_confidence == rev.regime_confidence && g.opportunity_score
                    == rev.opportunity_score && g.calibration_brier == rev.calibration_brier
                    && g.half_life == rev.half_life && g.best_horizon == rev.best_horizon
                &&& rev.best_horizon is Some ==> g.best == rev.reversion.at(rev.best_horizon->0)
                &&& rev.best_horizon is None ==> g.best is None
            }
            &&& ctx.reversion is None ==> s.reason == Reason::Note(Note::NoReversion)
            &&& ctx.reversion is Some && !trusted ==> s.reason is LowQuality
            &&& ctx.reversion is Some && trusted && (rev.barrier_active || rev.trade_bias is
                Suppressed) ==> s.reason is BarrierActive
            &&& ctx.reversion is Some && trusted && !rev.barrier_active && rev.trade_bias is Neutral
                ==> s.reason is BelowThreshold
            &&& ctx.reversion is Some && trusted && !rev.barrier_active && (high || low) && !large
                ==> s.reason is BelowFloor
        }),
{
}

/// From the price to the order: once a price of bitcoin has been measured against an origin above
/// zero, following buys the up token where the measured distance is zero or more and the down token
/// where it is less, given that the token has an origin and a price.
pub proof fn law_measured_price_decides_the_side(
    ctx: PredictionContext,
    samples: Seq<BtcSample>,
    ws: WindowState,
    price: Dec,
    received_ms: u64,
    reading: BtcReading,
    q: FeatureReadings,
)
    requires
        ws.btc_origin_locked || received_ms - ws.window_started_ms > 3_000,
        window_state::measured_against(ws, price).mantissa > 0,
        ctx.btc == btc_feed::features_spec(
            storage::pruned(
                samples.push(BtcSample { timestamp_ms: received_ms, price }),
                storage::minus(received_ms, btc_feed::HISTORY_MS),
            ),
            ws.after_btc(price, received_ms, reading),
            q,
        ),
        ctx.polymarket.up.origin_price.mantissa != 0,
        ctx.polymarket.down.origin_price.mantissa != 0,
        ctx.polymarket.up.current_price.mantissa != 0,
        ctx.polymarket.down.current_price.mantissa != 0,
    ensures
        conviction_follow::follow(ctx).signal_type is Buy,
        conviction_follow::follow(ctx).side is Up <==> !reading.distance.nan()
            && reading.distance.rank() >= 0,
        ctx.external_prediction is Some ==> hype_reversion::fade(ctx).signal_type is Buy && (
        hype_reversion::fade(ctx).side is Up <==> reading.distance.nan() || reading.distance.rank()
            < 0),
{
    btc_feed::law_features_show_the_last_price(samples, ws, price, received_ms, reading, q);
    law_following_buys_the_side_of_the_move(ctx);
    law_fading_buys_the_other_side(ctx);
}

/// Each strategy that an engine runs speaks as the strategy of its name.
pub proof fn law_every_strategy_speaks_for_itself(strategy: AnyStrategy, ctx: PredictionContext)
    ensures
        strategy.opinion(ctx) == opinion_of(strategy.id(), ctx),
        strategy is ConvictionFollow <==> strategy.id() is ConvictionFollow,
        strategy is HypeReversion <==> strategy.id() is HypeReversion,
        strategy is ExternalBtc <==> strategy.id() is ExternalBtc,
        strategy is TrendStrength <==> strategy.id() is TrendStrength,
        strategy is MeanReversion <==> strategy.id() is MeanReversion,
{
}

} // verus!

//! Buys the side that the trend model has settled on.

use vstd::prelude::*;
use crate::double::Double;
use crate::prediction::context::{ModelView, PredictionContext};
use crate::prediction::direction::TrendDirection;
use crate::prediction::signals::{
    Note, PredictionSide, PredictionSignal, Reason, Source, StrategyId,
};
use crate::prediction::storage;
use crate::prediction::storage::minus_or_zero;
use crate::prediction::strategy::PredictionStrategy;

verus! {

/// The age in milliseconds from which on the model's output is too old.
pub const MAX_MODEL_AGE_MS: u64 = 5_000;

/// The least confidence of the rules without the model: 0.70.
pub const HEURISTIC_FLOOR_BITS: u64 = 0x3fe6_6666_6666_6666;

#[derive(Debug)]
pub struct ExternalBtcStrategy;

/// The direction of the rules without the model, where they see one with enough confidence and
/// the output is not too old.
pub open spec fn fallback(model: Option<ModelView>, now_ms: u64) -> Option<(TrendDirection, Double)> {
    match model {
        None => None,
        Some(m) => if storage::minus(now_ms, m.snapshot_at_us / 1_000) > MAX_MODEL_AGE_MS {
            None
        } else if m.heuristic_direction is Sideways || m.heuristic_confidence.below(
            Double { bits: HEURISTIC_FLOOR_BITS },
        ) {
            None
        } else {
            Some((m.heuristic_direction, m.heuristic_confidence))
        },
    }
}

/// A direction, how sure it is, and where it comes from.
#[derive(Clone, Copy, Debug, PartialEq, Eq, Structural)]
pub struct Resolution {
    pub direction: TrendDirection,
    pub confidence: Double,
    pub source: Source,
}

/// The direction to act on: the active signal's, and where there is none, that of the rules
/// without the model; or why there is none.
pub open spec fn resolve(ctx: PredictionContext) -> Result<Resolution, Reason> {
    if ctx.conviction is Some && ctx.conviction->0.active is Some {
        let active = ctx.conviction->0.active->0;
        Ok(
            Resolution {
                direction: active.direction,
                confidence: active.mean_confidence,
                source: Source::Conviction,
            },
        )
    } else {
        match fallback(ctx.external_prediction, ctx.timestamp_ms) {
            Some((direction, confidence)) => Ok(
                Resolution { direction, confidence, source: Source::Heuristic },
            ),
            None => match ctx.conviction {
                Some(c) => Err(Reason::Building { ticks: c.building_ticks, queued: c.queued }),
                None => Err(Reason::Note(Note::NoConviction)),
            },
        }
    }
}

/// The side that a direction speaks for.
pub open spec fn side_for(direction: TrendDirection) -> Option<PredictionSide> {
    match direction {
        TrendDirection::Bullish => Some(PredictionSide::Up),
        TrendDirection::Bearish => Some(PredictionSide::Down),
        TrendDirection::Sideways => None,
    }
}

/// The side that a direction speaks for.
pub fn direction_side(direction: TrendDirection) -> (r: Option<PredictionSide>)
    ensures
        r == side_for(direction),
{
    match direction {
        TrendDirection::Bullish => Some(PredictionSide::Up),
        TrendDirection::Bearish => Some(PredictionSide::Down),
        TrendDirection::Sideways => None,
    }
}

/// Buys the side of the direction to act on, once there is one and its token has a price.
pub open spec fn follow_model(ctx: PredictionContext) -> PredictionSignal {
    let id = StrategyId::ExternalBtc;
    let at = ctx.timestamp_ms;
    match resolve(ctx) {
        Err(reason) => PredictionSignal::no_trade_spec(id, reason, at),
        Ok(found) => match side_for(found.direction) {
            None => PredictionSignal::no_trade_spec(
                id,
                Reason::NoEdge { source: found.source, confidence: found.confidence },
                at,
            ),
            Some(side) => {
                let entry = ctx.token_spec(side).current_price;
                if entry.mantissa == 0 {
                    PredictionSignal::no_trade_spec(id, Reason::Note(Note::TokenPriceZero), at)
                } else {
                    PredictionSignal::buy_spec(
                        id,
                        side,
                        found.confidence,
                        entry,
                        at,
                        Reason::External {
                            source: found.source,
                            direction: found.direction,
                            confidence: found.confidence,
                            model: ctx.external_prediction,
                            conviction: ctx.conviction,
                        },
                    )
                }
            },
        },
    }
}

impl ExternalBtcStrategy {
    pub fn new() -> (r: Self)
        ensures
            r == ExternalBtcStrategy,
    {
        ExternalBtcStrategy
    }

    /// The direction of the rules without the model.
    fn heuristic_fallback(&self, ctx: &PredictionContext) -> (r: Option<(TrendDirection, Double)>)
        ensures
            r == fallback(ctx.external_prediction, ctx.timestamp_ms),
    {
        let model = match ctx.external_prediction {
            Some(m) => m,
            None => return None,
        };
        let age_ms: u64 = minus_or_zero(ctx.timestamp_ms, model.snapshot_at_us / 1_000);
        if age_ms > MAX_MODEL_AGE_MS {
            return None;
        }
        if model.heuristic_direction == TrendDirection::Sideways || model.heuristic_confidence.lt(
            Double::from_bits(HEURISTIC_FLOOR_BITS),
        ) {
            return None;
        }
        Some((model.heuristic_direction, model.heuristic_confidence))
    }

    /// The direction to act on.
    fn resolution(&self, ctx: &PredictionContext) -> (r: Result<Resolution, Reason>)
        ensures
            r == resolve(*ctx),
    {
        if let Some(c) = &ctx.conviction {
            if let Some(active) = &c.active {
                return Ok(
                    Resolution {
                        direction: active.direction,
                        confidence: active.mean_confidence,
                        source: Source::Conviction,
                    },
                );
            }
        }
        match self.heuristic_fallback(ctx) {
            Some((direction, confidence)) => Ok(
                Resolution { direction, confidence, source: Source::Heuristic },
            ),
            None => match &ctx.conviction {
                Some(c) => Err(Reason::Building { ticks: c.building_ticks, queued: c.queued }),
                None => Err(Reason::Note(Note::NoConviction)),
            },
        }
    }
}

impl PredictionStrategy for ExternalBtcStrategy {
    open spec fn id(&self) -> StrategyId {
        StrategyId::ExternalBtc
    }

    open spec fn opinion(&self, ctx: PredictionContext) -> PredictionSignal {
        follow_model(ctx)
    }

    fn name(&self) -> (r: &'static str) {
        StrategyId::ExternalBtc.name()
    }

    fn evaluate(&self, ctx: &PredictionContext) -> (r: PredictionSignal) {
        let id = StrategyId::ExternalBtc;
        let found = match self.resolution(ctx) {
            Ok(found) => found,
            Err(reason) => return PredictionSignal::no_trade(id, reason, ctx.timestamp_ms),
        };
        let side = match direction_side(found.direction) {
            Some(side) => side,
            None => {
                return PredictionSignal::no_trade(
                    id,
                    Reason::NoEdge { source: found.source, confidence: found.confidence },
                    ctx.timestamp_ms,
                );
            },
        };
        let entry = ctx.token(side).current_price;
        if entry.mantissa == 0 {
            return PredictionSignal::no_trade(
                id,
                Reason::Note(Note::TokenPriceZero),
                ctx.timestamp_ms,
            );
        }
        PredictionSignal::buy(
            id,
            side,
            found.confidence,
            entry,
            ctx.timestamp_ms,
            Reason::External {
                source: found.source,
                direction: found.direction,
                confidence: found.confidence,
                model: ctx.external_prediction,
                conviction: ctx.conviction,
            },
        )
    }
}

} // verus!

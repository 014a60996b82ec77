//! Buys the token that the crowd neglects: the one opposite to bitcoin's move.

use vstd::prelude::*;
use crate::prediction::analysis;
use crate::prediction::analysis::MarketAnalyzer;
use crate::prediction::context::PredictionContext;
use crate::prediction::signals::{Note, PredictionSide, PredictionSignal, Reason, StrategyId};
use crate::prediction::strategy::PredictionStrategy;

verus! {

#[derive(Debug)]
pub struct HypeReversionStrategy;

impl HypeReversionStrategy {
    pub fn new() -> (r: Self)
        ensures
            r == HypeReversionStrategy,
    {
        HypeReversionStrategy
    }

    /// The side that is neglected while bitcoin moves to `btc_side`.
    pub fn suppressed_side(btc_side: PredictionSide) -> (r: PredictionSide)
        ensures
            r == btc_side.other(),
    {
        match btc_side {
            PredictionSide::Up => PredictionSide::Down,
            PredictionSide::Down => PredictionSide::Up,
        }
    }
}

/// Buys the token opposite to bitcoin's side of its origin, once the origin is known, the token
/// has a price and the model has spoken.
pub open spec fn fade(ctx: PredictionContext) -> PredictionSignal {
    let id = StrategyId::HypeReversion;
    let at = ctx.timestamp_ms;
    match analysis::btc_trend_spec(ctx.btc) {
        None => PredictionSignal::no_trade_spec(id, Reason::Note(Note::OriginNotLocked), at),
        Some(trend) => {
            let side = trend.side.other();
            let entry = ctx.token_spec(side).current_price;
            if entry.mantissa == 0 {
                PredictionSignal::no_trade_spec(id, Reason::Note(Note::TokenPriceZero), at)
            } else {
                match ctx.external_prediction {
                    None => PredictionSignal::no_trade_spec(
                        id,
                        Reason::Note(Note::NoExternalPrediction),
                        at,
                    ),
                    Some(model) => PredictionSignal::buy_spec(
                        id,
                        side,
                        ctx.btc.toward_high,
                        entry,
                        at,
                        Reason::Hype { trend, model },
                    ),
                }
            }
        },
    }
}

impl PredictionStrategy for HypeReversionStrategy {
    open spec fn id(&self) -> StrategyId {
        StrategyId::HypeReversion
    }

    open spec fn opinion(&self, ctx: PredictionContext) -> PredictionSignal {
        fade(ctx)
    }

    fn name(&self) -> (r: &'static str) {
        StrategyId::HypeReversion.name()
    }

    fn evaluate(&self, ctx: &PredictionContext) -> (r: PredictionSignal) {
        let id = StrategyId::HypeReversion;
        let trend = match MarketAnalyzer::btc_trend(ctx) {
            Some(t) => t,
            None => {
                return PredictionSignal::no_trade(
                    id,
                    Reason::Note(Note::OriginNotLocked),
                    ctx.timestamp_ms,
                );
            },
        };
        let side = HypeReversionStrategy::suppressed_side(trend.side);
        let entry = ctx.token(side).current_price;
        if entry.mantissa == 0 {
            return PredictionSignal::no_trade(
                id,
                Reason::Note(Note::TokenPriceZero),
                ctx.timestamp_ms,
            );
        }
        match ctx.external_prediction {
            None => PredictionSignal::no_trade(
                id,
                Reason::Note(Note::NoExternalPrediction),
                ctx.timestamp_ms,
            ),
            Some(model) => PredictionSignal::buy(
                id,
                side,
                ctx.btc.toward_high,
                entry,
                ctx.timestamp_ms,
                Reason::Hype { trend, model },
            ),
        }
    }
}

} // verus!

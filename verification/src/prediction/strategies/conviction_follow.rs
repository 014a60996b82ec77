//! Buys the token of the side that bitcoin moves to.

use vstd::prelude::*;
use crate::double::Double;
use crate::prediction::analysis;
use crate::prediction::analysis::MarketAnalyzer;
use crate::prediction::context::PredictionContext;
use crate::prediction::signals::{Note, PredictionSignal, Reason, StrategyId};
use crate::prediction::storage;
use crate::prediction::storage::minus_or_zero;
use crate::prediction::strategy::PredictionStrategy;

verus! {

#[derive(Debug)]
pub struct ConvictionFollowStrategy;

impl ConvictionFollowStrategy {
    pub fn new() -> (r: Self)
        ensures
            r == ConvictionFollowStrategy,
    {
        ConvictionFollowStrategy
    }
}

/// Buys the token on bitcoin's side of its origin, once both origins are known and the token
/// has a price.
pub open spec fn follow(ctx: PredictionContext) -> PredictionSignal {
    let id = StrategyId::ConvictionFollow;
    let at = ctx.timestamp_ms;
    match analysis::btc_trend_spec(ctx.btc) {
        None => PredictionSignal::no_trade_spec(id, Reason::Note(Note::OriginNotLocked), at),
        Some(trend) => {
            let elapsed = storage::minus(300, ctx.seconds_remaining);
            match analysis::token_trend_spec(ctx, trend.side, elapsed) {
                None => PredictionSignal::no_trade_spec(
                    id,
                    Reason::Note(Note::TokenOriginNotSet),
                    at,
                ),
                Some(token) => {
                    let entry = ctx.token_spec(trend.side).current_price;
                    if entry.mantissa == 0 {
                        PredictionSignal::no_trade_spec(id, Reason::Note(Note::TokenPriceZero), at)
                    } else {
                        PredictionSignal::buy_spec(
                            id,
                            trend.side,
                            Double::zero_spec(),
                            entry,
                            at,
                            Reason::Conviction { trend, token, entry },
                        )
                    }
                },
            }
        },
    }
}

impl PredictionStrategy for ConvictionFollowStrategy {
    open spec fn id(&self) -> StrategyId {
        StrategyId::ConvictionFollow
    }

    open spec fn opinion(&self, ctx: PredictionContext) -> PredictionSignal {
        follow(ctx)
    }

    fn name(&self) -> (r: &'static str) {
        StrategyId::ConvictionFollow.name()
    }

    fn evaluate(&self, ctx: &PredictionContext) -> (r: PredictionSignal) {
        let id = StrategyId::ConvictionFollow;
        let trend = match MarketAnalyzer::btc_trend(ctx) {
            Some(t) => t,
            None => {
                return PredictionSignal::no_trade(
                    id,
                    Reason::Note(Note::OriginNotLocked),
                    ctx.timestamp_ms,
                );
            },
        };
        let elapsed: u64 = minus_or_zero(300, ctx.seconds_remaining);
        let token = match MarketAnalyzer::token_trend(ctx, trend.side, elapsed) {
            Some(t) => t,
            None => {
                return PredictionSignal::no_trade(
                    id,
                    Reason::Note(Note::TokenOriginNotSet),
                    ctx.timestamp_ms,
                );
            },
        };
        let entry = ctx.token(trend.side).current_price;
        if entry.mantissa == 0 {
            return PredictionSignal::no_trade(
                id,
                Reason::Note(Note::TokenPriceZero),
                ctx.timestamp_ms,
            );
        }
        PredictionSignal::buy(
            id,
            trend.side,
            Double::zero(),
            entry,
            ctx.timestamp_ms,
            Reason::Conviction { trend, token, entry },
        )
    }
}

} // verus!

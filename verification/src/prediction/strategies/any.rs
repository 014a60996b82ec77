//! Any of the strategies, so that one engine can run them side by side.

use vstd::prelude::*;
use crate::prediction::context::PredictionContext;
use crate::prediction::signals::{PredictionSignal, StrategyId};
use crate::prediction::strategies::conviction_follow::ConvictionFollowStrategy;
use crate::prediction::strategies::external_btc::ExternalBtcStrategy;
use crate::prediction::strategies::hype_reversion::HypeReversionStrategy;
use crate::prediction::strategies::mean_reversion::MeanReversionStrategy;
use crate::prediction::strategies::trend_strength_strategy::TrendStrengthStrategy;
use crate::prediction::strategy::PredictionStrategy;

verus! {

pub enum AnyStrategy {
    ConvictionFollow(ConvictionFollowStrategy),
    HypeReversion(HypeReversionStrategy),
    ExternalBtc(ExternalBtcStrategy),
    TrendStrength(TrendStrengthStrategy),
    MeanReversion(MeanReversionStrategy),
}

impl PredictionStrategy for AnyStrategy {
    open spec fn id(&self) -> StrategyId {
        match self {
            AnyStrategy::ConvictionFollow(s) => s.id(),
            AnyStrategy::HypeReversion(s) => s.id(),
            AnyStrategy::ExternalBtc(s) => s.id(),
            AnyStrategy::TrendStrength(s) => s.id(),
            AnyStrategy::MeanReversion(s) => s.id(),
        }
    }

    open spec fn opinion(&self, ctx: PredictionContext) -> PredictionSignal {
        match self {
            AnyStrategy::ConvictionFollow(s) => s.opinion(ctx),
            AnyStrategy::HypeReversion(s) => s.opinion(ctx),
            AnyStrategy::ExternalBtc(s) => s.opinion(ctx),
            AnyStrategy::TrendStrength(s) => s.opinion(ctx),
            AnyStrategy::MeanReversion(s) => s.opinion(ctx),
        }
    }

    fn name(&self) -> (r: &'static str) {
        match self {
            AnyStrategy::ConvictionFollow(s) => s.name(),
            AnyStrategy::HypeReversion(s) => s.name(),
            AnyStrategy::ExternalBtc(s) => s.name(),
            AnyStrategy::TrendStrength(s) => s.name(),
            AnyStrategy::MeanReversion(s) => s.name(),
        }
    }

    fn evaluate(&self, ctx: &PredictionContext) -> (r: PredictionSignal) {
        match self {
            AnyStrategy::ConvictionFollow(s) => s.evaluate(ctx),
            AnyStrategy::HypeReversion(s) => s.evaluate(ctx),
            AnyStrategy::ExternalBtc(s) => s.evaluate(ctx),
            AnyStrategy::TrendStrength(s) => s.evaluate(ctx),
            AnyStrategy::MeanReversion(s) => s.evaluate(ctx),
        }
    }
}

} // verus!

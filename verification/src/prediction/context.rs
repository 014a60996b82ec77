//! Everything that a strategy may look at.

use vstd::prelude::*;
use crate::double::Double;
use crate::prediction::conviction::ConvictionSnapshot;
use crate::prediction::direction::TrendDirection;
use crate::prediction::features::{BtcFeatures, PolymarketFeatures, TokenFeatures};
use crate::prediction::reversion::output::ReversionOutput;
use crate::prediction::signals::PredictionSide;
use crate::prediction::trend_strength::TrendStrengthSnapshot;

verus! {

/// The output of the trend model.
#[derive(Clone, Copy, Debug, PartialEq, Eq, Structural)]
pub struct ModelView {
    pub fused_direction: TrendDirection,
    pub fused_confidence: Double,
    /// The same from rules alone, without the model.
    pub heuristic_direction: TrendDirection,
    pub heuristic_confidence: Double,
    pub short_direction: TrendDirection,
    pub short_confidence: Double,
    pub broad_direction: TrendDirection,
    pub broad_confidence: Double,
    /// When the model looked at the market, in microseconds.
    pub snapshot_at_us: u64,
}

#[derive(Debug)]
pub struct PredictionContext {
    pub timestamp_ms: u64,
    pub btc: BtcFeatures,
    pub polymarket: PolymarketFeatures,
    pub seconds_remaining: u64,
    /// The model's output as it is.
    pub external_prediction: Option<ModelView>,
    /// The stable signal that is made of it.
    pub conviction: Option<ConvictionSnapshot>,
    /// The strength of both directions, across windows.
    pub trend_strength: Option<TrendStrengthSnapshot>,
    pub reversion: Option<ReversionOutput>,
}

impl PredictionContext {
    /// The features of a side's token.
    pub open spec fn token_spec(self, side: PredictionSide) -> TokenFeatures {
        match side {
            PredictionSide::Up => self.polymarket.up,
            PredictionSide::Down => self.polymarket.down,
        }
    }

    /// The features of a side's token.
    pub fn token(&self, side: PredictionSide) -> (r: TokenFeatures)
        ensures
            r == self.token_spec(side),
    {
        match side {
            PredictionSide::Up => self.polymarket.up,
            PredictionSide::Down => self.polymarket.down,
        }
    }
}

/// Each side has its own token.
pub proof fn law_each_side_has_its_token(ctx: PredictionContext)
    ensures
        ctx.token_spec(PredictionSide::Up) == ctx.polymarket.up,
        ctx.token_spec(PredictionSide::Down) == ctx.polymarket.down,
{
}

} // verus!

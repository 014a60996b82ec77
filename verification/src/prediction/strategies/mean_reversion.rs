//! Buys the side that the price of bitcoin is expected to come back to.

use vstd::prelude::*;
use crate::double::Double;
use crate::prediction::context::PredictionContext;
use crate::prediction::reversion::output::{ReversionOutput, TradeBias};
use crate::prediction::signals::{
    Note, PredictionSide, PredictionSignal, Reason, ReversionGrounds, StrategyId,
};
use crate::prediction::strategy::PredictionStrategy;

verus! {

/// The least score of an opportunity: 0.40.
pub const MIN_OPPORTUNITY_SCORE_BITS: u64 = 0x3fd9_9999_9999_999a;

/// The least confidence in the data: 0.5.
pub const MIN_DATA_QUALITY_BITS: u64 = 0x3fe0_0000_0000_0000;

#[derive(Debug)]
pub struct MeanReversionStrategy;

impl MeanReversionStrategy {
    pub fn new() -> (r: Self)
        ensures
            r == MeanReversionStrategy,
    {
        MeanReversionStrategy
    }
}

/// What a signal rests on.
pub open spec fn grounds_of(rev: ReversionOutput) -> ReversionGrounds {
    ReversionGrounds {
        bias: rev.trade_bias,
        stretch_score: rev.stretch_score,
        deviation_sigma: rev.deviation_sigma,
        regime: rev.regime,
        regime_confidence: rev.regime_confidence,
        opportunity_score: rev.opportunity_score,
        calibration_brier: rev.calibration_brier,
        best_horizon: rev.best_horizon,
        best: match rev.best_horizon {
            Some(h) => rev.reversion.at(h),
            None => None,
        },
        half_life: rev.half_life,
    }
}

/// The side to buy, or why there is none: the data must be good enough, no continuation may be
/// under way, the engine must speak for a side, and the opportunity must be large enough. A price that is too high is expected to
/// fall, which speaks for the down token, and the other way round.
pub open spec fn choice(rev: ReversionOutput) -> Result<PredictionSide, Reason> {
    if rev.data_quality.confidence.below(Double { bits: MIN_DATA_QUALITY_BITS }) {
        Err(
            Reason::LowQuality {
                confidence: rev.data_quality.confidence,
                feed_age_ms: rev.data_quality.feed_age_ms,
            },
        )
    } else if rev.barrier_active || rev.trade_bias is Suppressed {
        Err(Reason::BarrierActive { regime: rev.regime, opportunity: rev.opportunity_score })
    } else if rev.trade_bias is Neutral {
        Err(Reason::BelowThreshold { regime: rev.regime, opportunity: rev.opportunity_score })
    } else if rev.opportunity_score.below(Double { bits: MIN_OPPORTUNITY_SCORE_BITS }) {
        Err(Reason::BelowFloor { opportunity: rev.opportunity_score })
    } else if rev.trade_bias is ShortMeanReversion {
        Ok(PredictionSide::Down)
    } else {
        Ok(PredictionSide::Up)
    }
}

/// Buys the side that is chosen, once the engine has an answer and the token has a price.
pub open spec fn revert(ctx: PredictionContext) -> PredictionSignal {
    let id = StrategyId::MeanReversion;
    let at = ctx.timestamp_ms;
    match ctx.reversion {
        None => PredictionSignal::no_trade_spec(id, Reason::Note(Note::NoReversion), at),
        Some(rev) => match choice(rev) {
            Err(reason) => PredictionSignal::no_trade_spec(id, reason, at),
            Ok(side) => {
                let entry = ctx.token_spec(side).current_price;
                if entry.mantissa == 0 {
                    PredictionSignal::no_trade_spec(id, Reason::Note(Note::TokenPriceZero), at)
                } else {
                    PredictionSignal::buy_spec(
                        id,
                        side,
                        rev.opportunity_score,
                        entry,
                        at,
                        Reason::Reversion(grounds_of(rev)),
                    )
                }
            },
        },
    }
}

impl PredictionStrategy for MeanReversionStrategy {
    open spec fn id(&self) -> StrategyId {
        StrategyId::MeanReversion
    }

    open spec fn opinion(&self, ctx: PredictionContext) -> PredictionSignal {
        revert(ctx)
    }

    fn name(&self) -> (r: &'static str) {
        StrategyId::MeanReversion.name()
    }

    fn evaluate(&self, ctx: &PredictionContext) -> (r: PredictionSignal) {
        let id = StrategyId::MeanReversion;
        let rev = match &ctx.reversion {
            Some(rev) => rev,
            None => {
                return PredictionSignal::no_trade(
                    id,
                    Reason::Note(Note::NoReversion),
                    ctx.timestamp_ms,
                );
            },
        };
        if rev.data_quality.confidence.lt(Double::from_bits(MIN_DATA_QUALITY_BITS)) {
            return PredictionSignal::no_trade(
                id,
                Reason::LowQuality {
                    confidence: rev.data_quality.confidence,
                    feed_age_ms: rev.data_quality.feed_age_ms,
                },
                ctx.timestamp_ms,
            );
        }
        if rev.barrier_active {
            return PredictionSignal::no_trade(
                id,
                Reason::BarrierActive { regime: rev.regime, opportunity: rev.opportunity_score },
                ctx.timestamp_ms,
            );
        }
        let side = match rev.trade_bias {
            TradeBias::Suppressed => {
                return PredictionSignal::no_trade(
                    id,
                    Reason::BarrierActive {
                        regime: rev.regime,
                        opportunity: rev.opportunity_score,
                    },
                    ctx.timestamp_ms,
                );
            },
            TradeBias::Neutral => {
                return PredictionSignal::no_trade(
                    id,
                    Reason::BelowThreshold {
                        regime: rev.regime,
                        opportunity: rev.opportunity_score,
                    },
                    ctx.timestamp_ms,
                );
            },
            TradeBias::ShortMeanReversion => PredictionSide::Down,
            TradeBias::LongMeanReversion => PredictionSide::Up,
        };
        if rev.opportunity_score.lt(Double::from_bits(MIN_OPPORTUNITY_SCORE_BITS)) {
            return PredictionSignal::no_trade(
                id,
                Reason::BelowFloor { opportunity: rev.opportunity_score },
                ctx.timestamp_ms,
            );
        }
        let entry = ctx.token(side).current_price;
        if entry.mantissa == 0 {
            return PredictionSignal::no_trade(
                id,
                Reason::Note(Note::TokenPriceZero),
                ctx.timestamp_ms,
            );
        }
        let best = match rev.best_horizon {
            Some(h) => rev.reversion.get(h),
            None => None,
        };
        let grounds = ReversionGrounds {
            bias: rev.trade_bias,
            stretch_score: rev.stretch_score,
            deviation_sigma: rev.deviation_sigma,
            regime: rev.regime,
            regime_confidence: rev.regime_confidence,
            opportunity_score: rev.opportunity_score,
            calibration_brier: rev.calibration_brier,
            best_horizon: rev.best_horizon,
            best,
            half_life: rev.half_life,
        };
        PredictionSignal::buy(
            id,
            side,
            rev.opportunity_score,
            entry,
            ctx.timestamp_ms,
            Reason::Reversion(grounds),
        )
    }
}

} // verus!

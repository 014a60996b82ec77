//! Buys the side of the direction that leads.

use vstd::prelude::*;
use crate::prediction::context::PredictionContext;
use crate::prediction::signals::{Note, PredictionSignal, Reason, StrategyId};
use crate::prediction::strategies::external_btc;
use crate::prediction::strategies::external_btc::direction_side;
use crate::prediction::strategy::PredictionStrategy;

verus! {

#[derive(Debug)]
pub struct TrendStrengthStrategy;

impl TrendStrengthStrategy {
    pub fn new() -> (r: Self)
        ensures
            r == TrendStrengthStrategy,
    {
        TrendStrengthStrategy
    }
}

/// Buys the side of the direction that leads, once one does and its token has a price.
pub open spec fn follow_leader(ctx: PredictionContext) -> PredictionSignal {
    let id = StrategyId::TrendStrength;
    let at = ctx.timestamp_ms;
    match ctx.trend_strength {
        None => PredictionSignal::no_trade_spec(id, Reason::Note(Note::NoTrendStrength), at),
        Some(ts) => match ts.leader {
            None => PredictionSignal::no_trade_spec(id, Reason::Note(Note::NoLeader), at),
            Some(leader) => match external_btc::side_for(leader.direction) {
                None => PredictionSignal::no_trade_spec(id, Reason::Note(Note::LeaderSideways), at),
                Some(side) => {
                    let entry = ctx.token_spec(side).current_price;
                    if entry.mantissa == 0 {
                        PredictionSignal::no_trade_spec(id, Reason::Note(Note::TokenPriceZero), at)
                    } else {
                        PredictionSignal::buy_spec(
                            id,
                            side,
                            leader.score,
                            entry,
                            at,
                            Reason::Strength(leader),
                        )
                    }
                },
            },
        },
    }
}

impl PredictionStrategy for TrendStrengthStrategy {
    open spec fn id(&self) -> StrategyId {
        StrategyId::TrendStrength
    }

    open spec fn opinion(&self, ctx: PredictionContext) -> PredictionSignal {
        follow_leader(ctx)
    }

    fn name(&self) -> (r: &'static str) {
        StrategyId::TrendStrength.name()
    }

    fn evaluate(&self, ctx: &PredictionContext) -> (r: PredictionSignal) {
        let id = StrategyId::TrendStrength;
        let ts = match ctx.trend_strength {
            Some(ts) => ts,
            None => {
                return PredictionSignal::no_trade(
                    id,
                    Reason::Note(Note::NoTrendStrength),
                    ctx.timestamp_ms,
                );
            },
        };
        let leader = match ts.leader {
            Some(leader) => leader,
            None => {
                return PredictionSignal::no_trade(
                    id,
                    Reason::Note(Note::NoLeader),
                    ctx.timestamp_ms,
                );
            },
        };
        let side = match direction_side(leader.direction) {
            Some(side) => side,
            None => {
                return PredictionSignal::no_trade(
                    id,
                    Reason::Note(Note::LeaderSideways),
                    ctx.timestamp_ms,
                );
            },
        };
        let entry = ctx.token(side).current_price;
        if entry.mantissa == 0 {
            return PredictionSignal::no_trade(
                id,
                Reason::Note(Note::TokenPriceZero),
                ctx.timestamp_ms,
            );
        }
        PredictionSignal::buy(
            id,
            side,
            leader.score,
            entry,
            ctx.timestamp_ms,
            Reason::Strength(leader),
        )
    }
}

} // verus!

//! What all strategies have in common.

use vstd::prelude::*;
use crate::prediction::context::PredictionContext;
use crate::prediction::signals::{PredictionSignal, StrategyId};

verus! {

/// A strategy. It always gives a signal: where it cannot trade, one that says why.
pub trait PredictionStrategy: Send + Sync + 'static {
    /// Which strategy this is.
    spec fn id(&self) -> StrategyId;

    /// What the strategy says.
    spec fn opinion(&self, ctx: PredictionContext) -> PredictionSignal;

    /// The name of the strategy.
    fn name(&self) -> (r: &'static str)
        ensures
            r@ == self.id().name_spec(),
    ;

    /// What the strategy says.
    fn evaluate(&self, ctx: &PredictionContext) -> (r: PredictionSignal)
        ensures
            r == self.opinion(*ctx),
    ;
}

} // verus!

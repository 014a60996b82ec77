//! Runs all strategies.

use vstd::prelude::*;
use crate::prediction::context::PredictionContext;
use crate::prediction::signals::PredictionSignal;
use crate::prediction::strategy::PredictionStrategy;

verus! {

/// What a list of strategies says, one after the other.
pub open spec fn opinions<S: PredictionStrategy>(strategies: Seq<S>, ctx: PredictionContext) -> Seq<
    PredictionSignal,
> {
    Seq::new(strategies.len(), |i: int| strategies[i].opinion(ctx))
}

pub struct PredictionEngine<S: PredictionStrategy> {
    strategies: Vec<S>,
}

impl<S: PredictionStrategy> View for PredictionEngine<S> {
    type V = Seq<S>;

    closed spec fn view(&self) -> Seq<S> {
        self.strategies@
    }
}

impl<S: PredictionStrategy> PredictionEngine<S> {
    /// An engine without strategies.
    pub fn new() -> (r: Self)
        ensures
            r@ == Seq::<S>::empty(),
    {
        PredictionEngine { strategies: Vec::new() }
    }

    /// The engine with one more strategy.
    pub fn with_strategy(self, strategy: S) -> (r: Self)
        ensures
            r@ == self@.push(strategy),
    {
        let mut strategies = self.strategies;
        strategies.push(strategy);
        PredictionEngine { strategies }
    }

    /// Adds a strategy.
    pub fn register(&mut self, strategy: S)
        ensures
            final(self)@ == old(self)@.push(strategy),
    {
        self.strategies.push(strategy);
    }

    /// What every strategy says, in the order in which they were added. None is left out.
    pub fn evaluate(&self, ctx: &PredictionContext) -> (r: Vec<PredictionSignal>)
        ensures
            r@ == opinions(self@, *ctx),
    {
        let mut out: Vec<PredictionSignal> = Vec::new();
        let mut i: usize = 0;
        while i < self.strategies.len()
            invariant
                i <= self.strategies.len(),
                out@ == opinions(self.strategies@, *ctx).take(i as int),
            decreases self.strategies.len() - i,
        {
            out.push(self.strategies[i].evaluate(ctx));
            assert(out@ =~= opinions(self.strategies@, *ctx).take(i + 1));
            i = i + 1;
        }
        assert(out@ =~= opinions(self.strategies@, *ctx));
        out
    }
}

/// Adding a strategy changes nothing in what the others say.
pub proof fn law_strategies_do_not_interfere<S: PredictionStrategy>(
    strategies: Seq<S>,
    added: S,
    ctx: PredictionContext,
)
    ensures
        opinions(strategies.push(added), ctx) == opinions(strategies, ctx).push(added.opinion(ctx)),
{
    assert(opinions(strategies.push(added), ctx) =~= opinions(strategies, ctx).push(
        added.opinion(ctx),
    ));
}

} // verus!

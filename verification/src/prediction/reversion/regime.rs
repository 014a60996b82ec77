//! The state of the market, as a distribution over four regimes.

use vstd::prelude::*;
use crate::double::Double;

verus! {

#[derive(Clone, Copy, Debug, PartialEq, Eq, Hash, Structural)]
pub enum MarketRegime {
    NormalLiquidity,
    MeanRevertingVolatility,
    MomentumBreakout,
    LiquidationEvent,
}

impl MarketRegime {
    /// What the chance of a reversion is multiplied with: 1.00, 1.15, 0.55 or 0.25.
    pub open spec fn multiplier(self) -> Double {
        match self {
            MarketRegime::NormalLiquidity => Double { bits: 0x3ff0_0000_0000_0000 },
            MarketRegime::MeanRevertingVolatility => Double { bits: 0x3ff2_6666_6666_6666 },
            MarketRegime::MomentumBreakout => Double { bits: 0x3fe1_9999_9999_999a },
            MarketRegime::LiquidationEvent => Double { bits: 0x3fd0_0000_0000_0000 },
        }
    }

    /// What the chance of a reversion is multiplied with.
    pub fn reversion_multiplier(self) -> (r: Double)
        ensures
            r == self.multiplier(),
    {
        match self {
            MarketRegime::NormalLiquidity => Double { bits: 0x3ff0_0000_0000_0000 },
            MarketRegime::MeanRevertingVolatility => Double { bits: 0x3ff2_6666_6666_6666 },
            MarketRegime::MomentumBreakout => Double { bits: 0x3fe1_9999_9999_999a },
            MarketRegime::LiquidationEvent => Double { bits: 0x3fd0_0000_0000_0000 },
        }
    }

    /// Whether a move tends to go on in this regime.
    pub open spec fn hostile(self) -> bool {
        self is MomentumBreakout || self is LiquidationEvent
    }

    /// Whether a move tends to go on in this regime.
    pub fn is_hostile(self) -> (r: bool)
        ensures
            r == self.hostile(),
    {
        match self {
            MarketRegime::MomentumBreakout => true,
            MarketRegime::LiquidationEvent => true,
            _ => false,
        }
    }
}

/// The share of each regime.
#[derive(Clone, Copy, Debug, PartialEq, Eq, Structural)]
pub struct RegimeDistribution {
    pub normal_liquidity: Double,
    pub mean_reverting_volatility: Double,
    pub momentum_breakout: Double,
    pub liquidation_event: Double,
}

impl Default for RegimeDistribution {
    /// A quarter for each.
    fn default() -> (r: Self)
        ensures
            forall|m: MarketRegime| (#[trigger] r.share(m)) == (Double {
                bits: 0x3fd0_0000_0000_0000,
            }),
    {
        let quarter = Double { bits: 0x3fd0_0000_0000_0000 };
        RegimeDistribution {
            normal_liquidity: quarter,
            mean_reverting_volatility: quarter,
            momentum_breakout: quarter,
            liquidation_event: quarter,
        }
    }
}

impl RegimeDistribution {
    /// The share of a regime.
    pub open spec fn share(self, regime: MarketRegime) -> Double {
        match regime {
            MarketRegime::NormalLiquidity => self.normal_liquidity,
            MarketRegime::MeanRevertingVolatility => self.mean_reverting_volatility,
            MarketRegime::MomentumBreakout => self.momentum_breakout,
            MarketRegime::LiquidationEvent => self.liquidation_event,
        }
    }

    /// Every share is a number.
    pub open spec fn wf(self) -> bool {
        forall|m: MarketRegime| !(#[trigger] self.share(m)).nan()
    }

    /// The regime with the largest share; the last of them where several have it.
    pub open spec fn mode_spec(self) -> MarketRegime {
        let a = self.normal_liquidity.rank();
        let b = self.mean_reverting_volatility.rank();
        let c = self.momentum_breakout.rank();
        let d = self.liquidation_event.rank();
        if d >= a && d >= b && d >= c {
            MarketRegime::LiquidationEvent
        } else if c >= a && c >= b {
            MarketRegime::MomentumBreakout
        } else if b >= a {
            MarketRegime::MeanRevertingVolatility
        } else {
            MarketRegime::NormalLiquidity
        }
    }

    /// The regime with the largest share; the last of them where several have it.
    pub fn mode(&self) -> (r: MarketRegime)
        requires
            self.wf(),
        ensures
            r == self.mode_spec(),
            forall|m: MarketRegime| (#[trigger] self.share(m)).at_most(self.share(r)),
    {
        proof {
            assert(!self.share(MarketRegime::NormalLiquidity).nan());
            assert(!self.share(MarketRegime::MeanRevertingVolatility).nan());
            assert(!self.share(MarketRegime::MomentumBreakout).nan());
            assert(!self.share(MarketRegime::LiquidationEvent).nan());
        }
        let mut best = MarketRegime::NormalLiquidity;
        let mut most = self.normal_liquidity;
        if most.le(self.mean_reverting_volatility) {
            best = MarketRegime::MeanRevertingVolatility;
            most = self.mean_reverting_volatility;
        }
        if most.le(self.momentum_breakout) {
            best = MarketRegime::MomentumBreakout;
            most = self.momentum_breakout;
        }
        if most.le(self.liquidation_event) {
            best = MarketRegime::LiquidationEvent;
        }
        best
    }

    /// The largest share; minus infinity where no share is a number.
    pub fn peak(&self) -> (r: Double)
        ensures
            r == (Double { bits: 0xfff0_0000_0000_0000 }).larger(self.normal_liquidity).larger(
                self.mean_reverting_volatility,
            ).larger(self.momentum_breakout).larger(self.liquidation_event),
    {
        Double { bits: 0xfff0_0000_0000_0000 }.max(self.normal_liquidity).max(
            self.mean_reverting_volatility,
        ).max(self.momentum_breakout).max(self.liquidation_event)
    }
}

/// The most likely regime has a share that no other exceeds, and of several it is the last, the
/// one that is worst for a reversion.
pub proof fn law_mode_has_the_largest_share(d: RegimeDistribution, m: MarketRegime)
    ensures
        d.share(m).rank() <= d.share(d.mode_spec()).rank(),
        d.share(m).rank() == d.share(d.mode_spec()).rank() ==> {
            ||| m == d.mode_spec()
            ||| d.mode_spec() is LiquidationEvent
            ||| d.mode_spec() is MomentumBreakout && !(m is LiquidationEvent)
            ||| d.mode_spec() is MeanRevertingVolatility && m is NormalLiquidity
        },
{
}

/// Reversions are likeliest in a volatile market that reverts and least likely in a liquidation; a
/// move goes on exactly in the regimes where they are less likely than in a normal market.
pub proof fn law_hostile_regimes_speak_against_reversion(m: MarketRegime)
    ensures
        m.hostile() <==> m.multiplier().below(MarketRegime::NormalLiquidity.multiplier()),
        MarketRegime::NormalLiquidity.multiplier().bits == 0x3ff0_0000_0000_0000,
        MarketRegime::MeanRevertingVolatility.multiplier().bits == 0x3ff2_6666_6666_6666,
        MarketRegime::MomentumBreakout.multiplier().bits == 0x3fe1_9999_9999_999a,
        MarketRegime::LiquidationEvent.multiplier().bits == 0x3fd0_0000_0000_0000,
        MarketRegime::LiquidationEvent.multiplier().at_most(m.multiplier()),
        m.multiplier().at_most(MarketRegime::MeanRevertingVolatility.multiplier()),
        !(m is LiquidationEvent) ==> MarketRegime::LiquidationEvent.multiplier().below(
            m.multiplier(),
        ),
        !(m is MeanRevertingVolatility) ==> m.multiplier().below(
            MarketRegime::MeanRevertingVolatility.multiplier(),
        ),
{
}

} // verus!

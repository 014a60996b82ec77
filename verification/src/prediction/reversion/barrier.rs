//! The continuation barrier: no reversion is announced while a move is more likely to go on.

use vstd::prelude::*;
use crate::double::Double;
use crate::prediction::reversion::config::ReversionConfig;
use crate::prediction::reversion::features::FeatureSnapshot;

verus! {

#[derive(Clone, Copy, Debug, PartialEq, Eq, Structural)]
pub struct ContinuationBarrier {
    pub velocity_k: Double,
    pub volume_n: Double,
    pub momentum_threshold: Double,
    pub enabled: bool,
}

impl ContinuationBarrier {
    /// The barrier with its settings.
    pub open spec fn of(cfg: ReversionConfig) -> ContinuationBarrier {
        ContinuationBarrier {
            velocity_k: cfg.barrier_velocity_k,
            volume_n: cfg.barrier_volume_n,
            momentum_threshold: cfg.barrier_momentum_threshold,
            enabled: cfg.barrier_enabled,
        }
    }

    /// The barrier with its settings.
    pub fn new(cfg: &ReversionConfig) -> (r: Self)
        ensures
            r == ContinuationBarrier::of(*cfg),
    {
        ContinuationBarrier {
            velocity_k: cfg.barrier_velocity_k,
            volume_n: cfg.barrier_volume_n,
            momentum_threshold: cfg.barrier_momentum_threshold,
            enabled: cfg.barrier_enabled,
        }
    }

    /// Whether the move is likely to go on: it is fast, on a surge of volume, away from the
    /// equilibrium, and in a regime where moves go on. All four are needed.
    pub open spec fn holds(self, snap: FeatureSnapshot) -> bool {
        &&& self.enabled
        &&& self.velocity_k.below(snap.momentum.velocity_sigma_per_tick.magnitude())
        &&& self.volume_n.below(snap.order_flow.volume_zscore)
        &&& self.momentum_threshold.below(snap.momentum.momentum_displacement_cosine)
        &&& snap.regime.mode_spec().hostile()
    }

    /// Whether the move is likely to go on.
    pub fn is_continuation(&self, snap: &FeatureSnapshot) -> (r: bool)
        requires
            snap.regime.wf(),
        ensures
            r == self.holds(*snap),
    {
        if !self.enabled {
            return false;
        }
        let velocity_exceeded = self.velocity_k.lt(snap.momentum.velocity_sigma_per_tick.abs());
        let volume_surge = self.volume_n.lt(snap.order_flow.volume_zscore);
        let momentum_aligned = self.momentum_threshold.lt(
            snap.momentum.momentum_displacement_cosine,
        );
        let hostile_regime = snap.regime.mode().is_hostile();
        velocity_exceeded && volume_surge && momentum_aligned && hostile_regime
    }
}

/// The barrier needs all of its grounds: it holds exactly where it is switched on, the speed is
/// above its limit in either direction, the volume and the alignment are above theirs, and the most
/// likely regime is a breakout or a liquidation.
pub proof fn law_barrier_needs_all_grounds(b: ContinuationBarrier, snap: FeatureSnapshot)
    ensures
        b.holds(snap) <==> {
            let v = snap.momentum.velocity_sigma_per_tick;
            let speed = if v.rank() >= 0 { v.rank() } else { -v.rank() };
            let volume = snap.order_flow.volume_zscore;
            let aligned = snap.momentum.momentum_displacement_cosine;
            &&& b.enabled
            &&& !v.nan() && !b.velocity_k.nan() && speed > b.velocity_k.rank()
            &&& !volume.nan() && !b.volume_n.nan() && volume.rank() > b.volume_n.rank()
            &&& !aligned.nan() && !b.momentum_threshold.nan() && aligned.rank()
                > b.momentum_threshold.rank()
            &&& snap.regime.mode_spec() is MomentumBreakout || snap.regime.mode_spec() is
                LiquidationEvent
        },
{
}

/// The barrier has the limits of the settings, each under its own name.
pub proof fn law_barrier_has_the_limits_of_the_settings(cfg: ReversionConfig)
    ensures
        ContinuationBarrier::of(cfg).enabled == cfg.barrier_enabled,
        ContinuationBarrier::of(cfg).velocity_k == cfg.barrier_velocity_k,
        ContinuationBarrier::of(cfg).volume_n == cfg.barrier_volume_n,
        ContinuationBarrier::of(cfg).momentum_threshold == cfg.barrier_momentum_threshold,
{
}

} // verus!

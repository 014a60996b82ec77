//! Layer 4: a Kalman filter on the prices of the buckets.
//!
//! The filter keeps an estimate and the variance of its error. The arithmetic of one step is
//! handed to it as a [`KalmanStep`]; which noise goes into the step, when a step is taken and
//! what is kept is decided here.

use vstd::prelude::*;
use crate::double::Double;

verus! {

#[derive(Clone, Copy, Debug, PartialEq, Eq, Structural)]
pub struct KalmanConfig {
    /// The variance of the true price between two measurements.
    pub process_noise: Double,
    /// The variance of a measurement.
    pub measure_noise: Double,
    /// Whether the variance of a measurement grows with the volatility of its bucket.
    pub adaptive: bool,
    /// How fast it grows.
    pub adaptive_scale: Double,
}

impl KalmanConfig {
    /// The values that are taken by default.
    pub open spec fn standard() -> KalmanConfig {
        KalmanConfig {
            process_noise: Double { bits: 0x3f1a_36e2_eb1c_432d },
            measure_noise: Double { bits: 0x3f84_7ae1_47ae_147b },
            adaptive: true,
            adaptive_scale: Double { bits: 0x4024_0000_0000_0000 },
        }
    }
}

impl Default for KalmanConfig {
    /// Noises of 0.0001 and 0.01, adaptive, with a scale of 10.
    fn default() -> (r: Self)
        ensures
            r == KalmanConfig::standard(),
    {
        KalmanConfig {
            process_noise: Double { bits: 0x3f1a_36e2_eb1c_432d },
            measure_noise: Double { bits: 0x3f84_7ae1_47ae_147b },
            adaptive: true,
            adaptive_scale: Double { bits: 0x4024_0000_0000_0000 },
        }
    }
}

/// The number one.
pub open spec fn one() -> Double {
    Double { bits: 0x3ff0_0000_0000_0000 }
}

/// A smoothed price.
#[derive(Clone, Copy, Debug, PartialEq, Eq, Structural)]
pub struct SmoothedPrice {
    pub estimate: Double,
    /// How far the filter follows the measurement: one is all the way.
    pub gain: Double,
    /// The noise that was taken for this measurement.
    pub r_effective: Double,
    /// The measurement.
    pub raw_vwmp: Double,
}

/// The arithmetic of one step, from the filter's state and the noise of the measurement.
#[derive(Clone, Copy, Debug, PartialEq, Eq, Structural)]
pub struct KalmanStep {
    /// The predicted variance, against itself and the noise of the measurement.
    pub gain: Double,
    /// The estimate, moved towards the measurement by the gain.
    pub estimate: Double,
    /// What the gain leaves of the predicted variance.
    pub error_cov: Double,
}

#[derive(Clone, Copy, Debug, PartialEq, Eq, Structural)]
pub struct KalmanSmoother {
    pub cfg: KalmanConfig,
    pub estimate: Double,
    pub error_cov: Double,
    pub initialized: bool,
}

impl KalmanSmoother {
    /// A filter without a measurement.
    pub open spec fn fresh(cfg: KalmanConfig) -> KalmanSmoother {
        KalmanSmoother {
            cfg,
            estimate: Double::zero_spec(),
            error_cov: one(),
            initialized: false,
        }
    }

    /// The noise of a measurement, where `scaled` is the one that its bucket's volatility
    /// gives.
    pub open spec fn noise(self, scaled: Double) -> Double {
        if self.initialized && self.cfg.adaptive { scaled } else { self.cfg.measure_noise }
    }

    /// The filter after a measurement.
    pub open spec fn after(self, vwmp: Double, step: KalmanStep) -> KalmanSmoother {
        if self.initialized {
            KalmanSmoother { estimate: step.estimate, error_cov: step.error_cov, ..self }
        } else {
            KalmanSmoother { estimate: vwmp, initialized: true, ..self }
        }
    }

    /// The smoothed price of a measurement. The first one is not smoothed.
    pub open spec fn output(self, vwmp: Double, scaled: Double, step: KalmanStep) -> SmoothedPrice {
        SmoothedPrice {
            estimate: if self.initialized { step.estimate } else { vwmp },
            gain: if self.initialized { step.gain } else { one() },
            r_effective: self.noise(scaled),
            raw_vwmp: vwmp,
        }
    }

    /// A filter without a measurement.
    pub fn new(cfg: KalmanConfig) -> (r: Self)
        ensures
            r == KalmanSmoother::fresh(cfg),
    {
        KalmanSmoother {
            cfg,
            estimate: Double::zero(),
            error_cov: Double { bits: 0x3ff0_0000_0000_0000 },
            initialized: false,
        }
    }

    /// The noise of the next measurement, where `scaled` is the measurement noise multiplied by
    /// one plus the scale times the volatility of the bucket.
    pub fn effective_noise(&self, scaled: Double) -> (r: Double)
        ensures
            r == self.noise(scaled),
    {
        if self.initialized && self.cfg.adaptive {
            scaled
        } else {
            self.cfg.measure_noise
        }
    }

    /// Takes in a measurement. The first one is the first estimate; the step is not looked at
    /// then.
    pub fn update(&mut self, vwmp: Double, scaled: Double, step: KalmanStep) -> (r: SmoothedPrice)
        ensures
            r == old(self).output(vwmp, scaled, step),
            *final(self) == old(self).after(vwmp, step),
    {
        let r_effective = self.effective_noise(scaled);
        if !self.initialized {
            self.estimate = vwmp;
            self.initialized = true;
            return SmoothedPrice {
                estimate: vwmp,
                gain: Double { bits: 0x3ff0_0000_0000_0000 },
                r_effective,
                raw_vwmp: vwmp,
            };
        }
        self.estimate = step.estimate;
        self.error_cov = step.error_cov;
        SmoothedPrice { estimate: self.estimate, gain: step.gain, r_effective, raw_vwmp: vwmp }
    }

    /// The estimate, once there is one.
    pub fn current_estimate(&self) -> (r: Option<Double>)
        ensures
            r == (if self.initialized { Some(self.estimate) } else { None }),
    {
        if self.initialized {
            Some(self.estimate)
        } else {
            None
        }
    }

    /// Forgets all measurements.
    pub fn reset(&mut self)
        ensures
            *final(self) == KalmanSmoother::fresh(old(self).cfg),
    {
        self.estimate = Double::zero();
        self.error_cov = Double { bits: 0x3ff0_0000_0000_0000 };
        self.initialized = false;
    }
}

/// After a reset the filter starts at the next measurement, whatever came before.
pub proof fn law_reset_forgets(k: KalmanSmoother, vwmp: Double, scaled: Double, step: KalmanStep)
    ensures
        KalmanSmoother::fresh(k.cfg).output(vwmp, scaled, step).estimate == vwmp,
        KalmanSmoother::fresh(k.cfg).output(vwmp, scaled, step).gain == one(),
        KalmanSmoother::fresh(k.cfg).after(vwmp, step).estimate == vwmp,
{
}

/// What the filter says is what it keeps: the estimate that it gives out is the one that it goes
/// on from. The first measurement is taken as it is, and every later one goes through the step.
pub proof fn law_filter_keeps_what_it_says(
    k: KalmanSmoother,
    vwmp: Double,
    scaled: Double,
    step: KalmanStep,
)
    ensures
        ({
            let said = k.output(vwmp, scaled, step);
            let kept = k.after(vwmp, step);
            &&& kept.initialized && kept.cfg == k.cfg
            &&& kept.estimate == said.estimate
            &&& said.raw_vwmp == vwmp
            &&& !k.initialized ==> said.estimate == vwmp && said.gain.bits == 0x3ff0_0000_0000_0000
                && kept.error_cov == k.error_cov && said.r_effective == k.cfg.measure_noise
            &&& k.initialized ==> said.estimate == step.estimate && said.gain == step.gain
                && kept.error_cov == step.error_cov
            &&& k.initialized && k.cfg.adaptive ==> said.r_effective == scaled
            &&& k.initialized && !k.cfg.adaptive ==> said.r_effective == k.cfg.measure_noise
        }),
{
}

/// A filter without a measurement has its settings and nothing else; by default its noises are
/// 0.0001 and 0.01, and the second grows with the volatility, ten times as fast.
pub proof fn law_new_filter_knows_nothing(cfg: KalmanConfig)
    ensures
        !KalmanSmoother::fresh(cfg).initialized,
        KalmanSmoother::fresh(cfg).cfg == cfg,
        KalmanSmoother::fresh(cfg).estimate.bits == 0,
        KalmanSmoother::fresh(cfg).error_cov.bits == 0x3ff0_0000_0000_0000,
        KalmanConfig::standard().process_noise.bits == 0x3f1a_36e2_eb1c_432d,
        KalmanConfig::standard().measure_noise.bits == 0x3f84_7ae1_47ae_147b,
        KalmanConfig::standard().adaptive,
        KalmanConfig::standard().adaptive_scale.bits == 0x4024_0000_0000_0000,
{
}

} // verus!

//! The settings of the reversion engine.

use vstd::prelude::*;
use crate::double::Double;
use crate::prediction::reversion::errors::ReversionError;
use crate::prediction::reversion::horizon::Horizon;

verus! {

#[derive(Debug)]
pub struct ReversionConfig {
    /// The ticks that are seen before an answer is given.
    pub warmup_ticks: u64,
    /// The milliseconds of silence after which the feed is stale.
    pub stale_threshold_ms: u64,
    /// The horizons that an answer is given for.
    pub horizons: Vec<Horizon>,
    pub ewma_fast_lambda: Double,
    pub ewma_medium_lambda: Double,
    pub vwap_weight: Double,
    pub vol_window_ticks: usize,
    pub vol_ewma_lambda: Double,
    pub barrier_enabled: bool,
    pub barrier_velocity_k: Double,
    pub barrier_volume_n: Double,
    pub barrier_momentum_threshold: Double,
}

impl Default for ReversionConfig {
    fn default() -> (r: Self)
        ensures
            r.warmup_ticks == 300,
            r.stale_threshold_ms == 5_000,
            r.horizons@ == Horizon::all_spec(),
            r.ewma_fast_lambda == (Double { bits: 0x3fa4_7ae1_47ae_147b }),
            r.ewma_medium_lambda == (Double { bits: 0x3f84_7ae1_47ae_147b }),
            r.vwap_weight == (Double { bits: 0x3fd3_3333_3333_3333 }),
            r.vol_window_ticks == 300,
            r.vol_ewma_lambda == (Double { bits: 0x3f94_7ae1_47ae_147b }),
            r.barrier_enabled,
            r.barrier_velocity_k == (Double { bits: 0x3ff8_0000_0000_0000 }),
            r.barrier_volume_n == (Double { bits: 0x3ffc_cccc_cccc_cccd }),
            r.barrier_momentum_threshold == (Double { bits: 0x3fe6_6666_6666_6666 }),
            r.fault() is None,
    {
        let all = Horizon::all();
        let mut horizons: Vec<Horizon> = Vec::new();
        let mut i: usize = 0;
        while i < 5
            invariant
                i <= 5,
                all@ == Horizon::all_spec(),
                horizons@ == Horizon::all_spec().take(i as int),
            decreases 5 - i,
        {
            horizons.push(all[i]);
            assert(horizons@ =~= Horizon::all_spec().take(i + 1));
            i = i + 1;
        }
        assert(horizons@ =~= Horizon::all_spec());
        ReversionConfig {
            warmup_ticks: 300,
            stale_threshold_ms: 5_000,
            horizons,
            ewma_fast_lambda: Double { bits: 0x3fa4_7ae1_47ae_147b },
            ewma_medium_lambda: Double { bits: 0x3f84_7ae1_47ae_147b },
            vwap_weight: Double { bits: 0x3fd3_3333_3333_3333 },
            vol_window_ticks: 300,
            vol_ewma_lambda: Double { bits: 0x3f94_7ae1_47ae_147b },
            barrier_enabled: true,
            barrier_velocity_k: Double { bits: 0x3ff8_0000_0000_0000 },
            barrier_volume_n: Double { bits: 0x3ffc_cccc_cccc_cccd },
            barrier_momentum_threshold: Double { bits: 0x3fe6_6666_6666_6666 },
        }
    }
}

impl ReversionConfig {
    /// What is wrong with the settings; the first of these that is.
    pub open spec fn fault(self) -> Option<Seq<char>> {
        let zero = Double::zero_spec();
        let one = Double { bits: 0x3ff0_0000_0000_0000 };
        if self.warmup_ticks == 0 {
            Some("warmup_ticks must be > 0"@)
        } else if self.horizons@.len() == 0 {
            Some("at least one horizon required"@)
        } else if !(zero.at_most(self.ewma_fast_lambda) && self.ewma_fast_lambda.at_most(one)) {
            Some("ewma_fast_lambda must be in [0,1]"@)
        } else if self.ewma_fast_lambda.at_most(self.ewma_medium_lambda) {
            Some("ewma_fast_lambda must be greater than ewma_medium_lambda"@)
        } else {
            None
        }
    }

    /// Whether the settings can be used, and if not, why.
    pub fn validate(&self) -> (r: Result<(), ReversionError>)
        ensures
            r is Ok <==> self.fault() is None,
            r matches Err(e) ==> e matches ReversionError::Config(what) && self.fault() == Some(
                what@,
            ),
    {
        if self.warmup_ticks == 0 {
            return Err(ReversionError::Config("warmup_ticks must be > 0".to_owned()));
        }
        if self.horizons.len() == 0 {
            return Err(ReversionError::Config("at least one horizon required".to_owned()));
        }
        if !(Double::zero().le(self.ewma_fast_lambda) && self.ewma_fast_lambda.le(
            Double { bits: 0x3ff0_0000_0000_0000 },
        )) {
            return Err(ReversionError::Config("ewma_fast_lambda must be in [0,1]".to_owned()));
        }
        if self.ewma_fast_lambda.le(self.ewma_medium_lambda) {
            return Err(
                ReversionError::Config(
                    "ewma_fast_lambda must be greater than ewma_medium_lambda".to_owned(),
                ),
            );
        }
        Ok(())
    }
}

/// The settings can be used exactly where at least one tick warms the engine up, there is a
/// horizon, the fast weight is between zero and one, and it is not below or equal to the medium
/// one. The first condition that fails is the one that is named.
pub proof fn law_settings_are_usable(cfg: ReversionConfig)
    ensures
        ({
            let fast = cfg.ewma_fast_lambda;
            let medium = cfg.ewma_medium_lambda;
            let inside = !fast.nan() && 0 <= fast.rank() <= 0x3ff0_0000_0000_0000;
            let slower = !fast.nan() && !medium.nan() && fast.rank() <= medium.rank();
            &&& cfg.fault() is None <==> cfg.warmup_ticks >= 1 && cfg.horizons@.len() >= 1 && inside
                && !slower
            &&& cfg.warmup_ticks == 0 ==> cfg.fault() == Some("warmup_ticks must be > 0"@)
            &&& cfg.warmup_ticks >= 1 && cfg.horizons@.len() == 0 ==> cfg.fault() == Some(
                "at least one horizon required"@,
            )
            &&& cfg.warmup_ticks >= 1 && cfg.horizons@.len() >= 1 && !inside ==> cfg.fault() == Some(
                "ewma_fast_lambda must be in [0,1]"@,
            )
            &&& cfg.warmup_ticks >= 1 && cfg.horizons@.len() >= 1 && inside && slower ==> cfg.fault()
                == Some("ewma_fast_lambda must be greater than ewma_medium_lambda"@)
        }),
{
}

} // verus!

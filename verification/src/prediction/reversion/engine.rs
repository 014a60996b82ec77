//! The engine's life: it warms up, runs, and goes stale when the feed falls silent.

use vstd::prelude::*;
use crate::double::Double;
use crate::prediction::reversion::barrier::ContinuationBarrier;
use crate::prediction::reversion::calibration::{CalibrationBin, IsotonicCalibrator};
use crate::prediction::reversion::config::ReversionConfig;
use crate::prediction::reversion::errors::ReversionError;
use crate::prediction::reversion::output;
use crate::prediction::reversion::output::{BuilderInputs, OutputBuilder, ReversionOutput};
use crate::prediction::reversion::quality::{book_mask, is_stale_at, FreshnessMonitor};
use crate::prediction::reversion::quality;

verus! {

#[derive(Clone, Copy, Debug, PartialEq, Eq, Structural)]
pub enum EngineLifecycle {
    Warming,
    Running,
    Stale,
}

/// Where the engine stands after a tick. A stale engine runs again; a warming one runs once it
/// has seen enough ticks.
pub open spec fn advanced(lifecycle: EngineLifecycle, ticks: u64, warmup_ticks: u64) -> EngineLifecycle {
    match lifecycle {
        EngineLifecycle::Stale => EngineLifecycle::Running,
        EngineLifecycle::Warming => if ticks >= warmup_ticks {
            EngineLifecycle::Running
        } else {
            EngineLifecycle::Warming
        },
        EngineLifecycle::Running => EngineLifecycle::Running,
    }
}

/// What is to be done with a tick.
#[derive(Clone, Copy, Debug, PartialEq, Eq, Structural)]
pub enum TickStage {
    /// It has no price.
    Skip,
    /// The accumulators take it in, but there is no answer yet.
    Accumulate,
    /// The accumulators take it in, and it is answered.
    Answer,
}

pub struct ReversionEngine {
    pub config: ReversionConfig,
    pub lifecycle: EngineLifecycle,
    pub ticks_received: u64,
    pub freshness: FreshnessMonitor,
    pub barrier: ContinuationBarrier,
    pub calibrator: IsotonicCalibrator,
    pub last_output: Option<ReversionOutput>,
}

impl ReversionEngine {
    /// The engine warms up exactly as long as it has not seen enough ticks, and the calibrator
    /// is well-formed.
    pub open spec fn wf(self) -> bool {
        &&& self.lifecycle is Warming <==> self.ticks_received < self.config.warmup_ticks
        &&& self.calibrator.wf()
    }

    /// An engine that has seen no tick; none where the settings cannot be used.
    pub fn new(config: ReversionConfig) -> (r: Result<Self, ReversionError>)
        ensures
            r is Ok <==> config.fault() is None,
            r matches Ok(e) ==> {
                &&& e.wf()
                &&& e.config == config
                &&& e.lifecycle is Warming
                &&& e.ticks_received == 0
                &&& !e.freshness.recorded()
                &&& e.freshness.missing() == 0
                &&& e.barrier == ContinuationBarrier::of(config)
                &&& forall|i: int|
                    0 <= i < 10 ==> (#[trigger] e.calibrator.bins@[i]) == CalibrationBin::empty()
                &&& e.last_output is None
            },
            r matches Err(e) ==> e matches ReversionError::Config(what) && config.fault() == Some(
                what@,
            ),
    {
        match config.validate() {
            Err(e) => Err(e),
            Ok(_) => {
                let barrier = ContinuationBarrier::new(&config);
                Ok(
                    ReversionEngine {
                        config,
                        lifecycle: EngineLifecycle::Warming,
                        ticks_received: 0,
                        freshness: FreshnessMonitor::new(),
                        barrier,
                        calibrator: IsotonicCalibrator::new(),
                        last_output: None,
                    },
                )
            },
        }
    }

    /// Where the engine stands.
    pub fn lifecycle(&self) -> (r: EngineLifecycle)
        ensures
            r == self.lifecycle,
    {
        self.lifecycle
    }

    /// Takes note of a tick, and says what is to be done with it. A tick without a price is
    /// counted, and leaves the mask of missing fields as it was.
    pub fn on_raw_tick(&mut self, price: Option<Double>, no_bids: bool, no_asks: bool) -> (r:
        TickStage)
        requires
            old(self).wf(),
            old(self).ticks_received < u64::MAX,
        ensures
            final(self).wf(),
            final(self).config == old(self).config,
            final(self).barrier == old(self).barrier,
            final(self).calibrator == old(self).calibrator,
            final(self).last_output == old(self).last_output,
            final(self).ticks_received == old(self).ticks_received + 1,
            final(self).lifecycle == advanced(
                old(self).lifecycle,
                final(self).ticks_received,
                old(self).config.warmup_ticks,
            ),
            final(self).freshness.recorded_now(),
            final(self).freshness.missing() == (if price is None {
                old(self).freshness.missing()
            } else if no_bids || no_asks {
                quality::MISSING_ORDER_BOOK
            } else {
                0u8
            }),
            r == (if price is None {
                TickStage::Skip
            } else if final(self).lifecycle is Running {
                TickStage::Answer
            } else {
                TickStage::Accumulate
            }),
    {
        self.ticks_received = self.ticks_received + 1;
        self.freshness.record();
        if self.lifecycle == EngineLifecycle::Stale {
            self.lifecycle = EngineLifecycle::Running;
        }
        if self.lifecycle == EngineLifecycle::Warming && self.ticks_received
            >= self.config.warmup_ticks {
            self.lifecycle = EngineLifecycle::Running;
        }
        if price.is_none() {
            return TickStage::Skip;
        }
        self.freshness.set_missing_fields(book_mask(no_bids, no_asks));
        if self.lifecycle == EngineLifecycle::Running {
            TickStage::Answer
        } else {
            TickStage::Accumulate
        }
    }

    /// The inputs of an answer, with what the barrier says of their snapshot.
    pub open spec fn judged(self, inputs: BuilderInputs) -> BuilderInputs {
        BuilderInputs { barrier_active: self.barrier.holds(inputs.snapshot), ..inputs }
    }

    /// Makes the answer for a tick and keeps it. Whether the move is likely to go on is for the
    /// barrier to say, not for the inputs.
    pub fn answer(&mut self, inputs: BuilderInputs)
        requires
            inputs.snapshot.regime.wf(),
            forall|h: crate::prediction::reversion::horizon::Horizon| #[trigger]
                old(self).config.horizons@.contains(h) ==> inputs.levels.at(h) is Some,
        ensures
            final(self).last_output is Some,
            output::is_answer(
                old(self).judged(inputs),
                old(self).config.horizons@,
                final(self).last_output->0,
            ),
            final(self).last_output->0.barrier_active == old(self).barrier.holds(inputs.snapshot),
            final(self).config == old(self).config,
            final(self).lifecycle == old(self).lifecycle,
            final(self).ticks_received == old(self).ticks_received,
            final(self).calibrator == old(self).calibrator,
            final(self).barrier == old(self).barrier,
            final(self).freshness == old(self).freshness,
    {
        let mut inputs = inputs;
        inputs.barrier_active = self.barrier.is_continuation(&inputs.snapshot);
        self.last_output = Some(OutputBuilder::build(inputs, &self.config.horizons));
    }

    /// Whether the feed is silent for too long. An engine that has warmed up is stale then.
    /// `age_ms` is the time since the last tick ([`FreshnessMonitor::age_ms`]).
    pub fn check_staleness(&mut self, age_ms: Option<u64>) -> (r: bool)
        requires
            old(self).wf(),
        ensures
            r == quality::stale_at(age_ms, old(self).config.stale_threshold_ms),
            final(self).lifecycle == (if r && !(old(self).lifecycle is Warming) {
                EngineLifecycle::Stale
            } else {
                old(self).lifecycle
            }),
            final(self).wf(),
            final(self).config == old(self).config,
            final(self).ticks_received == old(self).ticks_received,
            final(self).last_output == old(self).last_output,
            final(self).calibrator == old(self).calibrator,
            final(self).barrier == old(self).barrier,
            final(self).freshness == old(self).freshness,
    {
        let silent = is_stale_at(age_ms, self.config.stale_threshold_ms);
        if silent && self.lifecycle != EngineLifecycle::Warming {
            self.lifecycle = EngineLifecycle::Stale;
        }
        silent
    }

    /// The last answer.
    pub fn current(&self) -> (r: Option<&ReversionOutput>)
        ensures
            r is Some <==> self.last_output is Some,
            r is Some ==> *r->0 == self.last_output->0,
    {
        match &self.last_output {
            Some(o) => Some(o),
            None => None,
        }
    }
}

/// An engine that has once run never warms up again: a tick makes a stale one run at once.
pub proof fn law_engine_warms_up_once(lifecycle: EngineLifecycle, ticks: u64, warmup_ticks: u64)
    ensures
        !(lifecycle is Warming) ==> advanced(lifecycle, ticks, warmup_ticks) is Running,
        !(advanced(lifecycle, ticks, warmup_ticks) is Stale),
{
}

/// After a tick an engine runs unless it is still warming up: it warms up exactly as long as it has
/// done so before and has not seen enough ticks, and a stale one runs again at once.
pub proof fn law_engine_runs_once_it_is_warm(lifecycle: EngineLifecycle, ticks: u64, warmup_ticks: u64)
    ensures
        advanced(lifecycle, ticks, warmup_ticks) is Warming <==> lifecycle is Warming && ticks
            < warmup_ticks,
        advanced(lifecycle, ticks, warmup_ticks) is Running <==> !(lifecycle is Warming) || ticks
            >= warmup_ticks,
{
}

/// An engine answers with the verdict of its own barrier, whatever the inputs say.
pub proof fn law_engine_asks_its_own_barrier(e: ReversionEngine, inputs: BuilderInputs)
    ensures
        e.judged(inputs).barrier_active == e.barrier.holds(inputs.snapshot),
        e.judged(inputs).snapshot == inputs.snapshot,
        e.judged(inputs).horizon_probs == inputs.horizon_probs,
        e.judged(inputs).gaps == inputs.gaps,
        e.judged(inputs).levels == inputs.levels,
        e.judged(inputs).half_life == inputs.half_life,
        e.judged(inputs).contributors == inputs.contributors,
        e.judged(inputs).calibration_brier == inputs.calibration_brier,
        e.judged(inputs).regime_confidence == inputs.regime_confidence,
        e.judged(inputs).raw_score == inputs.raw_score,
{
}

/// An answer behind the barrier takes no side, whatever the score.
pub proof fn law_answer_behind_the_barrier_takes_no_side(
    e: ReversionEngine,
    inputs: BuilderInputs,
    out: ReversionOutput,
)
    requires
        inputs.snapshot.regime.wf(),
        e.barrier.holds(inputs.snapshot),
        output::is_answer(e.judged(inputs), e.config.horizons@, out),
    ensures
        out.barrier_active,
        out.trade_bias is Suppressed,
{
}

} // verus!

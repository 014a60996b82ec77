//! The engine's answer for one tick.

use vstd::prelude::*;
use crate::double::Double;
use crate::prediction::reversion::features::FeatureSnapshot;
use crate::prediction::reversion::horizon::{Horizon, HorizonTable};
use crate::prediction::reversion::quality::DataQuality;
use crate::prediction::reversion::regime::MarketRegime;

verus! {

/// How far the price may come back, and how likely each step is.
#[derive(Clone, Copy, Debug, PartialEq, Eq, Structural)]
pub struct ReversionLevels {
    pub entry_price: Double,
    pub equilibrium: Double,
    pub displacement: Double,
    pub target_25pct: Double,
    pub target_50pct: Double,
    pub target_75pct: Double,
    pub target_100pct: Double,
    pub prob_reach_25: Double,
    pub prob_reach_50: Double,
    pub prob_reach_75: Double,
    pub prob_reach_100: Double,
}

#[derive(Clone, Copy, Debug, PartialEq, Eq, Structural)]
pub struct HorizonReversion {
    pub levels: ReversionLevels,
    pub probability: Double,
}

/// What a feature contributed to the answer.
#[derive(Clone, Copy, Debug, PartialEq, Eq)]
pub struct Contributor {
    pub name: &'static str,
    pub delta: Double,
    pub weight: Double,
}

/// What the answer speaks for.
#[derive(Clone, Copy, Debug, PartialEq, Eq, Structural)]
pub enum TradeBias {
    ShortMeanReversion,
    LongMeanReversion,
    Neutral,
    /// The move is likely to go on.
    Suppressed,
}

/// An estimate of how fast the price comes back.
#[derive(Clone, Copy, Debug, PartialEq, Eq, Structural)]
pub struct HalfLife {
    pub seconds: Double,
    pub confidence: Double,
    pub ci_low: Double,
    pub ci_high: Double,
}

/// The engine's answer for one tick.
#[derive(Clone, Debug)]
pub struct ReversionOutput {
    pub timestamp_us: i64,
    pub equilibrium_price: Double,
    pub current_price: Double,
    pub deviation_sigma: Double,
    pub stretch_score: Double,
    pub stretch_confidence: Double,
    pub reversion: HorizonTable<HorizonReversion>,
    pub half_life: HalfLife,
    pub regime: MarketRegime,
    pub regime_confidence: Double,
    pub opportunity_score: Double,
    pub best_horizon: Option<Horizon>,
    pub trade_bias: TradeBias,
    pub barrier_active: bool,
    pub contributors: Vec<Contributor>,
    pub calibration_brier: Double,
    pub data_quality: DataQuality,
}

/// What the answer is made of.
#[derive(Debug)]
pub struct BuilderInputs {
    pub snapshot: FeatureSnapshot,
    /// The chance of a reversion within each horizon.
    pub horizon_probs: HorizonTable<Double>,
    /// How far each of these is from the best ([`best_probability`]).
    pub gaps: HorizonTable<Double>,
    /// The levels for each horizon, with their chances.
    pub levels: HorizonTable<ReversionLevels>,
    pub half_life: Option<HalfLife>,
    pub contributors: Vec<Contributor>,
    pub barrier_active: bool,
    pub calibration_brier: Double,
    /// The largest share of a regime, against the sum of all.
    pub regime_confidence: Double,
    /// The best chance ([`best_probability`]) times what regime, equilibrium and data quality
    /// leave of it.
    pub raw_score: Double,
}

/// The score below which nothing is spoken for: 0.35.
pub open spec fn opportunity_floor() -> Double {
    Double { bits: 0x3fd6_6666_6666_6666 }
}

/// The larger of two numbers, where the second may not be there.
pub open spec fn larger_opt(best: Double, p: Option<Double>) -> Double {
    match p {
        Some(p) => best.larger(p),
        None => best,
    }
}

/// The largest chance; minus infinity where there is none.
pub open spec fn best_raw(probs: HorizonTable<Double>) -> Double {
    larger_opt(
        larger_opt(
            larger_opt(
                larger_opt(
                    larger_opt(Double { bits: 0xfff0_0000_0000_0000 }, probs.s5),
                    probs.s10,
                ),
                probs.s30,
            ),
            probs.m1,
        ),
        probs.m5,
    )
}

/// The largest chance, and zero where there is none or all are negative.
pub open spec fn best_spec(probs: HorizonTable<Double>) -> Double {
    if best_raw(probs).below(Double::zero_spec()) { Double::zero_spec() } else { best_raw(probs) }
}

fn max_opt(best: Double, p: Option<Double>) -> (r: Double)
    ensures
        r == larger_opt(best, p),
{
    match p {
        Some(p) => best.max(p),
        None => best,
    }
}

/// The largest chance, and zero where there is none or all are negative.
pub fn best_probability(probs: &HorizonTable<Double>) -> (r: Double)
    ensures
        r == best_spec(*probs),
{
    let mut best = Double { bits: 0xfff0_0000_0000_0000 };
    best = max_opt(best, probs.s5);
    best = max_opt(best, probs.s10);
    best = max_opt(best, probs.s30);
    best = max_opt(best, probs.m1);
    best = max_opt(best, probs.m5);
    if best.lt(Double::zero()) {
        Double::zero()
    } else {
        best
    }
}

/// Whether every chance is a finite number that is not negative.
pub open spec fn chances(probs: HorizonTable<Double>) -> bool {
    forall|h: Horizon| (#[trigger] probs.at(h)) is Some ==> Double::zero_spec().at_most(
        probs.at(h)->0,
    ) && probs.at(h)->0.finite()
}

/// The gap below which two chances are the same: 0.000000001.
pub open spec fn gap_limit() -> Double {
    Double { bits: 0x3e11_2e0b_e826_d695 }
}

/// Whether two numbers are equal.
pub open spec fn equals(p: Double, best: Double) -> bool {
    p.at_most(best) && best.at_most(p)
}

/// Whether a chance is there and is as good as the best. One that is equal to it is, unless it
/// is infinite: its gap is then no number. Any other one is where its gap is small enough.
pub open spec fn nearly(p: Option<Double>, best: Double, gap: Option<Double>) -> bool {
    &&& p is Some
    &&& if equals(p->0, best) {
        best.finite()
    } else {
        gap is Some && gap->0.below(gap_limit())
    }
}

fn is_near(p: Option<Double>, best: Double, gap: Option<Double>) -> (r: bool)
    ensures
        r == nearly(p, best, gap),
{
    match p {
        Some(p) => if p.le(best) && best.le(p) {
            best.is_finite()
        } else {
            match gap {
                Some(gap) => gap.lt(Double { bits: 0x3e11_2e0b_e826_d695 }),
                None => false,
            }
        },
        None => false,
    }
}

/// The shortest horizon whose chance is as good as the best.
pub open spec fn best_horizon_spec(
    probs: HorizonTable<Double>,
    gaps: HorizonTable<Double>,
) -> Option<Horizon> {
    let best = best_spec(probs);
    if nearly(probs.s5, best, gaps.s5) {
        Some(Horizon::S5)
    } else if nearly(probs.s10, best, gaps.s10) {
        Some(Horizon::S10)
    } else if nearly(probs.s30, best, gaps.s30) {
        Some(Horizon::S30)
    } else if nearly(probs.m1, best, gaps.m1) {
        Some(Horizon::M1)
    } else if nearly(probs.m5, best, gaps.m5) {
        Some(Horizon::M5)
    } else {
        None
    }
}

/// The shortest horizon whose chance is as good as the best. `gaps` says how far each chance is
/// from the best ([`best_probability`]).
pub fn best_horizon(probs: &HorizonTable<Double>, gaps: &HorizonTable<Double>) -> (r: Option<
    Horizon,
>)
    ensures
        r == best_horizon_spec(*probs, *gaps),
{
    let best = best_probability(probs);
    if is_near(probs.s5, best, gaps.s5) {
        Some(Horizon::S5)
    } else if is_near(probs.s10, best, gaps.s10) {
        Some(Horizon::S10)
    } else if is_near(probs.s30, best, gaps.s30) {
        Some(Horizon::S30)
    } else if is_near(probs.m1, best, gaps.m1) {
        Some(Horizon::M1)
    } else if is_near(probs.m5, best, gaps.m5) {
        Some(Horizon::M5)
    } else {
        None
    }
}

/// Whether a number is a finite one that is not negative, or minus infinity.
spec fn chance_or_none(a: Double) -> bool {
    a == (Double { bits: 0xfff0_0000_0000_0000 }) || (Double::zero_spec().at_most(a) && a.finite())
}

/// The larger of two chances is one of them, and neither is above it.
proof fn lemma_larger(a: Double, p: Option<Double>)
    requires
        chance_or_none(a),
        p is Some ==> Double::zero_spec().at_most(p->0) && p->0.finite(),
    ensures
        chance_or_none(larger_opt(a, p)),
        a.at_most(larger_opt(a, p)),
        p is Some ==> p->0.at_most(larger_opt(a, p)) && Double::zero_spec().at_most(
            larger_opt(a, p),
        ),
        larger_opt(a, p) == a || p == Some(larger_opt(a, p)),
{
}

/// Where every chance is a finite number that is not negative and there is any, there is a best
/// horizon, and no horizon has a larger chance, but for a gap that is as good as none.
pub proof fn law_best_horizon_is_best(
    probs: HorizonTable<Double>,
    gaps: HorizonTable<Double>,
    h: Horizon,
)
    requires
        chances(probs),
        probs.at(h) is Some,
    ensures
        ({
            let best = best_horizon_spec(probs, gaps);
            &&& best is Some
            &&& probs.at(best->0) is Some
            &&& probs.at(h)->0.at_most(probs.at(best->0)->0) || (gaps.at(best->0) is Some
                && gaps.at(best->0)->0.below(gap_limit()))
        }),
{
    let a0 = Double { bits: 0xfff0_0000_0000_0000 };
    let a1 = larger_opt(a0, probs.s5);
    let a2 = larger_opt(a1, probs.s10);
    let a3 = larger_opt(a2, probs.s30);
    let a4 = larger_opt(a3, probs.m1);
    let a5 = larger_opt(a4, probs.m5);
    assert(probs.s5 == probs.at(Horizon::S5));
    assert(probs.s10 == probs.at(Horizon::S10));
    assert(probs.s30 == probs.at(Horizon::S30));
    assert(probs.m1 == probs.at(Horizon::M1));
    assert(probs.m5 == probs.at(Horizon::M5));
    lemma_larger(a0, probs.s5);
    lemma_larger(a1, probs.s10);
    lemma_larger(a2, probs.s30);
    lemma_larger(a3, probs.m1);
    lemma_larger(a4, probs.m5);
    assert(best_spec(probs) == a5);
    assert(probs.at(h)->0.at_most(a5));
    assert(a5 == a0 || probs.s5 == Some(a5) || probs.s10 == Some(a5) || probs.s30 == Some(a5)
        || probs.m1 == Some(a5) || probs.m5 == Some(a5));
}

/// What an answer speaks for: nothing while the move is likely to go on or the score is low,
/// and else for the way back to the equilibrium.
pub open spec fn bias(barrier_active: bool, score: Double, deviation_sigma: Double) -> TradeBias {
    if barrier_active {
        TradeBias::Suppressed
    } else if score.below(opportunity_floor()) {
        TradeBias::Neutral
    } else if Double::zero_spec().below(deviation_sigma) {
        TradeBias::ShortMeanReversion
    } else {
        TradeBias::LongMeanReversion
    }
}

/// The levels of one horizon in the answer.
pub open spec fn horizon_part(
    enabled: Seq<Horizon>,
    h: Horizon,
    probs: HorizonTable<Double>,
    levels: HorizonTable<ReversionLevels>,
) -> Option<HorizonReversion> {
    if enabled.contains(h) && levels.at(h) is Some {
        Some(
            HorizonReversion {
                levels: levels.at(h)->0,
                probability: match probs.at(h) {
                    Some(p) => p,
                    None => Double::zero_spec(),
                },
            },
        )
    } else {
        None
    }
}

/// The half-life of the answer: where there is no estimate, no number with no confidence.
pub open spec fn half_life_of(h: Option<HalfLife>) -> HalfLife {
    match h {
        Some(h) => h,
        None => HalfLife {
            seconds: Double { bits: 0x7ff8_0000_0000_0000 },
            confidence: Double::zero_spec(),
            ci_low: Double { bits: 0x7ff8_0000_0000_0000 },
            ci_high: Double { bits: 0x7ff8_0000_0000_0000 },
        },
    }
}

/// Whether `out` is the answer that is made of `r` for the enabled horizons.
pub open spec fn is_answer(r: BuilderInputs, enabled: Seq<Horizon>, out: ReversionOutput) -> bool {
    &&& out.timestamp_us == r.snapshot.timestamp_us
    &&& out.equilibrium_price == r.snapshot.equilibrium
    &&& out.current_price == r.snapshot.price
    &&& out.deviation_sigma == r.snapshot.deviation_sigma
    &&& out.stretch_score == r.snapshot.stretch_score
    &&& out.stretch_confidence == r.snapshot.equilibrium_confidence
    &&& forall|h: Horizon| #[trigger]
        out.reversion.at(h) == horizon_part(
            enabled,
            h,
            r.horizon_probs,
            r.levels,
        )
    &&& out.half_life == half_life_of(r.half_life)
    &&& out.regime == r.snapshot.regime.mode_spec()
    &&& out.regime_confidence == r.regime_confidence
    &&& out.opportunity_score == r.raw_score.clamped(
        Double::zero_spec(),
        Double { bits: 0x3ff0_0000_0000_0000 }
    )
    &&& out.best_horizon == best_horizon_spec(r.horizon_probs, r.gaps)
    &&& out.trade_bias == bias(
        r.barrier_active,
        out.opportunity_score,
        r.snapshot.deviation_sigma
    )
    &&& out.barrier_active == r.barrier_active
    &&& out.contributors == r.contributors
    &&& out.calibration_brier == r.calibration_brier
    &&& out.data_quality == r.snapshot.data_quality
}

pub struct OutputBuilder;

impl OutputBuilder {
    /// Makes the answer. A horizon that is enabled has its levels in the inputs.
    pub fn build(r: BuilderInputs, enabled_horizons: &Vec<Horizon>) -> (out: ReversionOutput)
        requires
            r.snapshot.regime.wf(),
            forall|h: Horizon| #[trigger]
                enabled_horizons@.contains(h) ==> r.levels.at(h) is Some,
        ensures
            is_answer(r, enabled_horizons@, out),
    {
        let regime = r.snapshot.regime.mode();
        let mut reversion: HorizonTable<HorizonReversion> = HorizonTable::new();
        let mut i: usize = 0;
        while i < enabled_horizons.len()
            invariant
                i <= enabled_horizons.len(),
                forall|h: Horizon| #[trigger]
                    enabled_horizons@.contains(h) ==> r.levels.at(h) is Some,
                forall|h: Horizon| #[trigger]
                    reversion.at(h) == horizon_part(
                        enabled_horizons@.take(i as int),
                        h,
                        r.horizon_probs,
                        r.levels,
                    ),
            decreases enabled_horizons.len() - i,
        {
            let h = enabled_horizons[i];
            let ghost before = enabled_horizons@.take(i as int);
            let ghost now = enabled_horizons@.take(i + 1);
            proof {
                assert(enabled_horizons@.contains(h));
                assert(now =~= before.push(h));
                assert(now[i as int] == h);
                assert forall|g: Horizon| now.contains(g) <==> before.contains(g) || g == h by {
                    if before.contains(g) {
                        let k = choose|k: int| 0 <= k < before.len() && before[k] == g;
                        assert(now[k] == g);
                    }
                    if now.contains(g) && g != h {
                        let k = choose|k: int| 0 <= k < now.len() && now[k] == g;
                        assert(before[k] == g);
                    }
                }
            }
            if let Some(levels) = r.levels.get(h) {
                let probability = match r.horizon_probs.get(h) {
                    Some(p) => p,
                    None => Double::zero(),
                };
                reversion.set(h, HorizonReversion { levels, probability });
            }
            i = i + 1;
        }
        assert(enabled_horizons@.take(i as int) =~= enabled_horizons@);
        let opportunity_score = r.raw_score.clamp(
            Double::zero(),
            Double { bits: 0x3ff0_0000_0000_0000 },
        );
        let trade_bias = if r.barrier_active {
            TradeBias::Suppressed
        } else if opportunity_score.lt(Double { bits: 0x3fd6_6666_6666_6666 }) {
            TradeBias::Neutral
        } else if Double::zero().lt(r.snapshot.deviation_sigma) {
            TradeBias::ShortMeanReversion
        } else {
            TradeBias::LongMeanReversion
        };
        let half_life = match r.half_life {
            Some(h) => h,
            None => HalfLife {
                seconds: Double { bits: 0x7ff8_0000_0000_0000 },
                confidence: Double::zero(),
                ci_low: Double { bits: 0x7ff8_0000_0000_0000 },
                ci_high: Double { bits: 0x7ff8_0000_0000_0000 },
            },
        };
        ReversionOutput {
            timestamp_us: r.snapshot.timestamp_us,
            equilibrium_price: r.snapshot.equilibrium,
            current_price: r.snapshot.price,
            deviation_sigma: r.snapshot.deviation_sigma,
            stretch_score: r.snapshot.stretch_score,
            stretch_confidence: r.snapshot.equilibrium_confidence,
            reversion,
            half_life,
            regime,
            regime_confidence: r.regime_confidence,
            opportunity_score,
            best_horizon: best_horizon(&r.horizon_probs, &r.gaps),
            trade_bias,
            barrier_active: r.barrier_active,
            contributors: r.contributors,
            calibration_brier: r.calibration_brier,
            data_quality: r.snapshot.data_quality,
        }
    }
}

/// No side is taken while the move is likely to go on, nor on a low score.
pub proof fn law_no_bias_without_opportunity(barrier_active: bool, score: Double, deviation: Double)
    requires
        barrier_active || score.below(opportunity_floor()),
    ensures
        !(bias(barrier_active, score, deviation) is ShortMeanReversion),
        !(bias(barrier_active, score, deviation) is LongMeanReversion),
{
}

/// A side that is taken is the one towards the equilibrium.
pub proof fn law_bias_points_to_equilibrium(barrier_active: bool, score: Double, deviation: Double)
    ensures
        bias(barrier_active, score, deviation) is ShortMeanReversion ==> Double::zero_spec().below(
            deviation,
        ),
        bias(barrier_active, score, deviation) is LongMeanReversion ==> !Double::zero_spec().below(
            deviation,
        ),
{
}

/// The best chance is not below any chance that is a number, is never negative, and is one of the
/// chances or zero.
pub proof fn law_best_chance_is_the_largest(probs: HorizonTable<Double>, h: Horizon)
    ensures
        ({
            let best = best_spec(probs);
            &&& probs.at(h) is Some && !probs.at(h)->0.nan() ==> !best.nan() && best.rank()
                >= probs.at(h)->0.rank()
            &&& !best.nan() ==> best.rank() >= 0
            &&& best.bits == 0 || exists|g: Horizon| (#[trigger] probs.at(g)) == Some(best)
        }),
{
    let a0 = Double { bits: 0xfff0_0000_0000_0000 };
    let a1 = larger_opt(a0, probs.s5);
    let a2 = larger_opt(a1, probs.s10);
    let a3 = larger_opt(a2, probs.s30);
    let a4 = larger_opt(a3, probs.m1);
    let a5 = larger_opt(a4, probs.m5);
    assert(probs.s5 == probs.at(Horizon::S5));
    assert(probs.s10 == probs.at(Horizon::S10));
    assert(probs.s30 == probs.at(Horizon::S30));
    assert(probs.m1 == probs.at(Horizon::M1));
    assert(probs.m5 == probs.at(Horizon::M5));
    assert(best_raw(probs) == a5);
    lemma_larger_keeps(a0, probs.s5);
    lemma_larger_keeps(a1, probs.s10);
    lemma_larger_keeps(a2, probs.s30);
    lemma_larger_keeps(a3, probs.m1);
    lemma_larger_keeps(a4, probs.m5);
}

/// The larger of a number and what may be there is one of them, and neither number is above it.
proof fn lemma_larger_keeps(a: Double, p: Option<Double>)
    ensures
        larger_opt(a, p) == a || p == Some(larger_opt(a, p)),
        !a.nan() && (p is None || !p->0.nan()) ==> !larger_opt(a, p).nan() && larger_opt(a, p).rank()
            >= a.rank() && (p is Some ==> larger_opt(a, p).rank() >= p->0.rank()),
        !a.nan() && p is Some && p->0.nan() ==> larger_opt(a, p) == a,
        p is None ==> larger_opt(a, p) == a,
{
}

/// The best horizon is the shortest that will do: its chance is finite and as large as the best, or
/// so close to it that the gap is below a billionth, and no shorter horizon has such a chance.
pub proof fn law_best_horizon_is_the_shortest(
    probs: HorizonTable<Double>,
    gaps: HorizonTable<Double>,
    h: Horizon,
)
    ensures
        ({
            let best = best_spec(probs);
            let found = best_horizon_spec(probs, gaps);
            let good = |g: Horizon|
                probs.at(g) is Some && (if !probs.at(g)->0.nan() && !best.nan() && probs.at(
                    g,
                )->0.rank() == best.rank() {
                    best.finite()
                } else {
                    gaps.at(g) is Some && !gaps.at(g)->0.nan() && gaps.at(g)->0.rank()
                        < 0x3e11_2e0b_e826_d695
                });
            &&& found is Some ==> good(found->0)
            &&& good(h) ==> found is Some && found->0.secs() <= h.secs()
        }),
{
}

/// What an answer speaks for follows from the barrier, the score and the side of the price: nothing
/// behind the barrier or below a score of 0.35; else down where the price is above its equilibrium,
/// and up where it is not.
pub proof fn law_bias_follows_score_and_side(barrier_active: bool, score: Double, deviation: Double)
    ensures
        ({
            let b = bias(barrier_active, score, deviation);
            let low = !score.nan() && score.rank() < 0x3fd6_6666_6666_6666;
            let above = !deviation.nan() && deviation.rank() > 0;
            &&& b is Suppressed <==> barrier_active
            &&& b is Neutral <==> !barrier_active && low
            &&& b is ShortMeanReversion <==> !barrier_active && !low && above
            &&& b is LongMeanReversion <==> !barrier_active && !low && !above
        }),
{
}

/// An answer tells of the tick that it was made for: its time, price and equilibrium are those of
/// the tick, its score is what was handed in, held between zero and one, its regime is one that no
/// other exceeds, and for each horizon that is asked for it has the levels and the chance of that
/// horizon.
pub proof fn law_answer_tells_of_its_tick(
    r: BuilderInputs,
    enabled: Seq<Horizon>,
    out: ReversionOutput,
    h: Horizon,
)
    requires
        r.snapshot.regime.wf(),
        is_answer(r, enabled, out),
    ensures
        ({
            let raw = r.raw_score;
            let score = out.opportunity_score;
            let low = !score.nan() && score.rank() < 0x3fd6_6666_6666_6666;
            let above = !r.snapshot.deviation_sigma.nan() && r.snapshot.deviation_sigma.rank() > 0;
            let part = out.reversion.at(h);
            &&& out.timestamp_us == r.snapshot.timestamp_us
            &&& out.current_price == r.snapshot.price
            &&& out.equilibrium_price == r.snapshot.equilibrium
            &&& out.deviation_sigma == r.snapshot.deviation_sigma
            &&& out.stretch_score == r.snapshot.stretch_score
            &&& out.stretch_confidence == r.snapshot.equilibrium_confidence
            &&& out.data_quality == r.snapshot.data_quality
            &&& out.regime_confidence == r.regime_confidence
            &&& out.calibration_brier == r.calibration_brier
            &&& out.contributors == r.contributors
            &&& raw.nan() ==> score == raw
            &&& !raw.nan() ==> !score.nan() && 0 <= score.rank() <= 0x3ff0_0000_0000_0000
            &&& !raw.nan() && 0 <= raw.rank() <= 0x3ff0_0000_0000_0000 ==> score == raw
            &&& !raw.nan() && raw.rank() < 0 ==> score.bits == 0
            &&& !raw.nan() && raw.rank() > 0x3ff0_0000_0000_0000 ==> score.bits
                == 0x3ff0_0000_0000_0000
            &&& forall|m: MarketRegime| (#[trigger] r.snapshot.regime.share(m)).rank()
                <= r.snapshot.regime.share(out.regime).rank()
            &&& out.barrier_active == r.barrier_active
            &&& out.trade_bias is Suppressed <==> r.barrier_active
            &&& out.trade_bias is Neutral <==> !r.barrier_active && low
            &&& out.trade_bias is ShortMeanReversion <==> !r.barrier_active && !low && above
            &&& part is Some <==> enabled.contains(h) && r.levels.at(h) is Some
            &&& part is Some ==> part->0.levels == r.levels.at(h)->0
            &&& part is Some && r.horizon_probs.at(h) is Some ==> part->0.probability
                == r.horizon_probs.at(h)->0
            &&& part is Some && r.horizon_probs.at(h) is None ==> part->0.probability.bits == 0
            &&& r.half_life is Some ==> out.half_life == r.half_life->0
            &&& r.half_life is None ==> out.half_life.seconds.nan() && out.half_life.confidence.bits
                == 0
        }),
{
    let regime = r.snapshot.regime;
    assert(!regime.share(MarketRegime::NormalLiquidity).nan());
    assert(out.reversion.at(h) == horizon_part(enabled, h, r.horizon_probs, r.levels));
    assert forall|m: MarketRegime| (#[trigger] regime.share(m)).rank() <= regime.share(
        out.regime,
    ).rank() by {}
}

/// A chance is as good as the best where it is finite and equal to it, or where it differs from it by
/// less than 0.000000001.
pub proof fn law_near_chances_count_as_equal(p: Double, best: Double, gap: Double)
    ensures
        !nearly(None, best, Some(gap)),
        p.finite() && best.finite() && p.rank() == best.rank() ==> nearly(Some(p), best, Some(gap)),
        p.finite() && best.finite() && p.rank() != best.rank() ==> (nearly(Some(p), best, Some(gap))
            <==> !gap.nan() && gap.rank() < 0x3e11_2e0b_e826_d695),
        p.finite() && best.finite() && p.rank() != best.rank() ==> !nearly(Some(p), best, None),
{
}

} // verus!

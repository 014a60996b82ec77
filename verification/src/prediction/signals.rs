//! What a strategy says.

use vstd::prelude::*;
use crate::decimal;
use crate::decimal::Dec;
use crate::double::Double;
use crate::prediction::conviction::ConvictionSnapshot;
use crate::prediction::context::ModelView;
use crate::prediction::analysis::{BtcTrend, TokenTrend};
use crate::prediction::direction::TrendDirection;
use crate::prediction::reversion::horizon::Horizon;
use crate::prediction::reversion::output::{HalfLife, HorizonReversion, TradeBias};
use crate::prediction::reversion::regime::MarketRegime;
use crate::prediction::trend_strength::TrendStrengthSignal;
use crate::text::{opt_text, print_number};

verus! {

/// The outcome of a window that a token pays for.
#[derive(Clone, Copy, Debug, PartialEq, Eq, Structural)]
pub enum PredictionSide {
    Up,
    Down,
}

impl PredictionSide {
    /// The other outcome.
    pub open spec fn other(self) -> PredictionSide {
        match self {
            PredictionSide::Up => PredictionSide::Down,
            PredictionSide::Down => PredictionSide::Up,
        }
    }
}

#[derive(Clone, Copy, Debug, PartialEq, Eq, Structural)]
pub enum SignalType {
    Buy,
    Hold,
    NoTrade,
}

/// Why a strategy does not trade, where a fixed text says it all.
#[derive(Clone, Copy, Debug, PartialEq, Eq, Structural)]
pub enum Note {
    OriginNotLocked,
    TokenOriginNotSet,
    TokenPriceZero,
    NoExternalPrediction,
    NoTrendStrength,
    NoLeader,
    LeaderSideways,
    NoConviction,
    NoReversion,
}

impl Note {
    /// The text of a note.
    pub open spec fn text_spec(self) -> Seq<char> {
        match self {
            Note::OriginNotLocked => "waiting: btc origin not locked"@,
            Note::TokenOriginNotSet => "waiting: token origin not set"@,
            Note::TokenPriceZero => "waiting: token price is zero"@,
            Note::NoExternalPrediction => "waiting: external prediction not available"@,
            Note::NoTrendStrength => "waiting: trend strength snapshot not available"@,
            Note::NoLeader => "waiting: no leader established yet"@,
            Note::LeaderSideways => "no-trade: leader direction is Sideways"@,
            Note::NoConviction => "waiting: conviction tracker not populated"@,
            Note::NoReversion => "waiting: reversion engine not yet warmed up"@,
        }
    }

    /// The text of a note.
    pub fn text(self) -> (r: &'static str)
        ensures
            r@ == self.text_spec(),
    {
        match self {
            Note::OriginNotLocked => "waiting: btc origin not locked",
            Note::TokenOriginNotSet => "waiting: token origin not set",
            Note::TokenPriceZero => "waiting: token price is zero",
            Note::NoExternalPrediction => "waiting: external prediction not available",
            Note::NoTrendStrength => "waiting: trend strength snapshot not available",
            Note::NoLeader => "waiting: no leader established yet",
            Note::LeaderSideways => "no-trade: leader direction is Sideways",
            Note::NoConviction => "waiting: conviction tracker not populated",
            Note::NoReversion => "waiting: reversion engine not yet warmed up",
        }
    }
}

/// Where a direction comes from.
#[derive(Clone, Copy, Debug, PartialEq, Eq, Structural)]
pub enum Source {
    Conviction,
    Heuristic,
}

impl Source {
    /// The name of the source.
    pub fn label(self) -> (r: &'static str)
        ensures
            r@ == (match self {
                Source::Conviction => "conviction"@,
                Source::Heuristic => "heuristic"@,
            }),
    {
        match self {
            Source::Conviction => "conviction",
            Source::Heuristic => "heuristic",
        }
    }
}

/// What a mean-reversion signal rests on.
#[derive(Clone, Copy, Debug, PartialEq, Eq, Structural)]
pub struct ReversionGrounds {
    pub bias: TradeBias,
    pub stretch_score: Double,
    pub deviation_sigma: Double,
    pub regime: MarketRegime,
    pub regime_confidence: Double,
    pub opportunity_score: Double,
    pub calibration_brier: Double,
    pub best_horizon: Option<Horizon>,
    /// What is expected within the best horizon.
    pub best: Option<HorizonReversion>,
    pub half_life: HalfLife,
}

/// Why a strategy says what it says.
#[derive(Clone, Copy, Debug, PartialEq, Eq, Structural)]
pub enum Reason {
    Note(Note),
    /// The conviction tracker is still counting.
    Building { ticks: u32, queued: usize },
    /// The model sees no direction.
    NoEdge { source: Source, confidence: Double },
    LowQuality { confidence: Double, feed_age_ms: u64 },
    BarrierActive { regime: MarketRegime, opportunity: Double },
    BelowThreshold { regime: MarketRegime, opportunity: Double },
    BelowFloor { opportunity: Double },
    Conviction { trend: BtcTrend, token: TokenTrend, entry: Dec },
    Hype { trend: BtcTrend, model: ModelView },
    External {
        source: Source,
        direction: TrendDirection,
        confidence: Double,
        model: Option<ModelView>,
        conviction: Option<ConvictionSnapshot>,
    },
    Strength(TrendStrengthSignal),
    Reversion(ReversionGrounds),
}

impl Reason {
    /// The reason in words, where it holds no measurement.
    pub open spec fn plain_spec(self) -> Option<Seq<char>> {
        match self {
            Reason::Note(note) => Some(note.text_spec()),
            Reason::Building { ticks, queued } => Some(
                "waiting: conviction building ("@ + decimal::digits(ticks as nat)
                    + " ticks, queued="@ + decimal::digits(queued as nat) + ")"@,
            ),
            _ => None,
        }
    }

    /// The reason in words, where it holds no measurement.
    pub fn plain_text(&self) -> (r: Option<String>)
        ensures
            opt_text(r) == self.plain_spec(),
    {
        match self {
            Reason::Note(note) => Some(note.text().to_owned()),
            Reason::Building { ticks, queued } => {
                let t = print_number(*ticks as u64);
                let q = print_number(*queued as u64);
                Some(
                    "waiting: conviction building (".to_owned().concat(t.as_str()).concat(
                        " ticks, queued=",
                    ).concat(q.as_str()).concat(")"),
                )
            },
            _ => None,
        }
    }
}

/// The strategies.
#[derive(Clone, Copy, Debug, PartialEq, Eq, Structural)]
pub enum StrategyId {
    ConvictionFollow,
    HypeReversion,
    ExternalBtc,
    TrendStrength,
    MeanReversion,
}

impl StrategyId {
    /// The name of a strategy.
    pub open spec fn name_spec(self) -> Seq<char> {
        match self {
            StrategyId::ConvictionFollow => "conviction_follow"@,
            StrategyId::HypeReversion => "hype_reversion"@,
            StrategyId::ExternalBtc => "external_btc"@,
            StrategyId::TrendStrength => "trend_strength"@,
            StrategyId::MeanReversion => "mean_reversion"@,
        }
    }

    /// The name of a strategy.
    pub fn name(self) -> (r: &'static str)
        ensures
            r@ == self.name_spec(),
    {
        match self {
            StrategyId::ConvictionFollow => "conviction_follow",
            StrategyId::HypeReversion => "hype_reversion",
            StrategyId::ExternalBtc => "external_btc",
            StrategyId::TrendStrength => "trend_strength",
            StrategyId::MeanReversion => "mean_reversion",
        }
    }
}

/// What a strategy says at a time.
#[derive(Clone, Copy, Debug, PartialEq, Eq, Structural)]
pub struct PredictionSignal {
    pub strategy: StrategyId,
    pub signal_type: SignalType,
    pub side: PredictionSide,
    /// Zero where the strategy has no measure of it.
    pub confidence: Double,
    pub target_entry: Dec,
    pub target_exit: Dec,
    pub stop_loss: Dec,
    pub generated_at_ms: u64,
    pub reason: Reason,
}

impl PredictionSignal {
    /// The signal not to trade.
    pub open spec fn no_trade_spec(strategy: StrategyId, reason: Reason, at: u64) -> PredictionSignal {
        PredictionSignal {
            strategy,
            signal_type: SignalType::NoTrade,
            side: PredictionSide::Up,
            confidence: Double::zero_spec(),
            target_entry: Dec::zero_spec(),
            target_exit: Dec::zero_spec(),
            stop_loss: Dec::zero_spec(),
            generated_at_ms: at,
            reason,
        }
    }

    /// The signal to buy a side at a price.
    pub open spec fn buy_spec(
        strategy: StrategyId,
        side: PredictionSide,
        confidence: Double,
        entry: Dec,
        at: u64,
        reason: Reason,
    ) -> PredictionSignal {
        PredictionSignal {
            strategy,
            signal_type: SignalType::Buy,
            side,
            confidence,
            target_entry: entry,
            target_exit: entry,
            stop_loss: entry,
            generated_at_ms: at,
            reason,
        }
    }

    /// The signal not to trade.
    pub fn no_trade(strategy: StrategyId, reason: Reason, generated_at_ms: u64) -> (r: Self)
        ensures
            r == PredictionSignal::no_trade_spec(strategy, reason, generated_at_ms),
    {
        PredictionSignal {
            strategy,
            signal_type: SignalType::NoTrade,
            side: PredictionSide::Up,
            confidence: Double::zero(),
            target_entry: Dec { mantissa: 0, scale: 0 },
            target_exit: Dec { mantissa: 0, scale: 0 },
            stop_loss: Dec { mantissa: 0, scale: 0 },
            generated_at_ms,
            reason,
        }
    }

    /// The signal to buy a side at a price.
    pub fn buy(
        strategy: StrategyId,
        side: PredictionSide,
        confidence: Double,
        entry: Dec,
        generated_at_ms: u64,
        reason: Reason,
    ) -> (r: Self)
        ensures
            r == PredictionSignal::buy_spec(
                strategy,
                side,
                confidence,
                entry,
                generated_at_ms,
                reason,
            ),
    {
        PredictionSignal {
            strategy,
            signal_type: SignalType::Buy,
            side,
            confidence,
            target_entry: entry,
            target_exit: entry,
            stop_loss: entry,
            generated_at_ms,
            reason,
        }
    }
}

/// A signal not to trade names no price and has no confidence.
pub proof fn law_no_trade_names_no_price(strategy: StrategyId, reason: Reason, at: u64)
    ensures
        ({
            let s = PredictionSignal::no_trade_spec(strategy, reason, at);
            &&& s.signal_type is NoTrade
            &&& s.strategy == strategy && s.reason == reason && s.generated_at_ms == at
            &&& s.confidence.bits == 0
            &&& s.target_entry.mantissa == 0 && s.target_exit.mantissa == 0 && s.stop_loss.mantissa
                == 0
            &&& s.side is Up
        }),
{
}

/// A signal to buy names the side, the confidence and the price that it was made with.
pub proof fn law_buy_names_side_and_price(
    strategy: StrategyId,
    side: PredictionSide,
    confidence: Double,
    entry: Dec,
    at: u64,
    reason: Reason,
)
    ensures
        ({
            let s = PredictionSignal::buy_spec(strategy, side, confidence, entry, at, reason);
            &&& s.signal_type is Buy
            &&& s.strategy == strategy && s.side == side && s.confidence == confidence
            &&& s.target_entry == entry && s.target_exit == entry && s.stop_loss == entry
            &&& s.generated_at_ms == at && s.reason == reason
        }),
        side.other() != side,
        side.other().other() == side,
{
}

/// No two strategies have the same name.
pub proof fn law_strategies_have_their_own_names(a: StrategyId, b: StrategyId)
    ensures
        a.name_spec() == b.name_spec() ==> a == b,
        a is ConvictionFollow ==> a.name_spec() == "conviction_follow"@,
        a is HypeReversion ==> a.name_spec() == "hype_reversion"@,
        a is ExternalBtc ==> a.name_spec() == "external_btc"@,
        a is TrendStrength ==> a.name_spec() == "trend_strength"@,
        a is MeanReversion ==> a.name_spec() == "mean_reversion"@,
{
    reveal_strlit("conviction_follow");
    reveal_strlit("hype_reversion");
    reveal_strlit("external_btc");
    reveal_strlit("trend_strength");
    reveal_strlit("mean_reversion");
    assert("conviction_follow"@.len() == 17);
    assert("external_btc"@.len() == 12);
    assert("hype_reversion"@.len() == 14 && "trend_strength"@.len() == 14);
    assert("mean_reversion"@.len() == 14);
    assert("hype_reversion"@[0] == 'h');
    assert("trend_strength"@[0] == 't');
    assert("mean_reversion"@[0] == 'm');
}

/// Whoever waits says what for: every note says that it is one of waiting, except the one on a leader
/// without a direction, and each note has its own text.
pub proof fn law_notes_say_what_is_missing(note: Note)
    ensures
        match note {
            Note::OriginNotLocked => note.text_spec() == "waiting: btc origin not locked"@,
            Note::TokenOriginNotSet => note.text_spec() == "waiting: token origin not set"@,
            Note::TokenPriceZero => note.text_spec() == "waiting: token price is zero"@,
            Note::NoExternalPrediction => note.text_spec()
                == "waiting: external prediction not available"@,
            Note::NoTrendStrength => note.text_spec()
                == "waiting: trend strength snapshot not available"@,
            Note::NoLeader => note.text_spec() == "waiting: no leader established yet"@,
            Note::LeaderSideways => note.text_spec() == "no-trade: leader direction is Sideways"@,
            Note::NoConviction => note.text_spec() == "waiting: conviction tracker not populated"@,
            Note::NoReversion => note.text_spec() == "waiting: reversion engine not yet warmed up"@,
        },
{
}

/// A reason without measurements is said in words; a run that is being built up with its ticks and
/// the number of those that wait.
pub proof fn law_plain_reasons_are_said_in_words(reason: Reason)
    ensures
        reason matches Reason::Note(note) ==> reason.plain_spec() == Some(note.text_spec()),
        reason matches Reason::Building { ticks, queued } ==> reason.plain_spec() == Some(
            "waiting: conviction building ("@ + decimal::digits(ticks as nat) + " ticks, queued="@
                + decimal::digits(queued as nat) + ")"@,
        ),
        !(reason is Note) && !(reason is Building) ==> reason.plain_spec() is None,
{
}

} // verus!

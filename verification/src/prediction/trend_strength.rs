//! Trend strength detector: a measure of both directions that is kept across windows.
//!
//! Each direction is a stream of evidence. There is no queue, no reset and no stored leader:
//! who leads is derived from the two streams each time it is asked for.
//!
//! A tick of one direction takes the other's readiness away at once, so that both are never
//! ready together; what the other stream has gathered stays. A stream that has been silent for
//! [`FRESHNESS_MS`] may not lead, and is dropped after [`STALE_MS`].
//!
//! The weighted averages and the decayed scores are handed to the detector.

use vstd::prelude::*;
use crate::double::Double;
use crate::prediction::direction::TrendDirection;
use crate::prediction::storage;
use crate::prediction::storage::minus_or_zero;

verus! {

/// The least confidence of a tick that counts: 0.60.
pub const CONFIDENCE_THRESHOLD_BITS: u64 = 0x3fe3_3333_3333_3333;

/// Confirming ticks in a row that a stream needs to lead.
pub const READY_TICKS: u32 = 8;

/// The milliseconds of silence in which a score halves.
pub const DECAY_HALFLIFE_MS: u64 = 15_000;

/// The milliseconds of silence after which a stream may not lead.
pub const FRESHNESS_MS: u64 = 30_000;

/// The milliseconds of silence after which a stream is dropped.
pub const STALE_MS: u64 = 60_000;

/// What has been seen of one direction.
#[derive(Clone, Copy, Debug, PartialEq, Eq, Structural)]
pub struct DirectionState {
    pub direction: TrendDirection,
    pub ewma_confidence: Double,
    pub consecutive_ticks: u32,
    pub first_seen_ms: u64,
    pub last_seen_ms: u64,
}

impl DirectionState {
    /// Whether the stream may lead: enough ticks in a row, and the last one not too long ago.
    pub open spec fn is_ready(self, now_ms: u64) -> bool {
        self.consecutive_ticks >= READY_TICKS && storage::minus(now_ms, self.last_seen_ms)
            <= FRESHNESS_MS
    }

    /// Whether the stream has been silent for so long that it is dropped.
    pub open spec fn has_expired(self, now_ms: u64) -> bool {
        storage::minus(now_ms, self.last_seen_ms) > STALE_MS
    }

    /// Whether the stream may lead.
    pub fn ready(&self, now_ms: u64) -> (r: bool)
        ensures
            r == self.is_ready(now_ms),
    {
        self.consecutive_ticks >= READY_TICKS && minus_or_zero(now_ms, self.last_seen_ms)
            <= FRESHNESS_MS
    }

    /// Whether the stream is to be dropped.
    pub fn is_stale(&self, now_ms: u64) -> (r: bool)
        ensures
            r == self.has_expired(now_ms),
    {
        minus_or_zero(now_ms, self.last_seen_ms) > STALE_MS
    }
}

/// The stream that leads.
#[derive(Clone, Copy, Debug, PartialEq, Eq, Structural)]
pub struct TrendStrengthSignal {
    pub direction: TrendDirection,
    /// The decayed score.
    pub score: Double,
    /// The average without decay.
    pub ewma_confidence: Double,
    pub consecutive_ticks: u32,
    /// The time since the stream was first seen, in milliseconds.
    pub held_ms: u64,
}

/// What the detector shows of itself.
#[derive(Clone, Copy, Debug, PartialEq, Eq)]
pub struct TrendStrengthSnapshot {
    /// Score and ticks of the bullish stream.
    pub bull: Option<(Double, u32)>,
    /// Score and ticks of the bearish stream.
    pub bear: Option<(Double, u32)>,
    pub leader: Option<TrendStrengthSignal>,
}

#[derive(Clone, Copy, Debug, PartialEq, Eq, Structural)]
pub struct TrendStrengthDetector {
    pub bull: Option<DirectionState>,
    pub bear: Option<DirectionState>,
}

/// Whether a tick's confidence counts.
pub open spec fn counts(confidence: Double) -> bool {
    (Double { bits: CONFIDENCE_THRESHOLD_BITS }).at_most(confidence)
}

/// The stream without its readiness.
pub open spec fn stripped(stream: Option<DirectionState>) -> Option<DirectionState> {
    match stream {
        Some(s) => Some(DirectionState { consecutive_ticks: 0, ..s }),
        None => None,
    }
}

/// The stream with one more tick of it, where `blended` is its average with that tick's
/// confidence.
pub open spec fn extended(
    stream: Option<DirectionState>,
    direction: TrendDirection,
    confidence: Double,
    blended: Double,
    now_ms: u64,
) -> Option<DirectionState> {
    if !counts(confidence) {
        stream
    } else {
        match stream {
            Some(s) => Some(
                DirectionState {
                    ewma_confidence: blended,
                    consecutive_ticks: (s.consecutive_ticks + 1) as u32,
                    last_seen_ms: now_ms,
                    ..s
                },
            ),
            None => Some(
                DirectionState {
                    direction,
                    ewma_confidence: confidence,
                    consecutive_ticks: 1,
                    first_seen_ms: now_ms,
                    last_seen_ms: now_ms,
                },
            ),
        }
    }
}

/// The stream, unless it has been silent for too long.
pub open spec fn unexpired(stream: Option<DirectionState>, now_ms: u64) -> Option<DirectionState> {
    match stream {
        Some(s) => if s.has_expired(now_ms) { None } else { Some(s) },
        None => None,
    }
}

impl TrendStrengthDetector {
    /// Each stream stands under its direction, and at most one of them has ticks in a row.
    pub open spec fn wf(self) -> bool {
        &&& self.bull matches Some(b) ==> b.direction is Bullish
        &&& self.bear matches Some(r) ==> r.direction is Bearish
        &&& self.bull is Some && self.bear is Some ==> self.bull->0.consecutive_ticks == 0
            || self.bear->0.consecutive_ticks == 0
    }

    /// Whether one more tick of a stream can be counted.
    pub open spec fn countable(self, direction: TrendDirection) -> bool {
        match direction {
            TrendDirection::Bullish => self.bull matches Some(s) ==> s.consecutive_ticks < u32::MAX,
            TrendDirection::Bearish => self.bear matches Some(s) ==> s.consecutive_ticks < u32::MAX,
            TrendDirection::Sideways => true,
        }
    }

    /// The detector after one tick. A stream that has been silent for too long is dropped before
    /// the tick is counted.
    pub open spec fn pushed(
        self,
        direction: TrendDirection,
        confidence: Double,
        blended: Double,
        now_ms: u64,
    ) -> TrendStrengthDetector {
        let bull = unexpired(self.bull, now_ms);
        let bear = unexpired(self.bear, now_ms);
        match direction {
            TrendDirection::Bullish => TrendStrengthDetector {
                bull: extended(bull, direction, confidence, blended, now_ms),
                bear: stripped(bear),
            },
            TrendDirection::Bearish => TrendStrengthDetector {
                bull: stripped(bull),
                bear: extended(bear, direction, confidence, blended, now_ms),
            },
            TrendDirection::Sideways => TrendStrengthDetector { bull, bear },
        }
    }

    /// The stream that leads, and its score.
    pub open spec fn leading(
        self,
        now_ms: u64,
        bull_score: Double,
        bear_score: Double,
    ) -> Option<(DirectionState, Double)> {
        if self.bull is Some && self.bull->0.is_ready(now_ms) {
            Some((self.bull->0, bull_score))
        } else if self.bear is Some && self.bear->0.is_ready(now_ms) {
            Some((self.bear->0, bear_score))
        } else {
            None
        }
    }

    /// What the detector shows of itself.
    pub open spec fn shown(
        self,
        now_ms: u64,
        bull_score: Double,
        bear_score: Double,
    ) -> TrendStrengthSnapshot {
        TrendStrengthSnapshot {
            bull: match self.bull {
                Some(b) => Some((bull_score, b.consecutive_ticks)),
                None => None,
            },
            bear: match self.bear {
                Some(r) => Some((bear_score, r.consecutive_ticks)),
                None => None,
            },
            leader: match self.leading(now_ms, bull_score, bear_score) {
                Some((s, score)) => Some(
                    TrendStrengthSignal {
                        direction: s.direction,
                        score,
                        ewma_confidence: s.ewma_confidence,
                        consecutive_ticks: s.consecutive_ticks,
                        held_ms: storage::minus(now_ms, s.first_seen_ms),
                    },
                ),
                None => None,
            },
        }
    }

    /// A detector that has seen nothing.
    pub fn new() -> (r: Self)
        ensures
            r == (TrendStrengthDetector { bull: None, bear: None }),
            r.wf(),
    {
        TrendStrengthDetector { bull: None, bear: None }
    }

    /// Takes in one tick of the model's output. `blended` is the average of the tick's stream
    /// with the tick's confidence; it is not looked at where the stream is new or too old.
    pub fn push(
        &mut self,
        direction: TrendDirection,
        confidence: Double,
        blended: Double,
        now_ms: u64,
    )
        requires
            old(self).wf(),
            old(self).countable(direction),
        ensures
            *final(self) == old(self).pushed(direction, confidence, blended, now_ms),
            final(self).wf(),
    {
        self.bull = keep_unexpired(self.bull, now_ms);
        self.bear = keep_unexpired(self.bear, now_ms);
        match direction {
            TrendDirection::Bullish => {
                self.bear = strip(self.bear);
                self.bull = extend(self.bull, direction, confidence, blended, now_ms);
            },
            TrendDirection::Bearish => {
                self.bull = strip(self.bull);
                self.bear = extend(self.bear, direction, confidence, blended, now_ms);
            },
            TrendDirection::Sideways => {},
        }
    }

    /// What the detector shows of itself at the time `now_ms`, where the two scores are the
    /// averages of the two streams decayed to that time. A score is not looked at where the
    /// stream is not there.
    pub fn snapshot(&self, now_ms: u64, bull_score: Double, bear_score: Double) -> (r:
        TrendStrengthSnapshot)
        requires
            self.wf(),
        ensures
            r == self.shown(now_ms, bull_score, bear_score),
    {
        let bull_ready = match &self.bull {
            Some(b) => b.ready(now_ms),
            None => false,
        };
        let bear_ready = match &self.bear {
            Some(r) => r.ready(now_ms),
            None => false,
        };
        let leader = match (&self.bull, &self.bear) {
            (Some(b), Some(r)) if bull_ready && bear_ready => {
                // Both are never ready together; the higher score would win.
                if bear_score.le(bull_score) {
                    Some((*b, bull_score))
                } else {
                    Some((*r, bear_score))
                }
            },
            (Some(b), _) if bull_ready => Some((*b, bull_score)),
            (_, Some(r)) if bear_ready => Some((*r, bear_score)),
            _ => None,
        };
        TrendStrengthSnapshot {
            bull: match &self.bull {
                Some(b) => Some((bull_score, b.consecutive_ticks)),
                None => None,
            },
            bear: match &self.bear {
                Some(r) => Some((bear_score, r.consecutive_ticks)),
                None => None,
            },
            leader: match leader {
                Some((s, score)) => Some(
                    TrendStrengthSignal {
                        direction: s.direction,
                        score,
                        ewma_confidence: s.ewma_confidence,
                        consecutive_ticks: s.consecutive_ticks,
                        held_ms: minus_or_zero(now_ms, s.first_seen_ms),
                    },
                ),
                None => None,
            },
        }
    }
}

impl Default for TrendStrengthDetector {
    fn default() -> (r: Self)
        ensures
            r == (TrendStrengthDetector { bull: None, bear: None }),
    {
        TrendStrengthDetector::new()
    }
}

/// The stream without its readiness.
fn strip(stream: Option<DirectionState>) -> (r: Option<DirectionState>)
    ensures
        r == stripped(stream),
{
    match stream {
        Some(s) => Some(
            DirectionState {
                direction: s.direction,
                ewma_confidence: s.ewma_confidence,
                consecutive_ticks: 0,
                first_seen_ms: s.first_seen_ms,
                last_seen_ms: s.last_seen_ms,
            },
        ),
        None => None,
    }
}

/// The stream with one more tick of it.
fn extend(
    stream: Option<DirectionState>,
    direction: TrendDirection,
    confidence: Double,
    blended: Double,
    now_ms: u64,
) -> (r: Option<DirectionState>)
    requires
        stream matches Some(s) ==> s.consecutive_ticks < u32::MAX,
    ensures
        r == extended(stream, direction, confidence, blended, now_ms),
{
    if !Double::from_bits(CONFIDENCE_THRESHOLD_BITS).le(confidence) {
        return stream;
    }
    match stream {
        Some(s) => Some(
            DirectionState {
                direction: s.direction,
                ewma_confidence: blended,
                consecutive_ticks: s.consecutive_ticks + 1,
                first_seen_ms: s.first_seen_ms,
                last_seen_ms: now_ms,
            },
        ),
        None => Some(
            DirectionState {
                direction,
                ewma_confidence: confidence,
                consecutive_ticks: 1,
                first_seen_ms: now_ms,
                last_seen_ms: now_ms,
            },
        ),
    }
}

/// The stream, unless it has been silent for too long.
fn keep_unexpired(stream: Option<DirectionState>, now_ms: u64) -> (r: Option<DirectionState>)
    ensures
        r == unexpired(stream, now_ms),
{
    match stream {
        Some(s) => if s.is_stale(now_ms) {
            None
        } else {
            Some(s)
        },
        None => None,
    }
}

/// The two streams are never ready together, at any time.
pub proof fn law_never_both_ready(d: TrendStrengthDetector, now_ms: u64)
    requires
        d.wf(),
    ensures
        !(d.bull is Some && d.bull->0.is_ready(now_ms) && d.bear is Some && d.bear->0.is_ready(
            now_ms,
        )),
{
}

/// Every tick keeps that so.
pub proof fn law_push_keeps_order(
    d: TrendStrengthDetector,
    direction: TrendDirection,
    confidence: Double,
    blended: Double,
    now_ms: u64,
)
    requires
        d.wf(),
        d.countable(direction),
    ensures
        d.pushed(direction, confidence, blended, now_ms).wf(),
{
}

/// A tick of one direction, however weak, takes the other stream's readiness away and leaves
/// its average and its times, as long as that stream is not dropped for its silence.
pub proof fn law_contradiction_strips_readiness_only(
    d: TrendStrengthDetector,
    direction: TrendDirection,
    confidence: Double,
    blended: Double,
    now_ms: u64,
    later_ms: u64,
)
    requires
        d.wf(),
    ensures
        ({
            let after = d.pushed(direction, confidence, blended, now_ms);
            &&& direction is Bullish && d.bear is Some && !d.bear->0.has_expired(now_ms) ==> {
                &&& after.bear is Some
                &&& after.bear->0.consecutive_ticks == 0
                &&& !after.bear->0.is_ready(later_ms)
                &&& after.bear->0.ewma_confidence == d.bear->0.ewma_confidence
                &&& after.bear->0.first_seen_ms == d.bear->0.first_seen_ms
                &&& after.bear->0.last_seen_ms == d.bear->0.last_seen_ms
            }
            &&& direction is Bearish && d.bull is Some && !d.bull->0.has_expired(now_ms) ==> {
                &&& after.bull is Some
                &&& after.bull->0.consecutive_ticks == 0
                &&& !after.bull->0.is_ready(later_ms)
                &&& after.bull->0.ewma_confidence == d.bull->0.ewma_confidence
                &&& after.bull->0.first_seen_ms == d.bull->0.first_seen_ms
                &&& after.bull->0.last_seen_ms == d.bull->0.last_seen_ms
            }
        }),
{
}

/// Silence takes the lead away before it drops the stream: after [`FRESHNESS_MS`] nothing
/// leads, and up to [`STALE_MS`] a sideways tick leaves the stream as it is.
pub proof fn law_silence_ends_leading_before_dropping(
    d: TrendStrengthDetector,
    stream: DirectionState,
    now_ms: u64,
    confidence: Double,
    blended: Double,
)
    requires
        d.wf(),
        d.bull == Some(stream) && d.bear is None || d.bear == Some(stream) && d.bull is None,
        storage::minus(now_ms, stream.last_seen_ms) > FRESHNESS_MS,
        storage::minus(now_ms, stream.last_seen_ms) <= STALE_MS,
    ensures
        forall|x: Double, y: Double| (#[trigger] d.shown(now_ms, x, y)).leader is None,
        d.pushed(TrendDirection::Sideways, confidence, blended, now_ms) == d,
{
}

/// A stream that has been silent for too long leaves nothing behind: a tick of its direction that
/// counts starts it anew, and after any other tick it is not there.
pub proof fn law_expired_stream_starts_anew(
    d: TrendStrengthDetector,
    direction: TrendDirection,
    confidence: Double,
    blended: Double,
    now_ms: u64,
)
    requires
        d.bull matches Some(s) ==> s.has_expired(now_ms),
        d.bear matches Some(s) ==> s.has_expired(now_ms),
    ensures
        ({
            let after = d.pushed(direction, confidence, blended, now_ms);
            let anew = Some(
                DirectionState {
                    direction,
                    ewma_confidence: confidence,
                    consecutive_ticks: 1,
                    first_seen_ms: now_ms,
                    last_seen_ms: now_ms,
                },
            );
            let none = None::<DirectionState>;
            &&& after.bull == (if direction is Bullish && counts(confidence) { anew } else { none })
            &&& after.bear == (if direction is Bearish && counts(confidence) { anew } else { none })
        }),
{
}

/// A sideways tick changes no stream that has not been silent for too long.
pub proof fn law_sideways_touches_nothing(
    d: TrendStrengthDetector,
    confidence: Double,
    blended: Double,
    now_ms: u64,
)
    requires
        d.bull matches Some(s) ==> !s.has_expired(now_ms),
        d.bear matches Some(s) ==> !s.has_expired(now_ms),
    ensures
        d.pushed(TrendDirection::Sideways, confidence, blended, now_ms) == d,
{
}

/// A stream that leads has had at least [`READY_TICKS`] ticks in a row.
pub proof fn law_leader_has_evidence(
    d: TrendStrengthDetector,
    now_ms: u64,
    bull_score: Double,
    bear_score: Double,
)
    requires
        d.wf(),
        d.shown(now_ms, bull_score, bear_score).leader is Some,
    ensures
        d.shown(now_ms, bull_score, bear_score).leader->0.consecutive_ticks >= READY_TICKS,
        !(d.shown(now_ms, bull_score, bear_score).leader->0.direction is Sideways),
{
}

/// A stream grows by its own ticks: one with a confidence of at least 0.60 is one more in a row, a
/// weaker one changes nothing, and a tick of the opposite direction takes the count back to zero.
/// The first tick of a stream is its average, and every later one is blended into it.
pub proof fn law_stream_grows_by_its_own_ticks(
    d: TrendStrengthDetector,
    direction: TrendDirection,
    confidence: Double,
    blended: Double,
    now_ms: u64,
)
    requires
        d.wf(),
        d.countable(direction),
        d.bull matches Some(s) ==> now_ms - s.last_seen_ms <= 60_000,
        d.bear matches Some(s) ==> now_ms - s.last_seen_ms <= 60_000,
    ensures
        ({
            let after = d.pushed(direction, confidence, blended, now_ms);
            let strong = !confidence.nan() && confidence.rank() >= 0x3fe3_3333_3333_3333;
            let grown = |before: Option<DirectionState>, now: Option<DirectionState>|
                {
                    &&& now is Some && now->0.last_seen_ms == now_ms && now->0.direction == direction
                    &&& before is None ==> now->0.consecutive_ticks == 1 && now->0.ewma_confidence
                        == confidence && now->0.first_seen_ms == now_ms
                    &&& before is Some ==> now->0.consecutive_ticks == before->0.consecutive_ticks + 1
                        && now->0.ewma_confidence == blended && now->0.first_seen_ms
                        == before->0.first_seen_ms
                };
            let held = |before: Option<DirectionState>, now: Option<DirectionState>|
                (now is Some <==> before is Some) && (before is Some ==> now == Some(
                    DirectionState { consecutive_ticks: 0, ..before->0 },
                ));
            &&& direction is Bullish && strong ==> grown(d.bull, after.bull)
            &&& direction is Bullish && !strong ==> after.bull == d.bull
            &&& direction is Bullish ==> held(d.bear, after.bear)
            &&& direction is Bearish && strong ==> grown(d.bear, after.bear)
            &&& direction is Bearish && !strong ==> after.bear == d.bear
            &&& direction is Bearish ==> held(d.bull, after.bull)
            &&& direction is Sideways ==> after == d
        }),
{
}

/// A stream leads exactly while it has eight ticks in a row and was seen in the last thirty
/// seconds; it is shown with its own score, average and ticks, and the time since it began.
pub proof fn law_stream_leads_while_it_is_ready(
    d: TrendStrengthDetector,
    now_ms: u64,
    bull_score: Double,
    bear_score: Double,
)
    requires
        d.wf(),
    ensures
        ({
            let s = d.shown(now_ms, bull_score, bear_score);
            let ready = |stream: Option<DirectionState>|
                stream is Some && stream->0.consecutive_ticks >= 8 && now_ms
                    - stream->0.last_seen_ms <= 30_000;
            let leads = |l: Option<TrendStrengthSignal>, stream: Option<DirectionState>, score: Double|
                l is Some && l->0.direction == stream->0.direction && l->0.score == score
                    && l->0.ewma_confidence == stream->0.ewma_confidence && l->0.consecutive_ticks
                    == stream->0.consecutive_ticks && l->0.held_ms == (if now_ms
                    >= stream->0.first_seen_ms {
                    now_ms - stream->0.first_seen_ms
                } else {
                    0
                });
            &&& s.leader is Some <==> ready(d.bull) || ready(d.bear)
            &&& ready(d.bull) ==> leads(s.leader, d.bull, bull_score) && s.leader->0.direction is
                Bullish
            &&& ready(d.bear) ==> leads(s.leader, d.bear, bear_score) && s.leader->0.direction is
                Bearish
            &&& s.bull is Some <==> d.bull is Some
            &&& d.bull is Some ==> s.bull == Some((bull_score, d.bull->0.consecutive_ticks))
            &&& s.bear is Some <==> d.bear is Some
            &&& d.bear is Some ==> s.bear == Some((bear_score, d.bear->0.consecutive_ticks))
        }),
{
}

/// A stream that was not seen for more than a minute is gone before the tick is counted: after a
/// tick of another direction it is not there, and one of its own starts it with a single tick.
pub proof fn law_silent_stream_is_forgotten(
    d: TrendStrengthDetector,
    direction: TrendDirection,
    confidence: Double,
    blended: Double,
    now_ms: u64,
)
    ensures
        ({
            let after = d.pushed(direction, confidence, blended, now_ms);
            let strong = !confidence.nan() && confidence.rank() >= 0x3fe3_3333_3333_3333;
            let anew = |now: Option<DirectionState>|
                now is Some && now->0.direction == direction && now->0.consecutive_ticks == 1
                    && now->0.first_seen_ms == now_ms && now->0.last_seen_ms == now_ms
                    && now->0.ewma_confidence == confidence;
            let silent = |s: Option<DirectionState>| s is Some && now_ms - s->0.last_seen_ms > 60_000;
            &&& silent(d.bull) && direction is Bullish && strong ==> anew(after.bull)
            &&& silent(d.bull) && !(direction is Bullish && strong) ==> after.bull is None
            &&& silent(d.bear) && direction is Bearish && strong ==> anew(after.bear)
            &&& silent(d.bear) && !(direction is Bearish && strong) ==> after.bear is None
        }),
{
}

/// A score has halved twice when its stream may lead no more, and four times when the stream is
/// dropped.
pub proof fn law_lead_ends_after_two_half_lives()
    ensures
        DECAY_HALFLIFE_MS == 15_000,
        FRESHNESS_MS == 2 * DECAY_HALFLIFE_MS,
        STALE_MS == 4 * DECAY_HALFLIFE_MS,
{
}

} // verus!

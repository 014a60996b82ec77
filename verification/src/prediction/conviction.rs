//! Conviction tracker: turns the model's output, which flickers from tick to tick, into a
//! stable directional signal.
//!
//! 1. A direction builds up a candidate while its ticks follow each other with enough
//!    confidence. After [`TICKS_REQUIRED`] such ticks the candidate is ready.
//! 2. A ready candidate enters the queue, unless the active signal has its direction
//!    already. Of one direction the queue holds the better entry only.
//! 3. An entry that waits longer than [`CANDIDATE_EXPIRY_MS`] is dropped. The best of the others
//!    becomes the active signal as soon as there is none. The active signal ends after [`EXIT_TICKS_REQUIRED`] opposing ticks in a row with enough
//!    confidence, after [`MAX_HOLD_MS`], or by a reset.
//!
//! The tracker counts and compares; sums and means of confidences are handed to it.

use vstd::prelude::*;
use crate::double::Double;
use crate::prediction::direction::TrendDirection;
use crate::prediction::storage;
use crate::prediction::storage::minus_or_zero;

verus! {

/// Confirming ticks in a row that make a candidate ready.
pub const TICKS_REQUIRED: u32 = 8;

/// The least confidence of a confirming tick: 0.60.
pub const CONFIDENCE_THRESHOLD_BITS: u64 = 0x3fe3_3333_3333_3333;

/// Opposing ticks in a row that end the active signal.
pub const EXIT_TICKS_REQUIRED: u32 = 5;

/// The least confidence of an opposing tick: 0.65.
pub const EXIT_CONFIDENCE_THRESHOLD_BITS: u64 = 0x3fe4_cccc_cccc_cccd;

/// The longest that a signal stays active, in milliseconds.
pub const MAX_HOLD_MS: u64 = 240_000;

/// The longest that an entry waits in the queue, in milliseconds.
pub const CANDIDATE_EXPIRY_MS: u64 = 240_000;

/// Confirming ticks of one direction so far.
#[derive(Clone, Copy, Debug, PartialEq, Eq, Structural)]
pub struct Candidate {
    pub direction: TrendDirection,
    pub consecutive_ticks: u32,
    pub cumulative_confidence: Double,
    pub first_seen_ms: u64,
    pub last_seen_ms: u64,
}

/// A ready candidate that waits for the active slot.
#[derive(Clone, Copy, Debug, PartialEq, Eq, Structural)]
pub struct QueuedEntry {
    pub direction: TrendDirection,
    pub mean_confidence: Double,
    pub queued_at_ms: u64,
}

/// The stable signal.
#[derive(Clone, Copy, Debug, PartialEq, Eq, Structural)]
pub struct ActiveSignal {
    pub direction: TrendDirection,
    pub mean_confidence: Double,
    pub activated_at_ms: u64,
}

/// What the tracker shows of itself.
#[derive(Clone, Copy, Debug, PartialEq, Eq, Structural)]
pub struct ConvictionSnapshot {
    /// The stable signal, if there is one.
    pub active: Option<ActiveSignal>,
    /// The number of entries behind it.
    pub queued: usize,
    /// The ticks of the bullish candidate.
    pub building_bullish: Option<u32>,
    /// The ticks of the bearish candidate.
    pub building_bearish: Option<u32>,
    /// The direction that is being built up, and its ticks.
    pub building: Option<TrendDirection>,
    pub building_ticks: u32,
}

impl Default for ConvictionSnapshot {
    fn default() -> (r: Self)
        ensures
            r == (ConvictionSnapshot {
                active: None,
                queued: 0,
                building_bullish: None,
                building_bearish: None,
                building: None,
                building_ticks: 0,
            }),
    {
        ConvictionSnapshot {
            active: None,
            queued: 0,
            building_bullish: None,
            building_bearish: None,
            building: None,
            building_ticks: 0,
        }
    }
}

/// What a tick adds to the candidate of its direction, computed from
/// [`ConvictionTracker::candidate`].
#[derive(Clone, Copy, Debug, PartialEq, Eq, Structural)]
pub struct Tally {
    /// The sum of the candidate's confidences with this tick's.
    pub cumulative: Double,
    /// That sum divided by the number of ticks with this one.
    pub mean: Double,
}

pub struct ConvictionTracker {
    bullish_candidate: Option<Candidate>,
    bearish_candidate: Option<Candidate>,
    queue: Vec<QueuedEntry>,
    active: Option<ActiveSignal>,
    exit_counter: u32,
}

/// The mathematical value of a [`ConvictionTracker`].
#[verifier::ext_equal]
pub struct TrackerView {
    pub bullish: Option<Candidate>,
    pub bearish: Option<Candidate>,
    pub queue: Seq<QueuedEntry>,
    pub active: Option<ActiveSignal>,
    pub exit_counter: u32,
}

/// Whether a tick's confidence counts for a candidate.
pub open spec fn confirms(confidence: Double) -> bool {
    (Double { bits: CONFIDENCE_THRESHOLD_BITS }).at_most(confidence)
}

/// Whether a tick's confidence counts against the active signal.
pub open spec fn counters(confidence: Double) -> bool {
    (Double { bits: EXIT_CONFIDENCE_THRESHOLD_BITS }).at_most(confidence)
}

/// Whether a signal has been active for too long.
pub open spec fn outlived(signal: ActiveSignal, now_ms: u64) -> bool {
    storage::minus(now_ms, signal.activated_at_ms) > MAX_HOLD_MS
}

/// Whether a queued entry is still young enough.
pub open spec fn fresh(entry: QueuedEntry, now_ms: u64) -> bool {
    storage::minus(now_ms, entry.queued_at_ms) <= CANDIDATE_EXPIRY_MS
}

impl TrackerView {
    /// The tracker before the first tick.
    pub open spec fn initial() -> TrackerView {
        TrackerView {
            bullish: None,
            bearish: None,
            queue: Seq::empty(),
            active: None,
            exit_counter: 0,
        }
    }

    /// The candidate of a direction.
    pub open spec fn candidate(self, direction: TrendDirection) -> Option<Candidate> {
        match direction {
            TrendDirection::Bullish => self.bullish,
            TrendDirection::Bearish => self.bearish,
            TrendDirection::Sideways => None,
        }
    }

    /// The tracker with the candidate of a direction replaced, and without any other.
    pub open spec fn with_candidate(
        self,
        direction: TrendDirection,
        candidate: Option<Candidate>,
    ) -> TrackerView {
        TrackerView {
            bullish: if direction is Bullish { candidate } else { None },
            bearish: if direction is Bearish { candidate } else { None },
            ..self
        }
    }

    /// A candidate has one to seven ticks and stands under its direction; only one direction
    /// is being built up. The queue holds at most one entry, and only behind an active signal
    /// of the opposite direction. The exit counter is below its limit, and zero where nothing
    /// is active.
    pub open spec fn wf(self) -> bool {
        &&& self.bullish matches Some(c) ==> c.direction is Bullish && 1 <= c.consecutive_ticks
            < TICKS_REQUIRED
        &&& self.bearish matches Some(c) ==> c.direction is Bearish && 1 <= c.consecutive_ticks
            < TICKS_REQUIRED
        &&& self.bullish is None || self.bearish is None
        &&& self.queue.len() <= 1
        &&& self.queue.len() == 1 ==> self.active is Some && self.queue[0].direction.opposes(
            self.active->0.direction,
        )
        &&& self.active matches Some(a) ==> !(a.direction is Sideways)
        &&& self.exit_counter < EXIT_TICKS_REQUIRED
        &&& self.active is None ==> self.exit_counter == 0
    }

    /// The entry that leaves the queue next: the first one that no other exceeds.
    pub open spec fn best(self) -> int {
        if self.queue.len() == 2 && self.queue[0].mean_confidence.below(
            self.queue[1].mean_confidence,
        ) {
            1
        } else {
            0
        }
    }

    /// The tracker without the entries that have waited for too long.
    pub open spec fn expired(self, now_ms: u64) -> TrackerView {
        TrackerView { queue: self.queue.filter(|e: QueuedEntry| fresh(e, now_ms)), ..self }
    }

    /// The active slot filled from what is fresh in the queue, where it is empty and the queue is
    /// not.
    pub open spec fn filled(self, now_ms: u64) -> TrackerView {
        let t = self.expired(now_ms);
        if t.active is Some || t.queue.len() == 0 {
            t
        } else {
            let entry = t.queue[t.best()];
            TrackerView {
                queue: t.queue.remove(t.best()),
                active: Some(
                    ActiveSignal {
                        direction: entry.direction,
                        mean_confidence: entry.mean_confidence,
                        activated_at_ms: now_ms,
                    },
                ),
                exit_counter: 0,
                ..t
            }
        }
    }

    /// The active signal ended, and the slot filled again.
    pub open spec fn evicted(self, now_ms: u64) -> TrackerView {
        TrackerView { active: None, exit_counter: 0, ..self }.filled(now_ms)
    }

    /// The queue with an entry of a direction, unless it holds a better one of it.
    pub open spec fn enqueued(self, entry: QueuedEntry) -> TrackerView {
        let same = |e: QueuedEntry| e.direction == entry.direction;
        if exists|i: int|
            0 <= i < self.queue.len() && same(#[trigger] self.queue[i])
                && entry.mean_confidence.at_most(self.queue[i].mean_confidence) {
            self
        } else {
            TrackerView {
                queue: self.queue.filter(|e: QueuedEntry| e.direction != entry.direction).push(
                    entry,
                ),
                ..self
            }
        }
    }

    /// A tick counted for the candidate of its direction. With the last tick that it needs the
    /// candidate is gone again: into the queue, or dropped where the active signal has its
    /// direction.
    pub open spec fn counted(
        self,
        direction: TrendDirection,
        confidence: Double,
        tally: Tally,
        now_ms: u64,
    ) -> TrackerView {
        let candidate = match self.candidate(direction) {
            Some(c) => Candidate {
                consecutive_ticks: (c.consecutive_ticks + 1) as u32,
                cumulative_confidence: tally.cumulative,
                last_seen_ms: now_ms,
                ..c
            },
            None => Candidate {
                direction,
                consecutive_ticks: 1,
                cumulative_confidence: confidence,
                first_seen_ms: now_ms,
                last_seen_ms: now_ms,
            },
        };
        if candidate.consecutive_ticks < TICKS_REQUIRED {
            self.with_candidate(direction, Some(candidate))
        } else {
            let dropped = self.with_candidate(direction, None);
            if self.active matches Some(a) && a.direction == direction {
                dropped
            } else {
                dropped.enqueued(
                    QueuedEntry { direction, mean_confidence: tally.mean, queued_at_ms: now_ms },
                )
            }
        }
    }

    /// A tick counted for or against the active signal.
    pub open spec fn exit_counted(
        self,
        direction: TrendDirection,
        confidence: Double,
        now_ms: u64,
    ) -> TrackerView {
        if self.active is None {
            self
        } else if self.active->0.direction.opposes(direction) && counters(confidence) {
            if self.exit_counter + 1 >= EXIT_TICKS_REQUIRED {
                self.evicted(now_ms)
            } else {
                TrackerView { exit_counter: (self.exit_counter + 1) as u32, ..self }
            }
        } else {
            TrackerView { exit_counter: 0, ..self }
        }
    }

    /// The tracker once signals and entries that are too old are gone.
    pub open spec fn aged(self, now_ms: u64) -> TrackerView {
        if self.active matches Some(a) && outlived(a, now_ms) {
            self.evicted(now_ms)
        } else {
            self.filled(now_ms)
        }
    }

    /// The tracker after one tick. What has waited for too long is dropped before anything else.
    pub open spec fn pushed(
        self,
        direction: TrendDirection,
        confidence: Double,
        tally: Tally,
        now_ms: u64,
    ) -> TrackerView {
        let t = self.expired(now_ms);
        if direction is Sideways {
            TrackerView { exit_counter: 0, ..t.with_candidate(direction, None) }.aged(now_ms)
        } else if confirms(confidence) {
            t.counted(direction, confidence, tally, now_ms).exit_counted(
                direction,
                confidence,
                now_ms,
            ).aged(now_ms)
        } else {
            t.with_candidate(direction, None).exit_counted(direction, confidence, now_ms).aged(
                now_ms,
            )
        }
    }
}

impl View for ConvictionTracker {
    type V = TrackerView;

    closed spec fn view(&self) -> TrackerView {
        TrackerView {
            bullish: self.bullish_candidate,
            bearish: self.bearish_candidate,
            queue: self.queue@,
            active: self.active,
            exit_counter: self.exit_counter,
        }
    }
}

/// What a snapshot shows of a tracker.
pub open spec fn shown(t: TrackerView) -> ConvictionSnapshot {
    ConvictionSnapshot {
        active: t.active,
        queued: t.queue.len() as usize,
        building_bullish: match t.bullish {
            Some(c) => Some(c.consecutive_ticks),
            None => None,
        },
        building_bearish: match t.bearish {
            Some(c) => Some(c.consecutive_ticks),
            None => None,
        },
        building: if t.bullish is Some {
            Some(TrendDirection::Bullish)
        } else if t.bearish is Some {
            Some(TrendDirection::Bearish)
        } else {
            None
        },
        building_ticks: if t.bullish is Some {
            t.bullish->0.consecutive_ticks
        } else if t.bearish is Some {
            t.bearish->0.consecutive_ticks
        } else {
            0
        },
    }
}

impl ConvictionTracker {
    /// A tracker before the first tick.
    pub fn new() -> (r: Self)
        ensures
            r@ == TrackerView::initial(),
            r@.wf(),
    {
        let r = ConvictionTracker {
            bullish_candidate: None,
            bearish_candidate: None,
            queue: Vec::new(),
            active: None,
            exit_counter: 0,
        };
        assert(r@.queue =~= Seq::<QueuedEntry>::empty());
        r
    }

    /// Forgets everything; called when a new window begins.
    pub fn reset(&mut self)
        ensures
            final(self)@ == TrackerView::initial(),
            final(self)@.wf(),
    {
        self.bullish_candidate = None;
        self.bearish_candidate = None;
        self.queue.clear();
        self.active = None;
        self.exit_counter = 0;
    }

    /// The candidate of a direction, from which the caller computes the next [`Tally`].
    pub fn candidate(&self, direction: TrendDirection) -> (r: Option<Candidate>)
        ensures
            r == self@.candidate(direction),
    {
        match direction {
            TrendDirection::Bullish => self.bullish_candidate,
            TrendDirection::Bearish => self.bearish_candidate,
            TrendDirection::Sideways => None,
        }
    }

    /// Takes in one tick of the model's output.
    pub fn push(
        &mut self,
        direction: TrendDirection,
        confidence: Double,
        tally: Tally,
        now_ms: u64,
    )
        requires
            old(self)@.wf(),
        ensures
            final(self)@ == old(self)@.pushed(direction, confidence, tally, now_ms),
            final(self)@.wf(),
    {
        self.expire_queue(now_ms);
        proof {
            lemma_before_aging(old(self)@, direction, confidence, tally, now_ms);
        }
        match direction {
            TrendDirection::Sideways => {
                // Sideways ends what is being built up and the run of opposing ticks, but not
                // the active signal: it is no reversal.
                self.bullish_candidate = None;
                self.bearish_candidate = None;
                self.exit_counter = 0;
            },
            _ => {
                if Double::from_bits(CONFIDENCE_THRESHOLD_BITS).le(confidence) {
                    self.count(direction, confidence, tally, now_ms);
                } else {
                    self.bullish_candidate = None;
                    self.bearish_candidate = None;
                }
                self.update_exit_counter(direction, confidence, now_ms);
            },
        }
        self.check_max_hold(now_ms);
        proof {
            law_push_keeps_order(old(self)@, direction, confidence, tally, now_ms);
        }
    }

    /// What the tracker shows of itself.
    pub fn snapshot(&self) -> (r: ConvictionSnapshot)
        requires
            self@.wf(),
        ensures
            r == shown(self@),
    {
        let building_bullish = match &self.bullish_candidate {
            Some(c) => Some(c.consecutive_ticks),
            None => None,
        };
        let building_bearish = match &self.bearish_candidate {
            Some(c) => Some(c.consecutive_ticks),
            None => None,
        };
        let (building, building_ticks) = match (&self.bullish_candidate, &self.bearish_candidate) {
            (Some(b), None) => (Some(TrendDirection::Bullish), b.consecutive_ticks),
            (None, Some(b)) => (Some(TrendDirection::Bearish), b.consecutive_ticks),
            (Some(b), Some(r)) => {
                if b.consecutive_ticks >= r.consecutive_ticks {
                    (Some(TrendDirection::Bullish), b.consecutive_ticks)
                } else {
                    (Some(TrendDirection::Bearish), r.consecutive_ticks)
                }
            },
            (None, None) => (None, 0),
        };
        ConvictionSnapshot {
            active: self.active,
            queued: self.queue.len(),
            building_bullish,
            building_bearish,
            building,
            building_ticks,
        }
    }

    /// Counts a confirming tick.
    fn count(&mut self, direction: TrendDirection, confidence: Double, tally: Tally, now_ms: u64)
        requires
            old(self)@.wf(),
            !(direction is Sideways),
        ensures
            final(self)@ == old(self)@.counted(direction, confidence, tally, now_ms),
    {
        let candidate = match self.candidate(direction) {
            Some(c) => Candidate {
                direction: c.direction,
                consecutive_ticks: c.consecutive_ticks + 1,
                cumulative_confidence: tally.cumulative,
                first_seen_ms: c.first_seen_ms,
                last_seen_ms: now_ms,
            },
            None => Candidate {
                direction,
                consecutive_ticks: 1,
                cumulative_confidence: confidence,
                first_seen_ms: now_ms,
                last_seen_ms: now_ms,
            },
        };
        self.bullish_candidate = None;
        self.bearish_candidate = None;
        if candidate.consecutive_ticks < TICKS_REQUIRED {
            if direction == TrendDirection::Bullish {
                self.bullish_candidate = Some(candidate);
            } else {
                self.bearish_candidate = Some(candidate);
            }
            return;
        }
        self.try_promote(direction, tally.mean, now_ms);
    }

    /// Puts a ready candidate into the queue, unless the active signal has its direction or
    /// the queue holds a better entry of it.
    fn try_promote(&mut self, direction: TrendDirection, mean: Double, now_ms: u64)
        requires
            old(self)@.queue.len() <= 1,
        ensures
            final(self)@ == (if old(self)@.active is Some && old(self)@.active->0.direction
                == direction {
                old(self)@
            } else {
                old(self)@.enqueued(
                    QueuedEntry { direction, mean_confidence: mean, queued_at_ms: now_ms },
                )
            }),
    {
        if let Some(active) = &self.active {
            if active.direction == direction {
                return;
            }
        }
        let entry = QueuedEntry { direction, mean_confidence: mean, queued_at_ms: now_ms };
        let ghost before = self.queue@;
        let ghost keep = |e: QueuedEntry| e.direction != entry.direction;
        proof {
            lemma_filter_short(before, keep);
        }
        if self.queue.len() == 1 && self.queue[0].direction == direction {
            if mean.le(self.queue[0].mean_confidence) {
                return;
            }
            self.queue.clear();
        }
        self.queue.push(entry);
        assert(self.queue@ =~= before.filter(keep).push(entry));
    }

    /// Counts a tick for or against the active signal.
    fn update_exit_counter(&mut self, incoming: TrendDirection, confidence: Double, now_ms: u64)
        requires
            old(self)@.exit_counter < EXIT_TICKS_REQUIRED,
        ensures
            final(self)@ == old(self)@.exit_counted(incoming, confidence, now_ms),
    {
        let active_direction = match &self.active {
            Some(a) => a.direction,
            None => return,
        };
        if active_direction.is_opposite(incoming) && Double::from_bits(
            EXIT_CONFIDENCE_THRESHOLD_BITS,
        ).le(confidence) {
            self.exit_counter = self.exit_counter + 1;
            if self.exit_counter >= EXIT_TICKS_REQUIRED {
                self.evict_active(now_ms);
            }
        } else {
            self.exit_counter = 0;
        }
    }

    /// Ends the active signal and fills the slot again.
    fn evict_active(&mut self, now_ms: u64)
        ensures
            final(self)@ == old(self)@.evicted(now_ms),
    {
        self.active = None;
        self.exit_counter = 0;
        self.fill_from_queue(now_ms);
    }

    /// Ends the active signal where it has been held for too long, and fills an empty slot.
    fn check_max_hold(&mut self, now_ms: u64)
        ensures
            final(self)@ == old(self)@.aged(now_ms),
    {
        let expired = match &self.active {
            Some(a) => minus_or_zero(now_ms, a.activated_at_ms) > MAX_HOLD_MS,
            None => false,
        };
        if expired {
            self.evict_active(now_ms);
        } else {
            self.fill_from_queue(now_ms);
        }
    }

    /// Drops the entries that have waited for too long.
    fn expire_queue(&mut self, now_ms: u64)
        ensures
            final(self)@ == old(self)@.expired(now_ms),
    {
        let ghost keep = |e: QueuedEntry| fresh(e, now_ms);
        let mut kept: Vec<QueuedEntry> = Vec::new();
        let mut i: usize = 0;
        proof {
            reveal(Seq::filter);
        }
        while i < self.queue.len()
            invariant
                i <= self.queue.len(),
                self@ == old(self)@,
                keep == (|e: QueuedEntry| fresh(e, now_ms)),
                kept@ == self.queue@.take(i as int).filter(keep),
            decreases self.queue.len() - i,
        {
            let entry = self.queue[i];
            proof {
                reveal(Seq::filter);
                assert(self.queue@.take(i + 1).drop_last() =~= self.queue@.take(i as int));
                assert(self.queue@.take(i + 1).last() == entry);
            }
            if minus_or_zero(now_ms, entry.queued_at_ms) <= CANDIDATE_EXPIRY_MS {
                kept.push(entry);
            }
            i = i + 1;
        }
        assert(self.queue@.take(i as int) =~= self.queue@);
        self.queue = kept;
    }

    /// Fills the active slot from what is fresh in the queue, where it is empty.
    fn fill_from_queue(&mut self, now_ms: u64)
        ensures
            final(self)@ == old(self)@.filled(now_ms),
    {
        self.expire_queue(now_ms);
        if self.active.is_some() || self.queue.len() == 0 {
            return;
        }
        let best: usize = if self.queue.len() == 2 && self.queue[0].mean_confidence.lt(
            self.queue[1].mean_confidence,
        ) {
            1
        } else {
            0
        };
        let entry = self.queue.remove(best);
        self.active = Some(
            ActiveSignal {
                direction: entry.direction,
                mean_confidence: entry.mean_confidence,
                activated_at_ms: now_ms,
            },
        );
        self.exit_counter = 0;
    }
}

impl Default for ConvictionTracker {
    fn default() -> (r: Self)
        ensures
            r@ == TrackerView::initial(),
    {
        ConvictionTracker::new()
    }
}

/// A test applied to a list of at most one entry.
proof fn lemma_filter_short(queue: Seq<QueuedEntry>, keep: spec_fn(QueuedEntry) -> bool)
    requires
        queue.len() <= 1,
    ensures
        queue.len() == 1 && keep(queue[0]) ==> queue.filter(keep) == queue,
        queue.len() == 0 || !keep(queue[0]) ==> queue.filter(keep) == Seq::<QueuedEntry>::empty(),
{
    reveal(Seq::filter);
    if queue.len() == 1 {
        assert(queue.drop_last() =~= Seq::empty());
        assert(queue.drop_last().filter(keep) =~= Seq::empty());
        assert(queue =~= Seq::empty().push(queue[0]));
    } else {
        assert(queue =~= Seq::empty());
    }
}

impl TrackerView {
    /// [`TrackerView::wf`] but for an entry that may be queued while nothing is active.
    spec fn nearly_wf(self) -> bool {
        &&& self.bullish matches Some(c) ==> c.direction is Bullish && 1 <= c.consecutive_ticks
            < TICKS_REQUIRED
        &&& self.bearish matches Some(c) ==> c.direction is Bearish && 1 <= c.consecutive_ticks
            < TICKS_REQUIRED
        &&& self.bullish is None || self.bearish is None
        &&& self.queue.len() <= 1
        &&& self.queue.len() == 1 ==> !(self.queue[0].direction is Sideways)
        &&& self.queue.len() == 1 && self.active is Some ==> self.queue[0].direction.opposes(
            self.active->0.direction,
        )
        &&& self.active matches Some(a) ==> !(a.direction is Sideways)
        &&& self.exit_counter < EXIT_TICKS_REQUIRED
        &&& self.active is None ==> self.exit_counter == 0
    }
}

/// Filling the slot leaves no entry without an active signal in front of it.
proof fn lemma_filled(t: TrackerView, now_ms: u64)
    requires
        t.nearly_wf(),
    ensures
        t.filled(now_ms).wf(),
        all_fresh(t.filled(now_ms), now_ms),
{
    lemma_filter_short(t.queue, |e: QueuedEntry| fresh(e, now_ms));
}

/// Dropping what is too old leaves the tracker well-formed.
proof fn lemma_aged(t: TrackerView, now_ms: u64)
    requires
        t.nearly_wf(),
    ensures
        t.aged(now_ms).wf(),
        all_fresh(t.aged(now_ms), now_ms),
{
    lemma_filled(t, now_ms);
    lemma_filled(TrackerView { active: None, exit_counter: 0, ..t }, now_ms);
}

/// The tracker after a tick, but for what has grown too old by then.
spec fn before_aging(
    t: TrackerView,
    direction: TrendDirection,
    confidence: Double,
    tally: Tally,
    now_ms: u64,
) -> TrackerView {
    let t = t.expired(now_ms);
    if direction is Sideways {
        TrackerView { exit_counter: 0, ..t.with_candidate(direction, None) }
    } else if confirms(confidence) {
        t.counted(direction, confidence, tally, now_ms).exit_counted(direction, confidence, now_ms)
    } else {
        t.with_candidate(direction, None).exit_counted(direction, confidence, now_ms)
    }
}

/// A tick leaves the tracker well-formed, but for an entry that may be queued while nothing is
/// active.
proof fn lemma_before_aging(
    t: TrackerView,
    direction: TrendDirection,
    confidence: Double,
    tally: Tally,
    now_ms: u64,
)
    requires
        t.wf(),
    ensures
        t.expired(now_ms).wf(),
        before_aging(t, direction, confidence, tally, now_ms).nearly_wf(),
        t.pushed(direction, confidence, tally, now_ms) == before_aging(
            t,
            direction,
            confidence,
            tally,
            now_ms,
        ).aged(now_ms),
{
    lemma_filter_short(t.queue, |e: QueuedEntry| fresh(e, now_ms));
    let u = t.expired(now_ms);
    if !(direction is Sideways) {
        let a = if confirms(confidence) {
            u.counted(direction, confidence, tally, now_ms)
        } else {
            u.with_candidate(direction, None)
        };
        lemma_filter_short(u.queue, |e: QueuedEntry| e.direction != direction);
        assert(a.nearly_wf());
        lemma_filled(TrackerView { active: None, exit_counter: 0, ..a }, now_ms);
    }
}

/// Whatever ticks come in, the tracker stays well-formed: one direction is built up at a time,
/// never with eight ticks or more; one entry waits at most, and never one of the active
/// direction; and nothing waits while nothing is active.
pub proof fn law_push_keeps_order(
    t: TrackerView,
    direction: TrendDirection,
    confidence: Double,
    tally: Tally,
    now_ms: u64,
)
    requires
        t.wf(),
    ensures
        t.pushed(direction, confidence, tally, now_ms).wf(),
{
    lemma_before_aging(t, direction, confidence, tally, now_ms);
    lemma_aged(before_aging(t, direction, confidence, tally, now_ms), now_ms);
}

/// Whether no entry of the queue has waited for too long.
pub open spec fn all_fresh(t: TrackerView, now_ms: u64) -> bool {
    forall|i: int| 0 <= i < t.queue.len() ==> fresh(#[trigger] t.queue[i], now_ms)
}

/// Whether an entry can become active with a tick: it is fresh, and it was in the queue before
/// the tick or is the one that the tick itself adds.
pub open spec fn eligible(
    t: TrackerView,
    entry: QueuedEntry,
    direction: TrendDirection,
    tally: Tally,
    now_ms: u64,
) -> bool {
    &&& fresh(entry, now_ms)
    &&& t.queue.contains(entry) || entry == (QueuedEntry {
        direction,
        mean_confidence: tally.mean,
        queued_at_ms: now_ms,
    })
}

/// The signal that an entry becomes.
pub open spec fn signal_of(entry: QueuedEntry, now_ms: u64) -> ActiveSignal {
    ActiveSignal {
        direction: entry.direction,
        mean_confidence: entry.mean_confidence,
        activated_at_ms: now_ms,
    }
}

/// An entry that has waited for too long never becomes active: after a tick a signal that was not
/// active before comes from an entry that is fresh at that time, and so is all that is left in
/// the queue.
pub proof fn law_expired_entry_never_activates(
    t: TrackerView,
    direction: TrendDirection,
    confidence: Double,
    tally: Tally,
    now_ms: u64,
)
    requires
        t.wf(),
    ensures
        ({
            let after = t.pushed(direction, confidence, tally, now_ms);
            &&& all_fresh(after, now_ms)
            &&& after.active is Some && after.active != t.active ==> exists|entry: QueuedEntry|
                #[trigger] eligible(t, entry, direction, tally, now_ms) && after.active == Some(
                    signal_of(entry, now_ms),
                )
        }),
{
    lemma_before_aging(t, direction, confidence, tally, now_ms);
    lemma_aged(before_aging(t, direction, confidence, tally, now_ms), now_ms);
    lemma_filter_short(t.queue, |e: QueuedEntry| fresh(e, now_ms));
    let u = t.expired(now_ms);
    let added = QueuedEntry { direction, mean_confidence: tally.mean, queued_at_ms: now_ms };
    lemma_filter_short(u.queue, |e: QueuedEntry| e.direction != direction);
    let c = u.counted(direction, confidence, tally, now_ms);
    lemma_filter_short(c.queue, |e: QueuedEntry| fresh(e, now_ms));
    if t.queue.len() == 1 {
        assert(t.queue.contains(t.queue[0]));
        assert(eligible(t, t.queue[0], direction, tally, now_ms) == fresh(t.queue[0], now_ms));
    }
    assert(eligible(t, added, direction, tally, now_ms));
    assert(c.queue.len() <= 1);
    let b = before_aging(t, direction, confidence, tally, now_ms);
    lemma_filter_short(b.queue, |e: QueuedEntry| fresh(e, now_ms));
}

/// An active signal is replaced or ended only where it has been held for too long, or by the
/// fifth confident opposing tick in a row.
pub proof fn law_active_signal_is_stable(
    t: TrackerView,
    direction: TrendDirection,
    confidence: Double,
    tally: Tally,
    now_ms: u64,
)
    requires
        t.wf(),
        t.active is Some,
        t.pushed(direction, confidence, tally, now_ms).active != t.active,
    ensures
        outlived(t.active->0, now_ms) || (t.active->0.direction.opposes(direction) && counters(
            confidence,
        ) && t.exit_counter == EXIT_TICKS_REQUIRED - 1),
{
}

/// Where nothing is active, a signal becomes so only by the last tick that a candidate needs,
/// and then at once, with that candidate's direction and mean.
pub proof fn law_activation_needs_evidence(
    t: TrackerView,
    direction: TrendDirection,
    confidence: Double,
    tally: Tally,
    now_ms: u64,
)
    requires
        t.wf(),
        t.active is None,
        t.pushed(direction, confidence, tally, now_ms).active is Some,
    ensures
        confirms(confidence),
        t.candidate(direction) is Some,
        t.candidate(direction)->0.consecutive_ticks == TICKS_REQUIRED - 1,
        t.pushed(direction, confidence, tally, now_ms).active == Some(
            ActiveSignal { direction, mean_confidence: tally.mean, activated_at_ms: now_ms },
        ),
{
    lemma_filter_short(t.queue, |e: QueuedEntry| fresh(e, now_ms));
    let u = t.expired(now_ms);
    lemma_filter_short(u.queue, |e: QueuedEntry| e.direction != direction);
    let a = if confirms(confidence) {
        u.counted(direction, confidence, tally, now_ms)
    } else {
        u.with_candidate(direction, None)
    };
    lemma_filter_short(a.queue, |e: QueuedEntry| fresh(e, now_ms));
}

/// The exit counter counts a run: a confident opposing tick takes it one further at most, and
/// every other tick, a sideways one too, takes it back to zero.
pub proof fn law_exit_counter_counts_a_run(
    t: TrackerView,
    direction: TrendDirection,
    confidence: Double,
    tally: Tally,
    now_ms: u64,
)
    requires
        t.wf(),
    ensures
        ({
            let after = t.pushed(direction, confidence, tally, now_ms);
            let opposing = t.active is Some && t.active->0.direction.opposes(direction) && counters(
                confidence,
            );
            &&& opposing ==> after.exit_counter <= t.exit_counter + 1
            &&& !opposing ==> after.exit_counter == 0
        }),
{
}

/// A sideways tick ends what is being built up and leaves the active signal, unless that has
/// been held for too long.
pub proof fn law_sideways_keeps_active(
    t: TrackerView,
    confidence: Double,
    tally: Tally,
    now_ms: u64,
)
    requires
        t.wf(),
        t.active is Some,
        !outlived(t.active->0, now_ms),
    ensures
        ({
            let after = t.pushed(TrendDirection::Sideways, confidence, tally, now_ms);
            after.active == t.active && after.bullish is None && after.bearish is None
        }),
{
}

/// A tick that agrees with the active signal takes back the count against it.
pub proof fn law_agreement_clears_exit_counter(
    t: TrackerView,
    confidence: Double,
    tally: Tally,
    now_ms: u64,
)
    requires
        t.wf(),
        t.active is Some,
        !outlived(t.active->0, now_ms),
    ensures
        t.pushed(t.active->0.direction, confidence, tally, now_ms).exit_counter == 0,
        t.pushed(t.active->0.direction, confidence, tally, now_ms).active == t.active,
{
}

/// A tick as it was pushed: what the model said, what was computed for it, and when.
pub struct PushedTick {
    pub direction: TrendDirection,
    pub confidence: Double,
    pub tally: Tally,
    pub now_ms: u64,
}

impl TrackerView {
    /// The tracker after a list of ticks.
    pub open spec fn pushed_all(self, ticks: Seq<PushedTick>) -> TrackerView
        decreases ticks.len(),
    {
        if ticks.len() == 0 {
            self
        } else {
            let tick = ticks.last();
            self.pushed_all(ticks.drop_last()).pushed(
                tick.direction,
                tick.confidence,
                tick.tally,
                tick.now_ms,
            )
        }
    }
}

/// Whether a tick supports a direction: it has that direction, and a confidence of at least 0.60.
pub open spec fn supports(tick: PushedTick, direction: TrendDirection) -> bool {
    tick.direction == direction && !(direction is Sideways) && !tick.confidence.nan()
        && tick.confidence.rank() >= 0x3fe3_3333_3333_3333
}

/// The number of ticks at the end of a list that all support a direction, one after the other.
pub open spec fn run(ticks: Seq<PushedTick>, direction: TrendDirection) -> nat
    decreases ticks.len(),
{
    if ticks.len() == 0 || !supports(ticks.last(), direction) {
        0
    } else {
        1 + run(ticks.drop_last(), direction)
    }
}

/// Only ticks that follow each other build a candidate up: a tick without enough confidence, or a
/// sideways one, leaves no candidate at all; any other leaves none of the opposite direction, and
/// takes the candidate of its own direction one further, from nothing to one, and from seven to
/// nothing again.
pub proof fn law_weak_tick_ends_the_run(
    t: TrackerView,
    direction: TrendDirection,
    confidence: Double,
    tally: Tally,
    now_ms: u64,
)
    requires
        t.wf(),
    ensures
        ({
            let after = t.pushed(direction, confidence, tally, now_ms);
            let strong = !confidence.nan() && confidence.rank() >= 0x3fe3_3333_3333_3333;
            let ticks = |c: Option<Candidate>|
                match c {
                    Some(c) => c.consecutive_ticks as int,
                    None => 0int,
                };
            &&& direction is Sideways || !strong ==> after.bullish is None && after.bearish is None
            &&& direction is Bullish ==> after.bearish is None
            &&& direction is Bearish ==> after.bullish is None
            &&& direction is Bullish && strong ==> ticks(after.bullish) == (ticks(t.bullish) + 1) % 8
            &&& direction is Bearish && strong ==> ticks(after.bearish) == (ticks(t.bearish) + 1) % 8
            &&& direction is Bullish && strong && after.bullish is Some && t.bullish is Some
                ==> after.bullish->0.cumulative_confidence == tally.cumulative
                && after.bullish->0.first_seen_ms == t.bullish->0.first_seen_ms
            &&& direction is Bullish && strong && t.bullish is None
                ==> after.bullish->0.cumulative_confidence == confidence
                && after.bullish->0.first_seen_ms == now_ms
            &&& direction is Bearish && strong && after.bearish is Some && t.bearish is Some
                ==> after.bearish->0.cumulative_confidence == tally.cumulative
                && after.bearish->0.first_seen_ms == t.bearish->0.first_seen_ms
            &&& direction is Bearish && strong && t.bearish is None
                ==> after.bearish->0.cumulative_confidence == confidence
                && after.bearish->0.first_seen_ms == now_ms
            &&& direction is Bullish && after.bullish is Some ==> after.bullish->0.last_seen_ms
                == now_ms
            &&& direction is Bearish && after.bearish is Some ==> after.bearish->0.last_seen_ms
                == now_ms
        }),
{
}

/// What is built up is the run of ticks that follow each other: after any ticks the candidate of a
/// direction has as many ticks as have supported the direction without a break, where every eighth
/// one starts the count again.
pub proof fn law_candidate_counts_its_run(ticks: Seq<PushedTick>)
    ensures
        ({
            let t = TrackerView::initial().pushed_all(ticks);
            let up = run(ticks, TrendDirection::Bullish) % 8;
            let down = run(ticks, TrendDirection::Bearish) % 8;
            &&& t.wf()
            &&& t.bullish is Some <==> up != 0
            &&& t.bullish is Some ==> t.bullish->0.consecutive_ticks == up
            &&& t.bearish is Some <==> down != 0
            &&& t.bearish is Some ==> t.bearish->0.consecutive_ticks == down
            &&& shown(t).building_bullish == (if up != 0 { Some(up as u32) } else { None })
            &&& shown(t).building_bearish == (if down != 0 { Some(down as u32) } else { None })
        }),
    decreases ticks.len(),
{
    if ticks.len() > 0 {
        let rest = ticks.drop_last();
        let tick = ticks.last();
        let before = TrackerView::initial().pushed_all(rest);
        let after = TrackerView::initial().pushed_all(ticks);
        law_candidate_counts_its_run(rest);
        lemma_pushed_one_more(TrackerView::initial(), ticks);
        law_push_keeps_order(before, tick.direction, tick.confidence, tick.tally, tick.now_ms);
        law_weak_tick_ends_the_run(
            before,
            tick.direction,
            tick.confidence,
            tick.tally,
            tick.now_ms,
        );
        lemma_count_of_one_more(before, after, ticks);
    }
}

/// After a list of ticks the tracker is the one after all but the last, with that pushed.
proof fn lemma_pushed_one_more(t: TrackerView, ticks: Seq<PushedTick>)
    requires
        ticks.len() > 0,
    ensures
        ({
            let tick = ticks.last();
            t.pushed_all(ticks) == t.pushed_all(ticks.drop_last()).pushed(
                tick.direction,
                tick.confidence,
                tick.tally,
                tick.now_ms,
            )
        }),
{
}

/// The ticks of a candidate; none are zero.
spec fn count_of(c: Option<Candidate>) -> int {
    match c {
        Some(c) => c.consecutive_ticks as int,
        None => 0int,
    }
}

/// Where the counts are those of the runs before a tick, they are so after it.
proof fn lemma_count_of_one_more(before: TrackerView, after: TrackerView, ticks: Seq<PushedTick>)
    requires
        ticks.len() > 0,
        after.wf(),
        count_of(before.bullish) == run(ticks.drop_last(), TrendDirection::Bullish) % 8,
        count_of(before.bearish) == run(ticks.drop_last(), TrendDirection::Bearish) % 8,
        ({
            let d = ticks.last().direction;
            let strong = !ticks.last().confidence.nan() && ticks.last().confidence.rank()
                >= 0x3fe3_3333_3333_3333;
            &&& d is Sideways || !strong ==> after.bullish is None && after.bearish is None
            &&& d is Bullish ==> after.bearish is None
            &&& d is Bearish ==> after.bullish is None
            &&& d is Bullish && strong ==> count_of(after.bullish) == (count_of(before.bullish) + 1)
                % 8
            &&& d is Bearish && strong ==> count_of(after.bearish) == (count_of(before.bearish) + 1)
                % 8
        }),
    ensures
        count_of(after.bullish) == run(ticks, TrendDirection::Bullish) % 8,
        count_of(after.bearish) == run(ticks, TrendDirection::Bearish) % 8,
        after.bullish is Some <==> count_of(after.bullish) != 0,
        after.bearish is Some <==> count_of(after.bearish) != 0,
{
    let rest = ticks.drop_last();
    assert(run(ticks, TrendDirection::Bullish) == 0 || run(ticks, TrendDirection::Bullish) == 1
        + run(rest, TrendDirection::Bullish));
    assert(run(ticks, TrendDirection::Bearish) == 0 || run(ticks, TrendDirection::Bearish) == 1
        + run(rest, TrendDirection::Bearish));
}

/// Whether the `n`-th tick completed eight ticks in a row that support a direction, with a mean
/// confidence.
pub open spec fn earned(
    ticks: Seq<PushedTick>,
    n: int,
    direction: TrendDirection,
    mean: Double,
) -> bool {
    &&& 8 <= n <= ticks.len()
    &&& ticks[n - 1].tally.mean == mean
    &&& forall|i: int| n - 8 <= i < n ==> supports(#[trigger] ticks[i], direction)
}

/// A run ends with as many ticks in a row as it is long.
proof fn lemma_run_is_of_ticks(ticks: Seq<PushedTick>, direction: TrendDirection)
    ensures
        run(ticks, direction) <= ticks.len(),
        forall|i: int|
            ticks.len() - run(ticks, direction) <= i < ticks.len() ==> supports(
                #[trigger] ticks[i],
                direction,
            ),
    decreases ticks.len(),
{
    if ticks.len() > 0 && supports(ticks.last(), direction) {
        let rest = ticks.drop_last();
        lemma_run_is_of_ticks(rest, direction);
        assert forall|i: int| ticks.len() - run(ticks, direction) <= i < ticks.len() implies supports(
            #[trigger] ticks[i],
            direction,
        ) by {
            if i < rest.len() {
                assert(rest[i] == ticks[i]);
            }
        }
    }
}

/// What is in the queue or active after a tick was so before, or is made of the candidate that the
/// tick completed.
proof fn lemma_where_signals_come_from(
    t: TrackerView,
    direction: TrendDirection,
    confidence: Double,
    tally: Tally,
    now_ms: u64,
)
    requires
        t.wf(),
    ensures
        ({
            let after = t.pushed(direction, confidence, tally, now_ms);
            let ready = confirms(confidence) && t.candidate(direction) is Some && t.candidate(
                direction,
            )->0.consecutive_ticks == TICKS_REQUIRED - 1;
            let added = QueuedEntry { direction, mean_confidence: tally.mean, queued_at_ms: now_ms };
            &&& after.queue.len() == 1 ==> (t.queue.len() == 1 && after.queue[0] == t.queue[0]) || (
            ready && after.queue[0] == added)
            &&& after.active is Some ==> after.active == t.active || (t.queue.len() == 1
                && after.active == Some(signal_of(t.queue[0], now_ms))) || (ready && after.active
                == Some(signal_of(added, now_ms)))
        }),
{
    lemma_filter_short(t.queue, |e: QueuedEntry| fresh(e, now_ms));
    let u = t.expired(now_ms);
    lemma_filter_short(u.queue, |e: QueuedEntry| e.direction != direction);
    let c = u.counted(direction, confidence, tally, now_ms);
    lemma_filter_short(c.queue, |e: QueuedEntry| fresh(e, now_ms));
    lemma_before_aging(t, direction, confidence, tally, now_ms);
    let b = before_aging(t, direction, confidence, tally, now_ms);
    lemma_filter_short(b.queue, |e: QueuedEntry| fresh(e, now_ms));
}

/// No signal without eight ticks in a row: whatever ticks came, the active signal, and the entry
/// that waits behind it, each stand for eight ticks that followed each other, all with its
/// direction and enough confidence, and carry the mean of that time.
pub proof fn law_signal_stands_for_eight_ticks_in_a_row(ticks: Seq<PushedTick>)
    ensures
        ({
            let t = TrackerView::initial().pushed_all(ticks);
            &&& t.active matches Some(a) ==> exists|n: int| #[trigger]
                earned(ticks, n, a.direction, a.mean_confidence)
            &&& t.queue.len() == 1 ==> exists|n: int| #[trigger]
                earned(ticks, n, t.queue[0].direction, t.queue[0].mean_confidence)
        }),
    decreases ticks.len(),
{
    if ticks.len() > 0 {
        let rest = ticks.drop_last();
        let tick = ticks.last();
        let before = TrackerView::initial().pushed_all(rest);
        let after = TrackerView::initial().pushed_all(ticks);
        law_signal_stands_for_eight_ticks_in_a_row(rest);
        law_candidate_counts_its_run(rest);
        lemma_pushed_one_more(TrackerView::initial(), ticks);
        lemma_where_signals_come_from(
            before,
            tick.direction,
            tick.confidence,
            tick.tally,
            tick.now_ms,
        );
        let ready = confirms(tick.confidence) && before.candidate(tick.direction) is Some
            && before.candidate(tick.direction)->0.consecutive_ticks == TICKS_REQUIRED - 1;
        if ready {
            assert(supports(tick, tick.direction));
            assert(run(rest, tick.direction) >= 7);
            lemma_run_is_of_ticks(ticks, tick.direction);
        }
        lemma_earned_by_one_more(before, after, ticks, ready);
    }
}

/// Where every signal is earned before a tick, it is so after it.
proof fn lemma_earned_by_one_more(
    before: TrackerView,
    after: TrackerView,
    ticks: Seq<PushedTick>,
    ready: bool,
)
    requires
        ticks.len() > 0,
        before.active matches Some(a) ==> exists|n: int| #[trigger]
            earned(ticks.drop_last(), n, a.direction, a.mean_confidence),
        before.queue.len() == 1 ==> exists|n: int| #[trigger]
            earned(
                ticks.drop_last(),
                n,
                before.queue[0].direction,
                before.queue[0].mean_confidence,
            ),
        ready ==> run(ticks, ticks.last().direction) >= 8 && run(ticks, ticks.last().direction)
            <= ticks.len() && forall|i: int|
            ticks.len() - run(ticks, ticks.last().direction) <= i < ticks.len() ==> supports(
                #[trigger] ticks[i],
                ticks.last().direction,
            ),
        ({
            let tick = ticks.last();
            let added = QueuedEntry {
                direction: tick.direction,
                mean_confidence: tick.tally.mean,
                queued_at_ms: tick.now_ms,
            };
            &&& after.queue.len() == 1 ==> (before.queue.len() == 1 && after.queue[0]
                == before.queue[0]) || (ready && after.queue[0] == added)
            &&& after.active is Some ==> after.active == before.active || (before.queue.len() == 1
                && after.active == Some(signal_of(before.queue[0], tick.now_ms))) || (ready
                && after.active == Some(signal_of(added, tick.now_ms)))
        }),
    ensures
        after.active matches Some(a) ==> exists|n: int| #[trigger]
            earned(ticks, n, a.direction, a.mean_confidence),
        after.queue.len() == 1 ==> exists|n: int| #[trigger]
            earned(ticks, n, after.queue[0].direction, after.queue[0].mean_confidence),
{
    let rest = ticks.drop_last();
    let tick = ticks.last();
    assert forall|n: int, d: TrendDirection, m: Double| #[trigger] earned(rest, n, d, m) implies earned(
        ticks,
        n,
        d,
        m,
    ) by {
        assert(rest[n - 1] == ticks[n - 1]);
        assert forall|i: int| n - 8 <= i < n implies supports(#[trigger] ticks[i], d) by {
            assert(rest[i] == ticks[i]);
        }
    }
    if ready {
        assert(earned(ticks, ticks.len() as int, tick.direction, tick.tally.mean));
    }
    if before.active is Some {
        let a = before.active->0;
        let n = choose|n: int| #[trigger] earned(rest, n, a.direction, a.mean_confidence);
        assert(earned(ticks, n, a.direction, a.mean_confidence));
    }
    if before.queue.len() == 1 {
        let q = before.queue[0];
        let n = choose|n: int| #[trigger] earned(rest, n, q.direction, q.mean_confidence);
        assert(earned(ticks, n, q.direction, q.mean_confidence));
    }
    if after.active is Some {
        let a = after.active->0;
        if after.active != before.active {
            if ready && a.direction == tick.direction && a.mean_confidence == tick.tally.mean {
                assert(earned(ticks, ticks.len() as int, a.direction, a.mean_confidence));
            } else {
                let q = before.queue[0];
                let n = choose|n: int| #[trigger] earned(rest, n, q.direction, q.mean_confidence);
                assert(earned(ticks, n, a.direction, a.mean_confidence));
            }
        }
    }
}

/// Eight ticks in a row are enough: the eighth one makes its direction the active signal at once
/// where there is none, and where the opposite direction is active, an entry of its direction with
/// a mean that is not below its own is active or waits behind it afterwards.
pub proof fn law_eighth_tick_in_a_row_counts(ticks: Seq<PushedTick>)
    requires
        ticks.len() > 0,
        run(ticks, ticks.last().direction) > 0,
        run(ticks, ticks.last().direction) % 8 == 0,
    ensures
        ({
            let tick = ticks.last();
            let before = TrackerView::initial().pushed_all(ticks.drop_last());
            let after = TrackerView::initial().pushed_all(ticks);
            let signal = ActiveSignal {
                direction: tick.direction,
                mean_confidence: tick.tally.mean,
                activated_at_ms: tick.now_ms,
            };
            &&& before.active is None ==> after.active == Some(signal)
            &&& before.active is Some && before.active->0.direction.opposes(tick.direction) ==> {
                ||| after.active is Some && after.active->0.direction == tick.direction
                    && !after.active->0.mean_confidence.below(tick.tally.mean)
                ||| after.queue.len() == 1 && after.queue[0].direction == tick.direction
                    && !after.queue[0].mean_confidence.below(tick.tally.mean)
            }
        }),
{
    let rest = ticks.drop_last();
    let tick = ticks.last();
    let t = TrackerView::initial().pushed_all(rest);
    law_candidate_counts_its_run(rest);
    lemma_pushed_one_more(TrackerView::initial(), ticks);
    assert(supports(tick, tick.direction));
    assert(run(ticks, tick.direction) == 1 + run(rest, tick.direction));
    assert(run(rest, tick.direction) % 8 == 7);
    if t.active is None || t.active->0.direction != tick.direction {
        lemma_completed_candidate(t, tick.direction, tick.confidence, tick.tally, tick.now_ms);
    }
}

/// A tick that completes a candidate makes it active, or leaves an entry that is at least as good.
proof fn lemma_completed_candidate(
    t: TrackerView,
    direction: TrendDirection,
    confidence: Double,
    tally: Tally,
    now_ms: u64,
)
    requires
        t.wf(),
        !(direction is Sideways),
        confirms(confidence),
        t.candidate(direction) is Some,
        t.candidate(direction)->0.consecutive_ticks == 7,
        t.active is None || t.active->0.direction != direction,
    ensures
        ({
            let after = t.pushed(direction, confidence, tally, now_ms);
            let added = QueuedEntry { direction, mean_confidence: tally.mean, queued_at_ms: now_ms };
            &&& t.active is None ==> after.active == Some(signal_of(added, now_ms))
            &&& t.active is Some ==> {
                ||| after.active is Some && after.active->0.direction == direction
                    && !after.active->0.mean_confidence.below(tally.mean)
                ||| after.queue.len() == 1 && after.queue[0].direction == direction
                    && !after.queue[0].mean_confidence.below(tally.mean)
            }
        }),
{
    let keep = |e: QueuedEntry| fresh(e, now_ms);
    lemma_filter_short(t.queue, keep);
    let u = t.expired(now_ms);
    lemma_filter_short(u.queue, |e: QueuedEntry| e.direction != direction);
    let c = u.counted(direction, confidence, tally, now_ms);
    assert(c.queue.len() == 1);
    lemma_filter_short(c.queue, keep);
    lemma_before_aging(t, direction, confidence, tally, now_ms);
    let b = before_aging(t, direction, confidence, tally, now_ms);
    assert(b.queue.len() <= 1);
    lemma_filter_short(b.queue, keep);
}

/// The active signal stays until it is ended, and is ended when it has to be: while it is at most
/// four minutes old, an opposing tick with a confidence of at least 0.65 takes the count against it
/// one further, the fifth in a row ends it, and every other tick leaves it and takes the count back
/// to zero. From then on it is ended by any tick. What follows it at once has the opposite
/// direction.
pub proof fn law_signal_ends_after_five_opposing_ticks_or_four_minutes(
    t: TrackerView,
    direction: TrendDirection,
    confidence: Double,
    tally: Tally,
    now_ms: u64,
)
    requires
        t.wf(),
        t.active is Some,
    ensures
        ({
            let a = t.active->0;
            let after = t.pushed(direction, confidence, tally, now_ms);
            let old = now_ms - a.activated_at_ms > 240_000;
            let opposing = a.direction.opposes(direction) && !confidence.nan() && confidence.rank()
                >= 0x3fe4_cccc_cccc_cccd;
            let ended = after.active is None || (after.active->0.direction.opposes(a.direction)
                && after.active->0.activated_at_ms == now_ms);
            &&& !old && opposing && t.exit_counter < 4 ==> after.active == t.active
                && after.exit_counter == t.exit_counter + 1
            &&& !old && opposing && t.exit_counter == 4 ==> ended && after.exit_counter == 0
            &&& !old && !opposing ==> after.active == t.active && after.exit_counter == 0
            &&& old ==> ended && after.exit_counter == 0
        }),
{
    lemma_filter_short(t.queue, |e: QueuedEntry| fresh(e, now_ms));
    let u = t.expired(now_ms);
    lemma_filter_short(u.queue, |e: QueuedEntry| e.direction != direction);
    let c = if direction is Sideways || !confirms(confidence) {
        u.with_candidate(direction, None)
    } else {
        u.counted(direction, confidence, tally, now_ms)
    };
    lemma_filter_short(c.queue, |e: QueuedEntry| fresh(e, now_ms));
    lemma_before_aging(t, direction, confidence, tally, now_ms);
    let b = before_aging(t, direction, confidence, tally, now_ms);
    lemma_filter_short(b.queue, |e: QueuedEntry| fresh(e, now_ms));
}

/// An entry that waits is kept for four minutes, unless a better one of its direction comes: where
/// the active signal stays and the tick completes no candidate, exactly the entries that have
/// waited for at most four minutes still wait.
pub proof fn law_entry_waits_four_minutes(
    t: TrackerView,
    direction: TrendDirection,
    confidence: Double,
    tally: Tally,
    now_ms: u64,
)
    requires
        t.wf(),
        t.queue.len() == 1,
        t.pushed(direction, confidence, tally, now_ms).active == t.active,
        t.candidate(direction) is None || t.candidate(direction)->0.consecutive_ticks < 7,
    ensures
        t.pushed(direction, confidence, tally, now_ms).queue == (if now_ms - t.queue[0].queued_at_ms
            <= 240_000 {
            t.queue
        } else {
            Seq::empty()
        }),
{
    lemma_filter_short(t.queue, |e: QueuedEntry| fresh(e, now_ms));
    let u = t.expired(now_ms);
    lemma_filter_short(u.queue, |e: QueuedEntry| fresh(e, now_ms));
    lemma_filter_short(Seq::<QueuedEntry>::empty(), |e: QueuedEntry| fresh(e, now_ms));
    lemma_before_aging(t, direction, confidence, tally, now_ms);
}

/// A snapshot shows what is there: the active signal, the number of entries behind it, and the
/// ticks of what is built up, under its direction.
pub proof fn law_snapshot_shows_the_tracker(t: TrackerView)
    requires
        t.wf(),
    ensures
        ({
            let s = shown(t);
            &&& s.active == t.active
            &&& s.queued == t.queue.len()
            &&& s.building is None <==> t.bullish is None && t.bearish is None
            &&& s.building is None ==> s.building_ticks == 0
            &&& t.bullish is Some ==> s.building == Some(TrendDirection::Bullish)
                && s.building_ticks == t.bullish->0.consecutive_ticks && s.building_bullish == Some(
                t.bullish->0.consecutive_ticks,
            ) && s.building_bearish is None
            &&& t.bearish is Some ==> s.building == Some(TrendDirection::Bearish)
                && s.building_ticks == t.bearish->0.consecutive_ticks && s.building_bearish == Some(
                t.bearish->0.consecutive_ticks,
            ) && s.building_bullish is None
        }),
{
}

/// A run that is complete goes into the queue, in place of an earlier one of its direction, unless
/// that one is at least as strong: then the earlier one stays. Runs of the other direction are not
/// touched.
pub proof fn law_stronger_run_replaces_the_weaker(t: TrackerView, entry: QueuedEntry, other: QueuedEntry)
    requires
        other.direction != entry.direction,
    ensures
        ({
            let after = t.enqueued(entry).queue;
            let as_strong = |e: QueuedEntry|
                e.direction == entry.direction && !e.mean_confidence.nan()
                    && !entry.mean_confidence.nan() && e.mean_confidence.rank()
                    >= entry.mean_confidence.rank();
            let stays = exists|i: int| 0 <= i < t.queue.len() && as_strong(#[trigger] t.queue[i]);
            &&& stays ==> after == t.queue
            &&& !stays ==> after.len() > 0 && after.last() == entry && forall|i: int|
                0 <= i < after.len() - 1 ==> (#[trigger] after[i]).direction != entry.direction
            &&& after.contains(other) <==> t.queue.contains(other)
        }),
{
    let same = |e: QueuedEntry| e.direction == entry.direction;
    let keep = |e: QueuedEntry| e.direction != entry.direction;
    let rest = t.queue.filter(keep);
    let after = t.enqueued(entry).queue;
    crate::listing::lemma_filter_members(t.queue, keep);
    let as_strong = |e: QueuedEntry|
        e.direction == entry.direction && !e.mean_confidence.nan() && !entry.mean_confidence.nan()
            && e.mean_confidence.rank() >= entry.mean_confidence.rank();
    if exists|i: int| 0 <= i < t.queue.len() && as_strong(#[trigger] t.queue[i]) {
        let i = choose|i: int| 0 <= i < t.queue.len() && as_strong(#[trigger] t.queue[i]);
        assert(same(t.queue[i]) && entry.mean_confidence.at_most(t.queue[i].mean_confidence));
    } else {
        if exists|i: int|
            0 <= i < t.queue.len() && same(#[trigger] t.queue[i]) && entry.mean_confidence.at_most(
                t.queue[i].mean_confidence,
            ) {
            let i = choose|i: int|
                0 <= i < t.queue.len() && same(#[trigger] t.queue[i])
                    && entry.mean_confidence.at_most(t.queue[i].mean_confidence);
            assert(as_strong(t.queue[i]));
        }
        assert(after == rest.push(entry));
        assert forall|i: int| 0 <= i < after.len() - 1 implies (#[trigger] after[i]).direction
            != entry.direction by {
            assert(after[i] == rest[i]);
            assert(rest.contains(rest[i]));
        }
        if rest.contains(other) {
            let k = choose|k: int| 0 <= k < rest.len() && rest[k] == other;
            assert(after[k] == other);
        }
        if after.contains(other) {
            let k = choose|k: int| 0 <= k < after.len() && after[k] == other;
            assert(rest[k] == other);
        }
    }
}

/// Of two entries in the queue the stronger one comes next, and of two that are as strong the first.
pub proof fn law_strongest_entry_comes_next(t: TrackerView)
    requires
        1 <= t.queue.len() <= 2,
        forall|i: int| 0 <= i < t.queue.len() ==> !(#[trigger] t.queue[i]).mean_confidence.nan(),
    ensures
        0 <= t.best() < t.queue.len(),
        forall|i: int|
            0 <= i < t.queue.len() ==> (#[trigger] t.queue[i]).mean_confidence.rank()
                <= t.queue[t.best()].mean_confidence.rank(),
        forall|i: int|
            0 <= i < t.best() ==> (#[trigger] t.queue[i]).mean_confidence.rank()
                < t.queue[t.best()].mean_confidence.rank(),
{
}

} // verus!

//! How far the data can be relied on.

use vstd::prelude::*;
use std::time::Instant;
use crate::double::Double;

verus! {

/// A point of the standard library's monotonic clock.
#[verifier::external_type_specification]
#[verifier::external_body]
pub struct ExInstant(std::time::Instant);

/// `Instant::now`. Nothing is claimed of the point in time that it gives.
#[verifier::external_body]
fn instant_now() -> (r: Instant) {
    Instant::now()
}

/// `Instant::elapsed`, in whole milliseconds. Nothing is claimed of the time that has passed.
#[verifier::external_body]
fn elapsed_ms(since: &Instant) -> (r: u64) {
    since.elapsed().as_millis() as u64
}

/// Whether a point in time is one that the clock gave when it was asked for the present.
pub closed spec fn read_as_now(at: Instant) -> bool {
    call_ensures(instant_now, (), at)
}

/// Whether a number of milliseconds is one that the clock gave for the time since a point.
pub closed spec fn read_as_elapsed(since: Instant, ms: u64) -> bool {
    call_ensures(elapsed_ms, (&since,), ms)
}

/// The quality of a snapshot's data.
#[derive(Clone, Copy, Debug, PartialEq, Eq, Structural)]
pub struct DataQuality {
    pub feed_age_ms: u64,
    /// One bit for each field that is missing.
    pub missing_fields: u8,
    /// From zero to one.
    pub confidence: Double,
}

/// The bit of a missing order book.
pub const MISSING_ORDER_BOOK: u8 = 1;

/// The bit of a missing trade side.
pub const MISSING_AGGRESSOR: u8 = 2;

/// The number of bits set.
pub open spec fn bits_set(mask: u8) -> nat
    decreases mask,
{
    if mask == 0 { 0 } else { (mask % 2) as nat + bits_set(mask / 2) }
}

/// The number of fields that a mask marks as missing.
pub fn missing_count(mask: u8) -> (r: u32)
    ensures
        r == bits_set(mask),
        r <= 8,
{
    let mut rest: u8 = mask;
    let mut count: u32 = 0;
    let mut steps: u32 = 0;
    while rest > 0
        invariant
            count + bits_set(rest) == bits_set(mask),
            count <= steps <= 8,
            steps == 0 ==> rest <= 255,
            steps == 1 ==> rest <= 127,
            steps == 2 ==> rest <= 63,
            steps == 3 ==> rest <= 31,
            steps == 4 ==> rest <= 15,
            steps == 5 ==> rest <= 7,
            steps == 6 ==> rest <= 3,
            steps == 7 ==> rest <= 1,
            steps == 8 ==> rest == 0,
        decreases rest,
    {
        count = count + (rest % 2) as u32;
        rest = rest / 2;
        steps = steps + 1;
    }
    count
}

impl DataQuality {
    /// Fresh data with nothing missing.
    pub fn perfect() -> (r: Self)
        ensures
            r == (DataQuality {
                feed_age_ms: 0,
                missing_fields: 0,
                confidence: Double { bits: 0x3ff0_0000_0000_0000 },
            }),
    {
        DataQuality {
            feed_age_ms: 0,
            missing_fields: 0,
            confidence: Double { bits: 0x3ff0_0000_0000_0000 },
        }
    }
}

/// The mask for an order book: its bit is set where either side is empty.
pub fn book_mask(no_bids: bool, no_asks: bool) -> (r: u8)
    ensures
        r == (if no_bids || no_asks { MISSING_ORDER_BOOK } else { 0u8 }),
        r == 1 <==> no_bids || no_asks,
{
    if no_bids || no_asks {
        MISSING_ORDER_BOOK
    } else {
        0
    }
}

/// Keeps track of when data came last.
pub struct FreshnessMonitor {
    last_instant: Option<Instant>,
    missing_fields: u8,
}

/// Whether data of that age is stale; data that never came is.
pub open spec fn stale_at(age_ms: Option<u64>, threshold_ms: u64) -> bool {
    match age_ms {
        Some(age) => age > threshold_ms,
        None => true,
    }
}

/// Whether data of that age is stale; data that never came is.
pub fn is_stale_at(age_ms: Option<u64>, threshold_ms: u64) -> (r: bool)
    ensures
        r == stale_at(age_ms, threshold_ms),
{
    match age_ms {
        Some(age) => age > threshold_ms,
        None => true,
    }
}

impl FreshnessMonitor {
    /// When data came last.
    pub closed spec fn last(&self) -> Option<Instant> {
        self.last_instant
    }

    /// Whether data has come.
    pub open spec fn recorded(&self) -> bool {
        self.last() is Some
    }

    /// Whether the time of the last data is the present, as the clock gave it.
    pub open spec fn recorded_now(&self) -> bool {
        exists|at: Instant| #[trigger] read_as_now(at) && self.last() == Some(at)
    }

    /// Whether an age is that of the last data, as the clock gave it: none where no data came.
    pub open spec fn is_age(&self, age_ms: Option<u64>) -> bool {
        match self.last() {
            Some(at) => age_ms is Some && read_as_elapsed(at, age_ms->0),
            None => age_ms is None,
        }
    }

    /// The mask of missing fields.
    pub closed spec fn missing(&self) -> u8 {
        self.missing_fields
    }

    /// A monitor that has seen no data.
    pub fn new() -> (r: Self)
        ensures
            !r.recorded(),
            r.missing() == 0,
    {
        FreshnessMonitor { last_instant: None, missing_fields: 0 }
    }

    /// Notes that data came at that time.
    pub fn record_at(&mut self, at: Instant)
        ensures
            final(self).last() == Some(at),
            final(self).missing() == old(self).missing(),
    {
        self.last_instant = Some(at);
    }

    /// Notes that data came now.
    pub fn record(&mut self)
        ensures
            final(self).recorded_now(),
            final(self).missing() == old(self).missing(),
    {
        let at = instant_now();
        assert(read_as_now(at));
        self.record_at(at);
    }

    /// Notes which fields are missing.
    pub fn set_missing_fields(&mut self, mask: u8)
        ensures
            final(self).missing() == mask,
            final(self).last() == old(self).last(),
    {
        self.missing_fields = mask;
    }

    /// The mask of missing fields.
    pub fn missing_fields(&self) -> (r: u8)
        ensures
            r == self.missing(),
    {
        self.missing_fields
    }

    /// The milliseconds since data came last; none where it never did. How many they are rests on
    /// the clock.
    pub fn age_ms(&self) -> (r: Option<u64>)
        ensures
            self.is_age(r),
    {
        match &self.last_instant {
            Some(since) => Some(elapsed_ms(since)),
            None => None,
        }
    }

    /// The quality of the data now. `confidence` is what the caller makes of its age and of
    /// the number of missing fields. Data that never came has the largest age.
    pub fn quality(&self, age_ms: Option<u64>, confidence: Double) -> (r: DataQuality)
        ensures
            r == (DataQuality {
                feed_age_ms: match age_ms {
                    Some(age) => age,
                    None => u64::MAX,
                },
                missing_fields: self.missing(),
                confidence,
            }),
    {
        DataQuality {
            feed_age_ms: match age_ms {
                Some(age) => age,
                None => u64::MAX,
            },
            missing_fields: self.missing_fields,
            confidence,
        }
    }

    /// Whether `r` is the verdict on the age of the last data.
    pub open spec fn is_verdict(&self, threshold_ms: u64, r: bool) -> bool {
        exists|age_ms: Option<u64>| #[trigger]
            self.is_age(age_ms) && r == stale_at(age_ms, threshold_ms)
    }

    /// Whether the last data is older than `threshold_ms` milliseconds. It is stale before any
    /// data came, whatever the threshold, and it is never stale once data came where the
    /// threshold is the largest number. Between these the answer is the verdict on the time
    /// that has passed since, of whose length nothing is claimed: it rests on the clock.
    pub fn is_stale(&self, threshold_ms: u64) -> (r: bool)
        ensures
            self.is_verdict(threshold_ms, r),
            !self.recorded() ==> r,
            self.recorded() && threshold_ms == u64::MAX ==> !r,
    {
        let age_ms = self.age_ms();
        is_stale_at(age_ms, threshold_ms)
    }
}

impl Default for FreshnessMonitor {
    fn default() -> (r: Self)
        ensures
            !r.recorded(),
            r.missing() == 0,
    {
        FreshnessMonitor::new()
    }
}

/// Data is stale exactly where it never came or is older than the threshold.
pub proof fn law_stale_is_older_than_the_threshold(age_ms: u64, threshold_ms: u64)
    ensures
        stale_at(None, threshold_ms),
        stale_at(Some(age_ms), threshold_ms) <==> threshold_ms < age_ms,
{
}

/// The two missing fields have bits of their own, so that a mask tells them apart, and the number
/// of bits in a mask is that of the missing fields.
pub proof fn law_missing_fields_have_their_own_bits(mask: u8)
    ensures
        MISSING_ORDER_BOOK == 1,
        MISSING_AGGRESSOR == 2,
        bits_set(0) == 0,
        mask < 128 ==> bits_set((2 * mask) as u8) == bits_set(mask),
        mask < 128 ==> bits_set((2 * mask + 1) as u8) == bits_set(mask) + 1,
{
    if mask < 128 {
        let even = (2 * mask) as u8;
        let odd = (2 * mask + 1) as u8;
        assert(even % 2 == 0 && even / 2 == mask);
        assert(odd % 2 == 1 && odd / 2 == mask);
    }
}

/// The verdict goes by the age of the last data, as the clock gave it: where that is known, it is
/// stale exactly where it is above the threshold, and data that never came is always stale.
pub proof fn law_verdict_goes_by_the_age(m: FreshnessMonitor, threshold_ms: u64, r: bool)
    ensures
        m.last() is None ==> (m.is_verdict(threshold_ms, r) <==> r),
        m.last() is Some && m.is_verdict(threshold_ms, r) ==> exists|age: u64| #[trigger]
            read_as_elapsed(m.last()->0, age) && (r <==> age > threshold_ms),
        m.recorded() <==> m.last() is Some,
        m.recorded_now() ==> m.last() is Some && read_as_now(m.last()->0),
{
    if m.last() is None {
        assert(m.is_age(None));
    }
    if m.last() is Some && m.is_verdict(threshold_ms, r) {
        let age_ms = choose|age_ms: Option<u64>| #[trigger]
            m.is_age(age_ms) && r == stale_at(age_ms, threshold_ms);
        assert(read_as_elapsed(m.last()->0, age_ms->0));
    }
}

} // verus!

//! Everything that is kept for one prediction window and forgotten at its end.
//!
//! The prices of the first three seconds are averaged; that average is the origin that the rest
//! of the window is measured against. The measurements themselves are handed in.

use vstd::prelude::*;
use crate::decimal;
use crate::decimal::{add_decimals, divide_decimals, Dec};
use crate::double::Double;
use crate::prediction::storage;
use crate::prediction::storage::minus_or_zero;

verus! {

/// The milliseconds in which the origin is gathered.
pub const ORIGIN_MS: u64 = 3_000;

/// What is kept of one token.
#[derive(Clone, Copy, Debug, PartialEq, Eq, Structural)]
pub struct TokenTrack {
    pub origin_price: Dec,
    pub last_price: Dec,
    pub last_update_ms: u64,
    pub distance_from_origin_pct: Double,
    pub area: Double,
}

/// The measurements of a token's price.
#[derive(Clone, Copy, Debug, PartialEq, Eq, Structural)]
pub struct TokenReading {
    /// The distance from the origin, as a part of it.
    pub distance: Double,
    /// The area with this distance times the seconds since the last price.
    pub area: Double,
}

/// The measurements of a price of bitcoin.
#[derive(Clone, Copy, Debug, PartialEq, Eq, Structural)]
pub struct BtcReading {
    /// The distance from the origin, as a part of it.
    pub distance: Double,
    /// The area with this distance times the seconds since the last price.
    pub area: Double,
    /// The change since the last price, as a part of it.
    pub tick_return: Double,
    /// The path with the size of this change.
    pub path_length: Double,
    /// This change less the one before it ([`WindowState::btc_current_return`]).
    pub acceleration: Double,
    /// The seconds since the origin was fixed.
    pub elapsed: Double,
    /// The seconds at or above the origin, with those since the last price.
    pub above: Double,
    /// The seconds below the origin, with those since the last price.
    pub below: Double,
}

#[derive(Clone, Copy, Debug, PartialEq, Eq, Structural)]
pub struct WindowState {
    pub btc_origin_price: Dec,
    pub btc_origin_locked: bool,
    /// The prices so far, added up, while the origin is gathered.
    pub btc_origin_sum: Dec,
    /// The number of those prices.
    pub btc_origin_count: u32,
    pub window_started_ms: u64,
    pub btc_last_price: Dec,
    pub btc_last_update_ms: u64,
    pub btc_distance_from_origin_pct: Double,
    pub btc_area: Double,
    pub btc_path_length: Double,
    pub btc_prev_return: Double,
    pub btc_current_return: Double,
    pub btc_acceleration: Double,
    /// The seconds that the price has spent at or above the origin.
    pub btc_above_seconds: Double,
    /// The seconds that it has spent below.
    pub btc_below_seconds: Double,
    /// Of these two, the seconds on the side where the price is now.
    pub btc_same_side_seconds: Double,
    pub btc_elapsed_seconds: Double,
    pub up: TokenTrack,
    pub down: TokenTrack,
}

impl TokenTrack {
    /// A token without a price.
    pub open spec fn blank() -> TokenTrack {
        TokenTrack {
            origin_price: Dec::zero_spec(),
            last_price: Dec::zero_spec(),
            last_update_ms: 0,
            distance_from_origin_pct: Double::zero_spec(),
            area: Double::zero_spec(),
        }
    }

    /// The token after a price. The first one is the origin; a price below zero as the origin
    /// stops everything.
    pub open spec fn after(self, price: Dec, timestamp_ms: u64, reading: TokenReading) -> TokenTrack {
        if self.origin_price.mantissa == 0 {
            TokenTrack {
                origin_price: price,
                last_price: price,
                last_update_ms: timestamp_ms,
                ..self
            }
        } else if self.origin_price.mantissa < 0 {
            self
        } else {
            TokenTrack {
                distance_from_origin_pct: reading.distance,
                area: reading.area,
                last_price: price,
                last_update_ms: timestamp_ms,
                ..self
            }
        }
    }

    fn new() -> (r: Self)
        ensures
            r == TokenTrack::blank(),
    {
        TokenTrack {
            origin_price: Dec { mantissa: 0, scale: 0 },
            last_price: Dec { mantissa: 0, scale: 0 },
            last_update_ms: 0,
            distance_from_origin_pct: Double::zero(),
            area: Double::zero(),
        }
    }

    /// Takes in a price.
    fn ingest(&mut self, price: Dec, timestamp_ms: u64, reading: TokenReading)
        ensures
            *final(self) == old(self).after(price, timestamp_ms, reading),
    {
        if self.origin_price.mantissa == 0 {
            self.origin_price = price;
            self.last_price = price;
            self.last_update_ms = timestamp_ms;
            return;
        }
        if self.origin_price.mantissa < 0 {
            return;
        }
        self.distance_from_origin_pct = reading.distance;
        self.area = reading.area;
        self.last_price = price;
        self.last_update_ms = timestamp_ms;
    }
}

impl WindowState {
    /// The state before the first price of a window.
    pub open spec fn blank(window_started_ms: u64) -> WindowState {
        WindowState {
            btc_origin_price: Dec::zero_spec(),
            btc_origin_locked: false,
            btc_origin_sum: Dec::zero_spec(),
            btc_origin_count: 0,
            window_started_ms,
            btc_last_price: Dec::zero_spec(),
            btc_last_update_ms: 0,
            btc_distance_from_origin_pct: Double::zero_spec(),
            btc_area: Double::zero_spec(),
            btc_path_length: Double::zero_spec(),
            btc_prev_return: Double::zero_spec(),
            btc_current_return: Double::zero_spec(),
            btc_acceleration: Double::zero_spec(),
            btc_above_seconds: Double::zero_spec(),
            btc_below_seconds: Double::zero_spec(),
            btc_same_side_seconds: Double::zero_spec(),
            btc_elapsed_seconds: Double::zero_spec(),
            up: TokenTrack::blank(),
            down: TokenTrack::blank(),
        }
    }

    /// The prices are amounts.
    pub open spec fn wf(self) -> bool {
        self.btc_origin_price.wf() && self.btc_origin_sum.wf() && self.btc_last_price.wf()
    }

    /// Whether a price at that time still goes into the origin.
    pub open spec fn gathering(self, timestamp_ms: u64) -> bool {
        !self.btc_origin_locked && storage::minus(timestamp_ms, self.window_started_ms) <= ORIGIN_MS
    }

    /// Whether a price can be added to those that the origin is made of.
    pub open spec fn countable(self, price: Dec, timestamp_ms: u64) -> bool {
        self.gathering(timestamp_ms) ==> self.btc_origin_count < u32::MAX && decimal::decimal_sum(
            self.btc_origin_sum,
            price,
        ) is Some
    }

    /// The origin that a price at that time is measured against: the mean of the gathered
    /// prices, or the price itself where none was gathered.
    pub open spec fn origin_at(self, price: Dec) -> Dec {
        if self.btc_origin_locked {
            self.btc_origin_price
        } else if self.btc_origin_count > 0 {
            decimal::decimal_quotient(
                self.btc_origin_sum,
                Dec { mantissa: self.btc_origin_count as i128, scale: 0 },
            )->0
        } else {
            price
        }
    }

    /// The state with the origin fixed.
    pub open spec fn locked(self, price: Dec) -> WindowState {
        WindowState {
            btc_origin_price: self.origin_at(price),
            btc_origin_locked: true,
            ..self
        }
    }

    /// The state with a price added to the origin.
    pub open spec fn gathered(self, price: Dec, timestamp_ms: u64) -> WindowState {
        WindowState {
            btc_origin_sum: decimal::decimal_sum(self.btc_origin_sum, price)->0,
            btc_origin_count: (self.btc_origin_count + 1) as u32,
            btc_last_price: price,
            btc_last_update_ms: timestamp_ms,
            ..self
        }
    }

    /// Whether a price is at or above the origin.
    pub open spec fn is_above(reading: BtcReading) -> bool {
        Double::zero_spec().at_most(reading.distance)
    }

    /// The state with the measurements of a price. The time since the last price counts for the
    /// side where the price is now. The return is measured only where there is a last price
    /// above zero.
    pub open spec fn measured(self, price: Dec, timestamp_ms: u64, reading: BtcReading) -> WindowState {
        let moved = self.btc_last_price.mantissa > 0;
        WindowState {
            btc_distance_from_origin_pct: reading.distance,
            btc_area: reading.area,
            btc_path_length: if moved { reading.path_length } else { self.btc_path_length },
            btc_acceleration: if moved { reading.acceleration } else { self.btc_acceleration },
            btc_prev_return: if moved { self.btc_current_return } else { self.btc_prev_return },
            btc_current_return: if moved { reading.tick_return } else { self.btc_current_return },
            btc_elapsed_seconds: reading.elapsed,
            btc_above_seconds: if WindowState::is_above(reading) {
                reading.above
            } else {
                self.btc_above_seconds
            },
            btc_below_seconds: if WindowState::is_above(reading) {
                self.btc_below_seconds
            } else {
                reading.below
            },
            btc_same_side_seconds: if WindowState::is_above(reading) {
                reading.above
            } else {
                reading.below
            },
            btc_last_price: price,
            btc_last_update_ms: timestamp_ms,
            ..self
        }
    }

    /// The state after a price of bitcoin.
    pub open spec fn after_btc(self, price: Dec, timestamp_ms: u64, reading: BtcReading) -> WindowState {
        if self.gathering(timestamp_ms) {
            self.gathered(price, timestamp_ms)
        } else {
            let s = self.locked(price);
            if s.btc_origin_price.mantissa > 0 {
                s.measured(price, timestamp_ms, reading)
            } else {
                s
            }
        }
    }

    /// Starts a new window.
    pub fn reset(&mut self, window_started_ms: u64)
        ensures
            *final(self) == WindowState::blank(window_started_ms),
            final(self).wf(),
    {
        *self = WindowState::default();
        self.window_started_ms = window_started_ms;
    }

    /// The origin that a price at that time is measured against; none while it is gathered.
    pub fn upcoming_origin(&self, price: Dec, timestamp_ms: u64) -> (r: Option<Dec>)
        requires
            self.wf(),
            price.wf(),
        ensures
            r is None <==> self.gathering(timestamp_ms),
            r is Some ==> r->0 == self.origin_at(price) && r->0.wf(),
    {
        if self.btc_origin_locked {
            return Some(self.btc_origin_price);
        }
        if minus_or_zero(timestamp_ms, self.window_started_ms) <= ORIGIN_MS {
            return None;
        }
        if self.btc_origin_count > 0 {
            divide_decimals(
                self.btc_origin_sum,
                Dec { mantissa: self.btc_origin_count as i128, scale: 0 },
            )
        } else {
            Some(price)
        }
    }

    /// Takes in a price of bitcoin. The reading is looked at only where the price is measured
    /// against an origin ([`WindowState::upcoming_origin`]) above zero.
    pub fn ingest_btc(&mut self, price: Dec, timestamp_ms: u64, reading: BtcReading)
        requires
            old(self).wf(),
            price.wf(),
            old(self).countable(price, timestamp_ms),
        ensures
            *final(self) == old(self).after_btc(price, timestamp_ms, reading),
            final(self).wf(),
    {
        match self.upcoming_origin(price, timestamp_ms) {
            None => {
                if let Some(sum) = add_decimals(self.btc_origin_sum, price) {
                    self.btc_origin_sum = sum;
                }
                self.btc_origin_count = self.btc_origin_count + 1;
                self.btc_last_price = price;
                self.btc_last_update_ms = timestamp_ms;
            },
            Some(origin) => {
                self.btc_origin_price = origin;
                self.btc_origin_locked = true;
                if origin.mantissa > 0 {
                    self.measure(price, timestamp_ms, reading);
                }
            },
        }
    }

    /// [`WindowState::ingest_btc`], unless the price cannot be added to the origin; then the
    /// state is as it was and the result is false.
    pub fn try_ingest_btc(&mut self, price: Dec, timestamp_ms: u64, reading: BtcReading) -> (r: bool)
        requires
            old(self).wf(),
            price.wf(),
        ensures
            r == old(self).countable(price, timestamp_ms),
            r ==> *final(self) == old(self).after_btc(price, timestamp_ms, reading),
            !r ==> *final(self) == *old(self),
            final(self).wf(),
    {
        if self.upcoming_origin(price, timestamp_ms).is_none() && (self.btc_origin_count == u32::MAX
            || add_decimals(self.btc_origin_sum, price).is_none()) {
            return false;
        }
        self.ingest_btc(price, timestamp_ms, reading);
        true
    }

    /// Notes the measurements of a price.
    fn measure(&mut self, price: Dec, timestamp_ms: u64, reading: BtcReading)
        ensures
            *final(self) == old(self).measured(price, timestamp_ms, reading),
    {
        self.btc_distance_from_origin_pct = reading.distance;
        self.btc_area = reading.area;
        if self.btc_last_price.mantissa > 0 {
            self.btc_path_length = reading.path_length;
            self.btc_acceleration = reading.acceleration;
            self.btc_prev_return = self.btc_current_return;
            self.btc_current_return = reading.tick_return;
        }
        self.btc_elapsed_seconds = reading.elapsed;
        if Double::zero().le(reading.distance) {
            self.btc_above_seconds = reading.above;
            self.btc_same_side_seconds = reading.above;
        } else {
            self.btc_below_seconds = reading.below;
            self.btc_same_side_seconds = reading.below;
        }
        self.btc_last_price = price;
        self.btc_last_update_ms = timestamp_ms;
    }

    /// Takes in a price of the up token.
    pub fn ingest_up(&mut self, price: Dec, timestamp_ms: u64, reading: TokenReading)
        ensures
            *final(self) == (WindowState {
                up: old(self).up.after(price, timestamp_ms, reading),
                ..*old(self)
            }),
    {
        self.up.ingest(price, timestamp_ms, reading);
    }

    /// Takes in a price of the down token.
    pub fn ingest_down(&mut self, price: Dec, timestamp_ms: u64, reading: TokenReading)
        ensures
            *final(self) == (WindowState {
                down: old(self).down.after(price, timestamp_ms, reading),
                ..*old(self)
            }),
    {
        self.down.ingest(price, timestamp_ms, reading);
    }
}

impl Default for WindowState {
    fn default() -> (r: Self)
        ensures
            r == WindowState::blank(0),
            r.wf(),
    {
        WindowState {
            btc_origin_price: Dec { mantissa: 0, scale: 0 },
            btc_origin_locked: false,
            btc_origin_sum: Dec { mantissa: 0, scale: 0 },
            btc_origin_count: 0,
            window_started_ms: 0,
            btc_last_price: Dec { mantissa: 0, scale: 0 },
            btc_last_update_ms: 0,
            btc_distance_from_origin_pct: Double::zero(),
            btc_area: Double::zero(),
            btc_path_length: Double::zero(),
            btc_prev_return: Double::zero(),
            btc_current_return: Double::zero(),
            btc_acceleration: Double::zero(),
            btc_above_seconds: Double::zero(),
            btc_below_seconds: Double::zero(),
            btc_same_side_seconds: Double::zero(),
            btc_elapsed_seconds: Double::zero(),
            up: TokenTrack::new(),
            down: TokenTrack::new(),
        }
    }
}

/// Once the origin is fixed it stays, whatever prices come.
pub proof fn law_origin_is_fixed_once(
    s: WindowState,
    price: Dec,
    timestamp_ms: u64,
    reading: BtcReading,
)
    requires
        s.btc_origin_locked,
    ensures
        s.after_btc(price, timestamp_ms, reading).btc_origin_locked,
        s.after_btc(price, timestamp_ms, reading).btc_origin_price == s.btc_origin_price,
{
}

/// The origin is fixed by the first price after the first three seconds, and not before.
pub proof fn law_origin_waits_three_seconds(
    s: WindowState,
    price: Dec,
    timestamp_ms: u64,
    reading: BtcReading,
)
    requires
        !s.btc_origin_locked,
    ensures
        s.after_btc(price, timestamp_ms, reading).btc_origin_locked <==> storage::minus(
            timestamp_ms,
            s.window_started_ms,
        ) > ORIGIN_MS,
{
}

/// A price counts for one side of the origin only, and the seconds that are shown are those of
/// the side where the price is.
pub proof fn law_seconds_are_those_of_the_side(
    s: WindowState,
    price: Dec,
    timestamp_ms: u64,
    reading: BtcReading,
)
    ensures
        ({
            let after = s.measured(price, timestamp_ms, reading);
            &&& WindowState::is_above(reading) ==> after.btc_same_side_seconds
                == after.btc_above_seconds && after.btc_below_seconds == s.btc_below_seconds
            &&& !WindowState::is_above(reading) ==> after.btc_same_side_seconds
                == after.btc_below_seconds && after.btc_above_seconds == s.btc_above_seconds
        }),
{
}

/// A token's origin is its first price that is not zero, and stays.
pub proof fn law_token_origin_is_its_first_price(
    t: TokenTrack,
    price: Dec,
    timestamp_ms: u64,
    reading: TokenReading,
)
    ensures
        t.origin_price.mantissa == 0 ==> t.after(price, timestamp_ms, reading).origin_price == price,
        t.origin_price.mantissa != 0 ==> t.after(price, timestamp_ms, reading).origin_price
            == t.origin_price,
{
}

/// The two tokens do not touch each other, nor bitcoin.
pub proof fn law_tokens_are_independent(
    s: WindowState,
    price: Dec,
    timestamp_ms: u64,
    reading: BtcReading,
)
    ensures
        s.after_btc(price, timestamp_ms, reading).up == s.up,
        s.after_btc(price, timestamp_ms, reading).down == s.down,
{
}

/// The origin that a price is measured against: the fixed one, or else the mean of the prices that
/// were gathered, or else the price itself.
pub open spec fn measured_against(s: WindowState, price: Dec) -> Dec {
    if s.btc_origin_locked {
        s.btc_origin_price
    } else if s.btc_origin_count > 0 {
        decimal::decimal_quotient(
            s.btc_origin_sum,
            Dec { mantissa: s.btc_origin_count as i128, scale: 0 },
        )->0
    } else {
        price
    }
}

/// A price after the first three seconds is measured against the origin: the state then holds the
/// price's own measurements, and the time since the last price counts for the side of the origin
/// where the price is. A return and a path are measured only from a last price above zero.
pub proof fn law_price_is_measured_against_the_origin(
    s: WindowState,
    price: Dec,
    timestamp_ms: u64,
    reading: BtcReading,
)
    requires
        s.btc_origin_locked || timestamp_ms - s.window_started_ms > 3_000,
        measured_against(s, price).mantissa > 0,
    ensures
        ({
            let after = s.after_btc(price, timestamp_ms, reading);
            let above = !reading.distance.nan() && reading.distance.rank() >= 0;
            let moved = s.btc_last_price.mantissa > 0;
            &&& after.btc_origin_locked && after.btc_origin_price == measured_against(s, price)
            &&& after.btc_distance_from_origin_pct == reading.distance
            &&& after.btc_area == reading.area
            &&& after.btc_elapsed_seconds == reading.elapsed
            &&& after.btc_last_price == price && after.btc_last_update_ms == timestamp_ms
            &&& above ==> after.btc_above_seconds == reading.above && after.btc_same_side_seconds
                == reading.above && after.btc_below_seconds == s.btc_below_seconds
            &&& !above ==> after.btc_below_seconds == reading.below && after.btc_same_side_seconds
                == reading.below && after.btc_above_seconds == s.btc_above_seconds
            &&& moved ==> after.btc_path_length == reading.path_length && after.btc_acceleration
                == reading.acceleration && after.btc_current_return == reading.tick_return
                && after.btc_prev_return == s.btc_current_return
            &&& !moved ==> after.btc_path_length == s.btc_path_length && after.btc_acceleration
                == s.btc_acceleration && after.btc_current_return == s.btc_current_return
                && after.btc_prev_return == s.btc_prev_return
            &&& after.window_started_ms == s.window_started_ms
            &&& after.up == s.up && after.down == s.down
        }),
{
}

/// A price of the first three seconds is only added to those that the origin is made of: nothing
/// is measured yet, and no origin is there.
pub proof fn law_price_of_the_beginning_is_gathered(
    s: WindowState,
    price: Dec,
    timestamp_ms: u64,
    reading: BtcReading,
)
    requires
        !s.btc_origin_locked,
        timestamp_ms - s.window_started_ms <= 3_000,
        s.countable(price, timestamp_ms),
    ensures
        ({
            let after = s.after_btc(price, timestamp_ms, reading);
            &&& Some(after.btc_origin_sum) == decimal::decimal_sum(s.btc_origin_sum, price)
            &&& after.btc_origin_count == s.btc_origin_count + 1
            &&& after.btc_last_price == price && after.btc_last_update_ms == timestamp_ms
            &&& after == (WindowState {
                btc_origin_sum: after.btc_origin_sum,
                btc_origin_count: after.btc_origin_count,
                btc_last_price: price,
                btc_last_update_ms: timestamp_ms,
                ..s
            })
        }),
{
}

/// Prices added up from the first on; nothing where a sum leaves the range of amounts.
pub open spec fn added_up(prices: Seq<Dec>) -> Option<Dec>
    decreases prices.len(),
{
    if prices.len() == 0 {
        Some(Dec { mantissa: 0, scale: 0 })
    } else {
        match added_up(prices.drop_last()) {
            Some(sum) => decimal::decimal_sum(sum, prices.last()),
            None => None,
        }
    }
}

/// A price of bitcoin with its time and its measurements.
pub struct TimedPrice {
    pub price: Dec,
    pub timestamp_ms: u64,
    pub reading: BtcReading,
}

/// The state after a list of prices.
pub open spec fn after_prices(s: WindowState, list: Seq<TimedPrice>) -> WindowState
    decreases list.len(),
{
    if list.len() == 0 {
        s
    } else {
        let p = list.last();
        after_prices(s, list.drop_last()).after_btc(p.price, p.timestamp_ms, p.reading)
    }
}

/// The prices of a list.
pub open spec fn prices_of(list: Seq<TimedPrice>) -> Seq<Dec> {
    list.map_values(|p: TimedPrice| p.price)
}

/// The origin of a window is the mean of the prices of its first three seconds: after those the
/// first later price fixes it at their sum divided by their number, and at itself where there was
/// none.
pub proof fn law_origin_is_the_mean_of_the_first_prices(
    window_started_ms: u64,
    first: Seq<TimedPrice>,
    later: TimedPrice,
)
    requires
        first.len() <= u32::MAX,
        forall|i: int|
            0 <= i < first.len() ==> (#[trigger] first[i]).timestamp_ms - window_started_ms <= 3_000,
        added_up(prices_of(first)) is Some,
        later.timestamp_ms - window_started_ms > 3_000,
    ensures
        ({
            let gathered = after_prices(WindowState::blank(window_started_ms), first);
            let after = gathered.after_btc(later.price, later.timestamp_ms, later.reading);
            &&& !gathered.btc_origin_locked
            &&& gathered.window_started_ms == window_started_ms
            &&& gathered.btc_origin_count == first.len()
            &&& Some(gathered.btc_origin_sum) == added_up(prices_of(first))
            &&& after.btc_origin_locked
            &&& first.len() == 0 ==> after.btc_origin_price == later.price
            &&& first.len() > 0 ==> after.btc_origin_price == decimal::decimal_quotient(
                added_up(prices_of(first))->0,
                Dec { mantissa: first.len() as i128, scale: 0 },
            )->0
        }),
    decreases first.len(),
{
    if first.len() > 0 {
        let rest = first.drop_last();
        assert(prices_of(first).drop_last() =~= prices_of(rest));
        assert(prices_of(first).last() == first.last().price);
        assert forall|i: int| 0 <= i < rest.len() implies (#[trigger] rest[i]).timestamp_ms
            - window_started_ms <= 3_000 by {
            assert(rest[i] == first[i]);
        }
        assert(first[first.len() - 1].timestamp_ms - window_started_ms <= 3_000);
        law_origin_is_the_mean_of_the_first_prices(window_started_ms, rest, later);
    }
}

/// A token's price is measured against its first one: from the second price on the track holds the
/// price's own measurements, and it always holds the last price.
pub proof fn law_token_is_measured_against_its_first_price(
    t: TokenTrack,
    price: Dec,
    timestamp_ms: u64,
    reading: TokenReading,
)
    ensures
        ({
            let after = t.after(price, timestamp_ms, reading);
            &&& t.origin_price.mantissa == 0 ==> after == (TokenTrack {
                origin_price: price,
                last_price: price,
                last_update_ms: timestamp_ms,
                ..t
            })
            &&& t.origin_price.mantissa > 0 ==> after.distance_from_origin_pct == reading.distance
                && after.area == reading.area && after.last_price == price && after.last_update_ms
                == timestamp_ms && after.origin_price == t.origin_price
            &&& t.origin_price.mantissa < 0 ==> after == t
        }),
{
}

/// A new window knows nothing: no origin, no price and no measurement of bitcoin or of a token.
pub proof fn law_new_window_is_blank(window_started_ms: u64)
    ensures
        ({
            let s = WindowState::blank(window_started_ms);
            &&& s.window_started_ms == window_started_ms
            &&& !s.btc_origin_locked && s.btc_origin_count == 0
            &&& s.btc_origin_price.mantissa == 0 && s.btc_origin_sum.mantissa == 0
                && s.btc_last_price.mantissa == 0
            &&& s.btc_distance_from_origin_pct.bits == 0 && s.btc_area.bits == 0
                && s.btc_path_length.bits == 0 && s.btc_current_return.bits == 0
                && s.btc_prev_return.bits == 0 && s.btc_acceleration.bits == 0
            &&& s.btc_above_seconds.bits == 0 && s.btc_below_seconds.bits == 0
                && s.btc_same_side_seconds.bits == 0 && s.btc_elapsed_seconds.bits == 0
            &&& s.up.origin_price.mantissa == 0 && s.down.origin_price.mantissa == 0
                && s.up.distance_from_origin_pct.bits == 0 && s.down.distance_from_origin_pct.bits
                == 0
            &&& s.up.last_price.mantissa == 0 && s.up.last_update_ms == 0 && s.up.area.bits == 0
            &&& s.down.last_price.mantissa == 0 && s.down.last_update_ms == 0 && s.down.area.bits
                == 0
            &&& s.btc_last_update_ms == 0
        }),
{
}

} // verus!

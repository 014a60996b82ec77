//! The clock of the window, the line on bitcoin, and the badges of the strategies.

use vstd::prelude::*;
use crate::decimal;
use crate::decimal::{parse_decimal, print_decimal, subtract_decimals, truncate_decimal, Dec};
use crate::double::Double;
use crate::prediction::features::BtcFeatures;
use crate::prediction::signals::{PredictionSide, PredictionSignal, SignalType};
use crate::state::WINDOW_SECS;
use crate::text::print_number;

verus! {

/// The seconds to the end of the window; a full window at its beginning.
pub fn time_remaining(now_secs: u64) -> (r: u64)
    ensures
        r == WINDOW_SECS - now_secs % WINDOW_SECS,
        1 <= r <= WINDOW_SECS,
        (now_secs + r) % (WINDOW_SECS as int) == 0,
        r <= 300,
        (now_secs + r) % 300 == 0,
{
    WINDOW_SECS - now_secs % WINDOW_SECS
}

/// How near the end of the window is.
#[derive(Clone, Copy, Debug, PartialEq, Eq, Structural)]
pub enum Urgency {
    High,
    Medium,
    Low,
}

/// How near the end of the window is: half a minute, a minute, or more.
pub fn urgency(time_remaining: u64) -> (r: Urgency)
    ensures
        r is High <==> time_remaining <= 30,
        r is Medium <==> 30 < time_remaining <= 60,
        r is Low <==> time_remaining > 60,
{
    if time_remaining <= 30 {
        Urgency::High
    } else if time_remaining <= 60 {
        Urgency::Medium
    } else {
        Urgency::Low
    }
}

/// A number with at least two digits.
fn two_digits(n: u64) -> (r: String)
    ensures
        r@ == decimal::zero_padded(decimal::digits(n as nat), 2),
{
    let number = print_number(n);
    if n < 10 {
        let r = "0".to_owned().concat(number.as_str());
        proof {
            reveal_strlit("0");
            let d = decimal::digits(n as nat);
            assert(d.len() == 1);
            assert("0"@ + d =~= decimal::zero_padded(d, 2));
        }
        r
    } else {
        proof {
            let d = decimal::digits(n as nat);
            lemma_digits_not_empty((n / 10) as nat);
            assert(d.len() >= 2);
        }
        number
    }
}

/// A number has a digit.
proof fn lemma_digits_not_empty(n: nat)
    ensures
        decimal::digits(n).len() >= 1,
{
}

/// The clock: minutes and seconds.
pub fn clock_text(time_remaining: u64) -> (r: String)
    ensures
        r@ == decimal::zero_padded(decimal::digits((time_remaining / 60) as nat), 2) + ":"@
            + decimal::zero_padded(decimal::digits((time_remaining % 60) as nat), 2),
{
    let seconds = two_digits(time_remaining % 60);
    two_digits(time_remaining / 60).concat(":").concat(seconds.as_str())
}

/// What the badge of a strategy says.
#[derive(Clone, Copy, Debug, PartialEq, Eq, Structural)]
pub enum Badge {
    NoTrade,
    Up,
    Down,
}

/// What the badge of a strategy says, and whether its confidence is shown: not where it is
/// zero.
pub fn badge(signal: &PredictionSignal) -> (r: (Badge, bool))
    ensures
        r.0 == (if signal.signal_type is NoTrade {
            Badge::NoTrade
        } else if signal.side is Up {
            Badge::Up
        } else {
            Badge::Down
        }),
        r.1 == Double::zero_spec().below(signal.confidence),
{
    let badge = match signal.signal_type {
        SignalType::NoTrade => Badge::NoTrade,
        _ => match signal.side {
            PredictionSide::Up => Badge::Up,
            PredictionSide::Down => Badge::Down,
        },
    };
    (badge, Double::zero().lt(signal.confidence))
}

/// The line on bitcoin.
#[derive(Clone, Copy, Debug, PartialEq, Eq, Structural)]
pub struct BtcTicker {
    pub origin_price: Dec,
    pub current_price: Dec,
    /// How far the price is from the origin, without its sign.
    pub distance: Dec,
    pub rising: bool,
    pub distance_pct: Double,
}

/// The size of an amount.
pub open spec fn magnitude(d: Dec) -> Dec {
    if d.mantissa < 0 { Dec { mantissa: (-d.mantissa) as i128, scale: d.scale } } else { d }
}

/// The line on bitcoin; none before the origin is known, nor where the distance is no amount.
pub open spec fn btc_ticker_spec(btc: BtcFeatures) -> Option<BtcTicker> {
    if btc.origin_price.mantissa == 0 {
        None
    } else {
        match decimal::decimal_difference(btc.current_price, btc.origin_price) {
            None => None,
            Some(d) => Some(
                BtcTicker {
                    origin_price: btc.origin_price,
                    current_price: btc.current_price,
                    distance: magnitude(d),
                    rising: Double::zero_spec().at_most(btc.distance_from_origin_pct),
                    distance_pct: btc.distance_from_origin_pct,
                },
            ),
        }
    }
}

/// The line on bitcoin.
pub fn btc_ticker(btc: &BtcFeatures) -> (r: Option<BtcTicker>)
    requires
        btc.current_price.wf(),
        btc.origin_price.wf(),
    ensures
        r == btc_ticker_spec(*btc),
{
    if btc.origin_price.mantissa == 0 {
        return None;
    }
    match subtract_decimals(btc.current_price, btc.origin_price) {
        None => None,
        Some(d) => {
            let distance = if d.mantissa < 0 {
                Dec { mantissa: -d.mantissa, scale: d.scale }
            } else {
                d
            };
            Some(
                BtcTicker {
                    origin_price: btc.origin_price,
                    current_price: btc.current_price,
                    distance,
                    rising: Double::zero().le(btc.distance_from_origin_pct),
                    distance_pct: btc.distance_from_origin_pct,
                },
            )
        },
    }
}

/// An amount with at most two decimal places, cut off; a text that is no amount stays.
pub open spec fn rounded(value: Seq<char>) -> Seq<char> {
    match decimal::decimal_of_text(value) {
        Ok(d) => decimal::decimal_text(d.truncated(2)),
        Err(_) => value,
    }
}

/// An amount with at most two decimal places.
pub fn round_to_two_dp(value: &str) -> (r: String)
    ensures
        r@ == rounded(value@),
        forall|d: Dec|
            d.wf() && value@ == #[trigger] decimal::decimal_text(d) ==> r@ == decimal::decimal_text(
                d.truncated(2),
            ),
{
    match parse_decimal(value) {
        Ok(d) => print_decimal(truncate_decimal(d, 2)),
        Err(_) => value.to_owned(),
    }
}

/// The line on bitcoin shows the origin and the price as they are, their distance without its sign,
/// and whether the price is at or above the origin; there is a line exactly where the origin is
/// known and the distance is an amount.
pub proof fn law_ticker_shows_price_and_origin(btc: BtcFeatures)
    ensures
        ({
            let line = btc_ticker_spec(btc);
            let d = decimal::decimal_difference(btc.current_price, btc.origin_price);
            &&& line is Some <==> btc.origin_price.mantissa != 0 && d is Some
            &&& line is Some ==> {
                &&& line->0.origin_price == btc.origin_price
                &&& line->0.current_price == btc.current_price
                &&& line->0.distance_pct == btc.distance_from_origin_pct
                &&& line->0.rising <==> !btc.distance_from_origin_pct.nan()
                    && btc.distance_from_origin_pct.rank() >= 0
                &&& d->0.mantissa >= 0 ==> line->0.distance == d->0
                &&& i128::MIN < d->0.mantissa < 0 ==> line->0.distance.mantissa == -d->0.mantissa
                    && line->0.distance.scale == d->0.scale
            }
        }),
{
}

/// A text that is an amount is shown cut off after two places, and so less than a hundredth below
/// it and never above it; any other text is shown as it is.
pub proof fn law_shown_amount_is_close(value: Seq<char>)
    ensures
        decimal::decimal_of_text(value) is Err ==> rounded(value) == value,
        (decimal::decimal_of_text(value) matches Ok(d) && d.wf() && d.mantissa >= 0) ==> exists|cut:
            Dec| #[trigger]
            decimal::decimal_text(cut) == rounded(value) && decimal::cut_from(
                cut,
                decimal::decimal_of_text(value)->Ok_0,
                2,
            ),
{
    if let Ok(d) = decimal::decimal_of_text(value) {
        if d.wf() && d.mantissa >= 0 {
            decimal::law_cut_is_close(d, 2);
            let cut = d.truncated(2);
            assert(decimal::decimal_text(cut) == rounded(value));
        }
    }
}

} // verus!

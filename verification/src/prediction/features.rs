//! The features that strategies read.

use vstd::prelude::*;
use crate::decimal::Dec;
use crate::double::Double;

verus! {

/// What the price of bitcoin does in the current window.
#[derive(Clone, Copy, Debug, PartialEq, Eq, Structural)]
pub struct BtcFeatures {
    pub current_price: Dec,
    /// The average price of the window's first three seconds; zero until it is known.
    pub origin_price: Dec,
    /// The distance from the origin, as a part of it, with its sign.
    pub distance_from_origin_pct: Double,
    /// The distance against the length of the path: one is a straight line, zero is noise.
    pub efficiency_ratio: Double,
    pub er_1s: Double,
    pub er_5s: Double,
    pub er_10s: Double,
    pub er_30s: Double,
    pub er_full: Double,
    pub volatility_30s: Double,
    pub volatility_60s: Double,
    pub z_score_30: Double,
    pub z_score_60: Double,
    pub z_score_5m: Double,
    /// The change of the return from one tick to the next.
    pub acceleration: Double,
    /// The share of the time that the price has spent on its current side of the origin.
    pub momentum_persistence: Double,
    /// The distance from the origin, averaged over time.
    pub avg_distance_from_origin: Double,
    pub high_5m: Dec,
    pub low_5m: Dec,
    /// Where the price is between its low (zero) and its high (one).
    pub range_position: Double,
    pub range_position_30s: Double,
    pub range_position_60s: Double,
    pub range_position_5m: Double,
    pub range_position_10m: Double,
    pub range_position_30m: Double,
    pub range_position_60m: Double,
    /// How far the positions in the ranges agree that the price is high.
    pub toward_high: Double,
}

impl BtcFeatures {
    /// The features before anything is known.
    pub open spec fn blank() -> BtcFeatures {
        let d = Dec::zero_spec();
        let z = Double::zero_spec();
        BtcFeatures {
            current_price: d,
            origin_price: d,
            distance_from_origin_pct: z,
            efficiency_ratio: z,
            er_1s: z,
            er_5s: z,
            er_10s: z,
            er_30s: z,
            er_full: z,
            volatility_30s: z,
            volatility_60s: z,
            z_score_30: z,
            z_score_60: z,
            z_score_5m: z,
            acceleration: z,
            momentum_persistence: z,
            avg_distance_from_origin: z,
            high_5m: d,
            low_5m: d,
            range_position: z,
            range_position_30s: z,
            range_position_60s: z,
            range_position_5m: z,
            range_position_10m: z,
            range_position_30m: z,
            range_position_60m: z,
            toward_high: z,
        }
    }
}

impl Default for BtcFeatures {
    fn default() -> (r: Self)
        ensures
            r == BtcFeatures::blank(),
    {
        let d = Dec { mantissa: 0, scale: 0 };
        let z = Double::zero();
        BtcFeatures {
            current_price: d,
            origin_price: d,
            distance_from_origin_pct: z,
            efficiency_ratio: z,
            er_1s: z,
            er_5s: z,
            er_10s: z,
            er_30s: z,
            er_full: z,
            volatility_30s: z,
            volatility_60s: z,
            z_score_30: z,
            z_score_60: z,
            z_score_5m: z,
            acceleration: z,
            momentum_persistence: z,
            avg_distance_from_origin: z,
            high_5m: d,
            low_5m: d,
            range_position: z,
            range_position_30s: z,
            range_position_60s: z,
            range_position_5m: z,
            range_position_10m: z,
            range_position_30m: z,
            range_position_60m: z,
            toward_high: z,
        }
    }
}

/// What the price and the book of one token do in the current window.
#[derive(Clone, Copy, Debug, PartialEq, Eq, Structural)]
pub struct TokenFeatures {
    pub current_price: Dec,
    /// The price of the token's first book in the window; zero until there is one.
    pub origin_price: Dec,
    pub distance_from_origin_pct: Double,
    /// The distances from the origin, each times the seconds that it lasted, added up.
    pub area_under_curve: Double,
    /// That sum, divided by the seconds that have passed.
    pub avg_distance: Double,
    pub bid_depth: Dec,
    pub ask_depth: Dec,
    pub imbalance: Double,
    pub spread_pct: Double,
}

impl TokenFeatures {
    /// The features before anything is known.
    pub open spec fn blank() -> TokenFeatures {
        TokenFeatures {
            current_price: Dec::zero_spec(),
            origin_price: Dec::zero_spec(),
            distance_from_origin_pct: Double::zero_spec(),
            area_under_curve: Double::zero_spec(),
            avg_distance: Double::zero_spec(),
            bid_depth: Dec::zero_spec(),
            ask_depth: Dec::zero_spec(),
            imbalance: Double::zero_spec(),
            spread_pct: Double::zero_spec(),
        }
    }
}

impl Default for TokenFeatures {
    fn default() -> (r: Self)
        ensures
            r == TokenFeatures::blank(),
    {
        TokenFeatures {
            current_price: Dec { mantissa: 0, scale: 0 },
            origin_price: Dec { mantissa: 0, scale: 0 },
            distance_from_origin_pct: Double::zero(),
            area_under_curve: Double::zero(),
            avg_distance: Double::zero(),
            bid_depth: Dec { mantissa: 0, scale: 0 },
            ask_depth: Dec { mantissa: 0, scale: 0 },
            imbalance: Double::zero(),
            spread_pct: Double::zero(),
        }
    }
}

/// The features of both tokens.
#[derive(Clone, Copy, Debug, PartialEq, Eq, Structural)]
pub struct PolymarketFeatures {
    pub up: TokenFeatures,
    pub down: TokenFeatures,
}

} // verus!

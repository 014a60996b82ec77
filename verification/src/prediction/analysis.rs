//! Summaries of the features, without any threshold.

use vstd::prelude::*;
use crate::double::Double;
use crate::prediction::context::PredictionContext;
use crate::prediction::features::BtcFeatures;
use crate::prediction::signals::PredictionSide;

verus! {

/// What the price of bitcoin does now.
#[derive(Clone, Copy, Debug, PartialEq, Eq, Structural)]
pub struct BtcTrend {
    /// The side of its origin that the price is on.
    pub side: PredictionSide,
    /// All else that is known of it.
    pub features: BtcFeatures,
}

/// What one token does now.
#[derive(Clone, Copy, Debug, PartialEq, Eq, Structural)]
pub struct TokenTrend {
    pub distance_from_origin_pct: Double,
    pub avg_distance_from_origin: Double,
    pub imbalance: Double,
}

/// The side of its origin that the price is on; at the origin it is up.
pub open spec fn side_of(distance: Double) -> PredictionSide {
    if Double::zero_spec().at_most(distance) { PredictionSide::Up } else { PredictionSide::Down }
}

/// The trend, once the origin is known.
pub open spec fn btc_trend_spec(btc: BtcFeatures) -> Option<BtcTrend> {
    if btc.origin_price.mantissa == 0 {
        None
    } else {
        Some(BtcTrend { side: side_of(btc.distance_from_origin_pct), features: btc })
    }
}

/// A token's trend after `elapsed_seconds` of the window, once its origin is known.
pub open spec fn token_trend_spec(
    ctx: PredictionContext,
    side: PredictionSide,
    elapsed_seconds: u64,
) -> Option<TokenTrend> {
    let token = ctx.token_spec(side);
    if token.origin_price.mantissa == 0 {
        None
    } else {
        Some(
            TokenTrend {
                distance_from_origin_pct: token.distance_from_origin_pct,
                avg_distance_from_origin: if elapsed_seconds > 0 {
                    token.avg_distance
                } else {
                    Double::zero_spec()
                },
                imbalance: token.imbalance,
            },
        )
    }
}

pub struct MarketAnalyzer;

impl MarketAnalyzer {
    /// The trend, once the origin is known.
    pub fn btc_trend(ctx: &PredictionContext) -> (r: Option<BtcTrend>)
        ensures
            r == btc_trend_spec(ctx.btc),
    {
        if ctx.btc.origin_price.mantissa == 0 {
            return None;
        }
        let side = if Double::zero().le(ctx.btc.distance_from_origin_pct) {
            PredictionSide::Up
        } else {
            PredictionSide::Down
        };
        Some(BtcTrend { side, features: ctx.btc })
    }

    /// A token's trend after `elapsed_seconds` of the window, once its origin is known.
    pub fn token_trend(ctx: &PredictionContext, side: PredictionSide, elapsed_seconds: u64) -> (r:
        Option<TokenTrend>)
        ensures
            r == token_trend_spec(*ctx, side, elapsed_seconds),
    {
        let token = ctx.token(side);
        if token.origin_price.mantissa == 0 {
            return None;
        }
        Some(
            TokenTrend {
                distance_from_origin_pct: token.distance_from_origin_pct,
                avg_distance_from_origin: if elapsed_seconds > 0 {
                    token.avg_distance
                } else {
                    Double::zero()
                },
                imbalance: token.imbalance,
            },
        )
    }
}

/// The price is on the upper side exactly where its distance is zero or above it. There is a trend
/// of bitcoin exactly where its origin is known, and it has the features as they are.
pub proof fn law_trend_has_the_side_of_the_price(btc: BtcFeatures, distance: Double)
    ensures
        side_of(distance) is Up <==> !distance.nan() && distance.rank() >= 0,
        btc_trend_spec(btc) is Some <==> btc.origin_price.mantissa != 0,
        btc_trend_spec(btc) matches Some(t) ==> t.features == btc && (t.side is Up
            <==> !btc.distance_from_origin_pct.nan() && btc.distance_from_origin_pct.rank() >= 0),
{
}

/// The trend of a side's token is that of this token: there is one exactly where its origin is
/// known, with its distance and its imbalance, and with its mean distance once a second has passed.
pub proof fn law_trend_is_of_the_token_of_the_side(
    ctx: PredictionContext,
    side: PredictionSide,
    elapsed_seconds: u64,
)
    ensures
        ({
            let token = if side is Up { ctx.polymarket.up } else { ctx.polymarket.down };
            let trend = token_trend_spec(ctx, side, elapsed_seconds);
            &&& trend is Some <==> token.origin_price.mantissa != 0
            &&& trend is Some ==> trend->0.distance_from_origin_pct == token.distance_from_origin_pct
            &&& trend is Some ==> trend->0.imbalance == token.imbalance
            &&& trend is Some && elapsed_seconds >= 1 ==> trend->0.avg_distance_from_origin
                == token.avg_distance
            &&& trend is Some && elapsed_seconds == 0 ==> trend->0.avg_distance_from_origin.bits == 0
        }),
{
}

} // verus!

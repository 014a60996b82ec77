//! The direction that a model sees the price of bitcoin take.

use vstd::prelude::*;

verus! {

#[derive(Clone, Copy, Debug, PartialEq, Eq, Structural)]
pub enum TrendDirection {
    Bullish,
    Bearish,
    Sideways,
}

impl TrendDirection {
    /// Whether one direction is up and the other down.
    pub open spec fn opposes(self, other: TrendDirection) -> bool {
        (self is Bullish && other is Bearish) || (self is Bearish && other is Bullish)
    }

    /// Whether one direction is up and the other down.
    pub fn is_opposite(self, other: TrendDirection) -> (r: bool)
        ensures
            r == self.opposes(other),
    {
        (self == TrendDirection::Bullish && other == TrendDirection::Bearish) || (self
            == TrendDirection::Bearish && other == TrendDirection::Bullish)
    }
}

/// Two directions oppose each other exactly where one is up and the other down.
pub proof fn law_up_and_down_oppose(a: TrendDirection, b: TrendDirection)
    ensures
        a.opposes(b) <==> a != b && a != TrendDirection::Sideways && b != TrendDirection::Sideways,
        a.opposes(b) <==> b.opposes(a),
{
}

} // verus!

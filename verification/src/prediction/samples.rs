//! Samples of prices and order books.

use vstd::prelude::*;
use crate::decimal::Dec;
use crate::prediction::storage::Timestamped;

verus! {

/// A price of bitcoin at a time.
#[derive(Clone, Copy, Debug, PartialEq, Eq, Structural)]
pub struct BtcSample {
    pub timestamp_ms: u64,
    pub price: Dec,
}

impl Timestamped for BtcSample {
    open spec fn time(&self) -> u64 {
        self.timestamp_ms
    }

    fn timestamp_ms(&self) -> (r: u64) {
        self.timestamp_ms
    }
}

/// The top of a token's order book at a time.
#[derive(Debug)]
pub struct OrderbookSample {
    pub timestamp_ms: u64,
    pub asset_id: String,
    pub best_bid: Dec,
    pub best_ask: Dec,
    pub last_trade_price: Dec,
    pub bid_depth: Dec,
    pub ask_depth: Dec,
}

impl Timestamped for OrderbookSample {
    open spec fn time(&self) -> u64 {
        self.timestamp_ms
    }

    fn timestamp_ms(&self) -> (r: u64) {
        self.timestamp_ms
    }
}

} // verus!

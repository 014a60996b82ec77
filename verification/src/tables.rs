//! The concurrent tables that the shared state is made of.
//!
//! A table is a `DashMap`. What it holds is named by a function of the table; the
//! functions below say what the methods of `DashMap` do to that content.

use vstd::prelude::*;
use dashmap::DashMap;
use crate::prediction::state::{PredictionState, PredictionView};
use crate::state::{MarketPrices, OrderView, PricesView, TrackedOrder, Trade, TradeView};
use crate::text;

verus! {

/// The concurrent hash map of the crate `dashmap`.
#[verifier::external_type_specification]
#[verifier::external_body]
#[verifier::reject_recursive_types(K)]
#[verifier::reject_recursive_types(V)]
#[verifier::reject_recursive_types(S)]
pub struct ExDashMap<K, V, S>(DashMap<K, V, S>);

/// The orders that a table holds, by identifier.
pub uninterp spec fn orders_in(table: DashMap<String, TrackedOrder>) -> Map<Seq<char>, OrderView>;

/// The trades that a table holds, by identifier.
pub uninterp spec fn trades_in(table: DashMap<String, Trade>) -> Map<Seq<char>, TradeView>;

/// The prices that a table holds, by window.
pub uninterp spec fn prices_in(table: DashMap<u64, MarketPrices>) -> Map<u64, PricesView>;

/// The predictions that a table holds, by window.
pub uninterp spec fn predictions_in(table: DashMap<u64, PredictionState>) -> Map<
    u64,
    PredictionView,
>;

/// The numbers of the feeds that a table holds, by window.
pub uninterp spec fn feeds_in(table: DashMap<u64, u64>) -> Map<u64, u64>;

/// `DashMap::new`: an empty table of orders.
#[verifier::external_body]
pub(crate) fn new_orders() -> (r: DashMap<String, TrackedOrder>)
    ensures
        orders_in(r).is_empty(),
{
    DashMap::new()
}

/// `DashMap::insert`: the order stands under the key, in place of what stood there.
#[verifier::external_body]
pub(crate) fn insert_order(table: &mut DashMap<String, TrackedOrder>, key: String, value: TrackedOrder)
    ensures
        orders_in(*final(table)) == orders_in(*old(table)).insert(key@, value@),
{
    table.insert(key, value);
}

/// `DashMap::remove`: nothing stands under the key any more; what stood there is returned.
#[verifier::external_body]
pub(crate) fn remove_order(table: &mut DashMap<String, TrackedOrder>, key: &str) -> (r: Option<TrackedOrder>)
    ensures
        orders_in(*final(table)) == orders_in(*old(table)).remove(key@),
        r is Some <==> orders_in(*old(table)).contains_key(key@),
        r is Some ==> r->0@ == orders_in(*old(table))[key@],
{
    table.remove(key).map(|entry| entry.1)
}

/// `DashMap::get`: what stands under the key, copied out.
#[verifier::external_body]
pub(crate) fn get_order(table: &DashMap<String, TrackedOrder>, key: &str) -> (r: Option<TrackedOrder>)
    ensures
        r is Some <==> orders_in(*table).contains_key(key@),
        r is Some ==> r->0@ == orders_in(*table)[key@],
{
    table.get(key).map(|entry| entry.value().clone())
}

/// `DashMap::iter`: each key once, in no particular order.
#[verifier::external_body]
pub(crate) fn order_keys(table: &DashMap<String, TrackedOrder>) -> (r: Vec<String>)
    ensures
        text::texts(r@).no_duplicates(),
        forall|id: Seq<char>| #[trigger]
            text::texts(r@).contains(id) <==> orders_in(*table).contains_key(id),
{
    table.iter().map(|entry| entry.key().clone()).collect()
}

/// `DashMap::new`: an empty table of trades.
#[verifier::external_body]
pub(crate) fn new_trades() -> (r: DashMap<String, Trade>)
    ensures
        trades_in(r).is_empty(),
{
    DashMap::new()
}

/// `DashMap::insert`: the trade stands under the key, in place of what stood there.
#[verifier::external_body]
pub(crate) fn insert_trade(table: &mut DashMap<String, Trade>, key: String, value: Trade)
    ensures
        trades_in(*final(table)) == trades_in(*old(table)).insert(key@, value@),
{
    table.insert(key, value);
}

/// `DashMap::remove`: nothing stands under the key any more.
#[verifier::external_body]
pub(crate) fn remove_trade(table: &mut DashMap<String, Trade>, key: &str)
    ensures
        trades_in(*final(table)) == trades_in(*old(table)).remove(key@),
{
    table.remove(key);
}

/// `DashMap::get`: what stands under the key, copied out.
#[verifier::external_body]
pub(crate) fn get_trade(table: &DashMap<String, Trade>, key: &str) -> (r: Option<Trade>)
    ensures
        r is Some <==> trades_in(*table).contains_key(key@),
        r is Some ==> r->0@ == trades_in(*table)[key@],
{
    table.get(key).map(|entry| entry.value().clone())
}

/// `DashMap::new`: an empty table of prices.
#[verifier::external_body]
pub(crate) fn new_prices() -> (r: DashMap<u64, MarketPrices>)
    ensures
        prices_in(r).is_empty(),
{
    DashMap::new()
}

/// `DashMap::insert`: the prices stand under the window, in place of what stood there.
#[verifier::external_body]
pub(crate) fn insert_prices(table: &mut DashMap<u64, MarketPrices>, key: u64, value: MarketPrices)
    ensures
        prices_in(*final(table)) == prices_in(*old(table)).insert(key, value@),
{
    table.insert(key, value);
}

/// `DashMap::remove`: nothing stands under the window any more.
#[verifier::external_body]
pub(crate) fn remove_prices(table: &mut DashMap<u64, MarketPrices>, key: u64)
    ensures
        prices_in(*final(table)) == prices_in(*old(table)).remove(key),
{
    table.remove(&key);
}

/// `DashMap::get`: what stands under the window, copied out.
#[verifier::external_body]
pub(crate) fn get_prices(table: &DashMap<u64, MarketPrices>, key: u64) -> (r: Option<MarketPrices>)
    ensures
        r is Some <==> prices_in(*table).contains_key(key),
        r is Some ==> r->0@ == prices_in(*table)[key],
{
    table.get(&key).map(|entry| entry.value().clone())
}

/// `DashMap::new`: an empty table of feeds.
#[verifier::external_body]
pub(crate) fn new_feeds() -> (r: DashMap<u64, u64>)
    ensures
        feeds_in(r).is_empty(),
{
    DashMap::new()
}

/// `DashMap::insert`: the feed stands under the window, in place of what stood there.
#[verifier::external_body]
pub(crate) fn insert_feed(table: &mut DashMap<u64, u64>, key: u64, value: u64)
    ensures
        feeds_in(*final(table)) == feeds_in(*old(table)).insert(key, value),
{
    table.insert(key, value);
}

/// `DashMap::remove`: no feed stands under the window any more; the one that stood there
/// is returned.
#[verifier::external_body]
pub(crate) fn remove_feed(table: &mut DashMap<u64, u64>, key: u64) -> (r: Option<u64>)
    ensures
        feeds_in(*final(table)) == feeds_in(*old(table)).remove(key),
        r == feeds_in(*old(table)).get(key),
{
    table.remove(&key).map(|entry| entry.1)
}

/// `DashMap::new`: an empty table of predictions.
#[verifier::external_body]
pub(crate) fn new_predictions() -> (r: DashMap<u64, PredictionState>)
    ensures
        predictions_in(r).is_empty(),
{
    DashMap::new()
}

/// `DashMap::insert`: the prediction stands under the window, in place of what stood there.
#[verifier::external_body]
pub(crate) fn insert_prediction(
    table: &mut DashMap<u64, PredictionState>,
    key: u64,
    value: PredictionState,
)
    ensures
        predictions_in(*final(table)) == predictions_in(*old(table)).insert(key, value@),
{
    table.insert(key, value);
}

/// `DashMap::get`: what stands under the window, copied out.
#[verifier::external_body]
pub(crate) fn get_prediction(table: &DashMap<u64, PredictionState>, key: u64) -> (r: Option<
    PredictionState,
>)
    ensures
        r is Some <==> predictions_in(*table).contains_key(key),
        r is Some ==> r->0@ == predictions_in(*table)[key],
{
    table.get(&key).map(|entry| entry.value().clone())
}

/// `DashMap::iter`: each window once, in no particular order.
#[verifier::external_body]
pub(crate) fn prediction_keys(table: &DashMap<u64, PredictionState>) -> (r: Vec<u64>)
    ensures
        r@.no_duplicates(),
        forall|key: u64| #[trigger] r@.contains(key) <==> predictions_in(*table).contains_key(key),
{
    table.iter().map(|entry| *entry.key()).collect()
}

} // verus!

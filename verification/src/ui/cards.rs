//! The card of an order: the column that it stands in, its look, and its buttons.

use vstd::prelude::*;
use crate::decimal;
use crate::messages::{CommandView, UiCommand};
use crate::state::{AppState, LocalOrderStatus, OrderView, StateView, TrackedOrder};
use crate::text;
use crate::text::{equal_ignoring_case, lowercase, print_number, same_text, uppercase};

verus! {

/// The columns of a window.
#[derive(Clone, Copy, Debug, PartialEq, Eq, Structural)]
pub enum Column {
    Bought,
    Sold,
    Others,
}

/// The column of an order: by its side, unless it was cancelled or failed.
pub open spec fn column_spec(order: OrderView) -> Column {
    if order.status is Canceled || order.status is Failed {
        Column::Others
    } else if text::same_ignoring_case(order.side, "buy"@) {
        Column::Bought
    } else if text::same_ignoring_case(order.side, "sell"@) {
        Column::Sold
    } else {
        Column::Others
    }
}

/// The column of an order.
pub fn column_of(order: &TrackedOrder) -> (r: Column)
    ensures
        r == column_spec(order@),
{
    match order.status {
        LocalOrderStatus::Canceled => Column::Others,
        LocalOrderStatus::Failed(_) => Column::Others,
        _ => {
            if equal_ignoring_case(order.side.as_str(), "buy") {
                Column::Bought
            } else if equal_ignoring_case(order.side.as_str(), "sell") {
                Column::Sold
            } else {
                Column::Others
            }
        },
    }
}

/// The orders of each column.
#[derive(Debug)]
pub struct Columns {
    pub bought: Vec<String>,
    pub sold: Vec<String>,
    pub others: Vec<String>,
}

/// The orders of a list that stand in a column, in the order of the list. An order that is
/// not known stands nowhere.
pub open spec fn in_column(s: StateView, ids: Seq<Seq<char>>, column: Column) -> Seq<Seq<char>> {
    ids.filter(
        |id: Seq<char>| s.orders.contains_key(id) && column_spec(s.orders[id]) == column,
    )
}

/// Picking from a list with one more member.
proof fn lemma_in_column_step(s: StateView, ids: Seq<Seq<char>>, i: int, column: Column)
    requires
        0 <= i < ids.len(),
    ensures
        in_column(s, ids.take(i + 1), column) == (if s.orders.contains_key(ids[i])
            && column_spec(s.orders[ids[i]]) == column {
            in_column(s, ids.take(i), column).push(ids[i])
        } else {
            in_column(s, ids.take(i), column)
        }),
{
    reveal(Seq::filter);
    assert(ids.take(i + 1).drop_last() =~= ids.take(i));
    assert(ids.take(i + 1).last() == ids[i]);
}

/// Sorts orders into columns.
pub fn order_columns(state: &AppState, ids: &Vec<String>) -> (r: Columns)
    ensures
        text::texts(r.bought@) == in_column(state@, text::texts(ids@), Column::Bought),
        text::texts(r.sold@) == in_column(state@, text::texts(ids@), Column::Sold),
        text::texts(r.others@) == in_column(state@, text::texts(ids@), Column::Others),
{
    let ghost keys = text::texts(ids@);
    let mut bought: Vec<String> = Vec::new();
    let mut sold: Vec<String> = Vec::new();
    let mut others: Vec<String> = Vec::new();
    let mut i: usize = 0;
    proof {
        reveal(Seq::filter);
        assert(keys.take(0) =~= Seq::empty());
        assert(text::texts(bought@) =~= Seq::empty());
        assert(text::texts(sold@) =~= Seq::empty());
        assert(text::texts(others@) =~= Seq::empty());
    }
    while i < ids.len()
        invariant
            i <= ids.len(),
            keys == text::texts(ids@),
            text::texts(bought@) == in_column(state@, keys.take(i as int), Column::Bought),
            text::texts(sold@) == in_column(state@, keys.take(i as int), Column::Sold),
            text::texts(others@) == in_column(state@, keys.take(i as int), Column::Others),
        decreases ids.len() - i,
    {
        proof {
            assert(keys[i as int] == ids@[i as int]@);
            lemma_in_column_step(state@, keys, i as int, Column::Bought);
            lemma_in_column_step(state@, keys, i as int, Column::Sold);
            lemma_in_column_step(state@, keys, i as int, Column::Others);
        }
        let ghost (b, s, o) = (text::texts(bought@), text::texts(sold@), text::texts(others@));
        if let Some(order) = state.order(ids[i].as_str()) {
            match column_of(&order) {
                Column::Bought => {
                    bought.push(ids[i].clone());
                    assert(text::texts(bought@) =~= b.push(keys[i as int]));
                },
                Column::Sold => {
                    sold.push(ids[i].clone());
                    assert(text::texts(sold@) =~= s.push(keys[i as int]));
                },
                Column::Others => {
                    others.push(ids[i].clone());
                    assert(text::texts(others@) =~= o.push(keys[i as int]));
                },
            }
        }
        i = i + 1;
    }
    assert(keys.take(i as int) =~= keys);
    Columns { bought, sold, others }
}

/// Every known order of a list stands in exactly one column.
pub proof fn law_every_order_has_one_column(s: StateView, ids: Seq<Seq<char>>, id: Seq<char>, column: Column)
    requires
        ids.contains(id),
        s.orders.contains_key(id),
    ensures
        in_column(s, ids, column).contains(id) <==> column == column_spec(s.orders[id]),
{
    crate::listing::lemma_filter_members(
        ids,
        |id: Seq<char>| s.orders.contains_key(id) && column_spec(s.orders[id]) == column,
    );
}

/// The look of a card.
#[derive(Clone, Copy, Debug, PartialEq, Eq, Structural)]
pub enum CardTone {
    Canceled,
    Failed,
    BuyUp,
    BuyDown,
    Sell,
    Plain,
}

/// The look that the small letters of side and token give to a card in trade.
pub open spec fn side_tone(side: Seq<char>, token: Seq<char>) -> CardTone {
    if side == "buy"@ && token == "up"@ {
        CardTone::BuyUp
    } else if side == "buy"@ && token == "down"@ {
        CardTone::BuyDown
    } else if side == "sell"@ {
        CardTone::Sell
    } else {
        CardTone::Plain
    }
}

/// The look of a card: by the status, and else by side and token.
pub open spec fn tone_spec(order: OrderView) -> CardTone {
    if order.status is Canceled {
        CardTone::Canceled
    } else if order.status is Failed {
        CardTone::Failed
    } else {
        side_tone(text::lowercase_of(order.side), text::lowercase_of(order.token))
    }
}

/// The look that the small letters of side and token give to a card in trade.
pub fn tone_of_side(side: &str, token: &str) -> (r: CardTone)
    ensures
        r == side_tone(side@, token@),
{
    if same_text(side, "buy") && same_text(token, "up") {
        CardTone::BuyUp
    } else if same_text(side, "buy") && same_text(token, "down") {
        CardTone::BuyDown
    } else if same_text(side, "sell") {
        CardTone::Sell
    } else {
        CardTone::Plain
    }
}

/// The look of a card.
pub fn card_tone(order: &TrackedOrder) -> (r: CardTone)
    ensures
        r == tone_spec(order@),
{
    match order.status {
        LocalOrderStatus::Canceled => CardTone::Canceled,
        LocalOrderStatus::Failed(_) => CardTone::Failed,
        _ => {
            let side = lowercase(order.side.as_str());
            let token = lowercase(order.token.as_str());
            tone_of_side(side.as_str(), token.as_str())
        },
    }
}

/// Whether an order can still be cancelled.
pub fn can_cancel(order: &TrackedOrder) -> (r: bool)
    ensures
        r == order@.status.is_open(),
{
    order.status.is_open()
}

/// Whether what was bought can be sold from the card: something was, on the side of buying.
pub open spec fn sellable(order: OrderView) -> bool {
    order.status.has_fill() && text::same_ignoring_case(order.side, "buy"@)
}

/// Whether what was bought can be sold from the card.
pub fn can_sell(order: &TrackedOrder) -> (r: bool)
    ensures
        r == sellable(order@),
{
    order.status.has_fill() && equal_ignoring_case(order.side.as_str(), "buy")
}

/// An order that was cancelled, failed or is fully filled is not offered for cancelling, and
/// what is offered for selling stands in the column of what was bought.
pub proof fn law_buttons_fit_the_order(order: OrderView)
    ensures
        order.status is Canceled || order.status is Failed || order.status is FullyFilled
            ==> !order.status.is_open(),
        sellable(order) ==> column_spec(order) == Column::Bought,
{
}

/// A value, or another where there is none.
pub open spec fn or_else(value: Option<Seq<char>>, other: Seq<char>) -> Seq<char> {
    match value {
        Some(v) => v,
        None => other,
    }
}

/// The headline of a card: side, token, price and size, as executed where that is known.
pub open spec fn headline_spec(order: OrderView) -> Seq<char> {
    text::uppercase_of(order.side) + " "@ + text::uppercase_of(order.token) + " @ "@ + or_else(
        order.executed_price,
        order.price,
    ) + " x "@ + or_else(order.executed_size, order.size)
}

/// The headline of a card.
pub fn headline(order: &TrackedOrder) -> (r: String)
    ensures
        r@ == headline_spec(order@),
{
    let price = match &order.executed_price {
        Some(p) => p.as_str(),
        None => order.price.as_str(),
    };
    let size = match &order.executed_size {
        Some(s) => s.as_str(),
        None => order.size.as_str(),
    };
    let side = uppercase(order.side.as_str());
    let token = uppercase(order.token.as_str());
    side.concat(" ").concat(token.as_str()).concat(" @ ").concat(price).concat(" x ").concat(size)
}

/// The headline of a window.
pub fn window_headline(timestamp_5m: u64, slug: &str, orders: u64) -> (r: String)
    ensures
        r@ == "WINDOW "@ + decimal::digits(timestamp_5m as nat) + " | "@ + slug@ + " | ORDERS "@
            + decimal::digits(orders as nat),
{
    let ts = print_number(timestamp_5m);
    let count = print_number(orders);
    "WINDOW ".to_owned().concat(ts.as_str()).concat(" | ").concat(slug).concat(
        " | ORDERS ",
    ).concat(count.as_str())
}

/// Sells at the price and the size that stand on the card. No further sale follows.
pub fn limit_exit(order: &TrackedOrder, window_ts: u64) -> (r: UiCommand)
    ensures
        r@ == (CommandView::PlaceLimit {
            side: "sell"@,
            token: order@.token,
            price: order@.inline_sell_price,
            size: order@.inline_sell_size,
            rapid_price: "0"@,
            window_ts,
        }),
{
    UiCommand::PlaceLimit {
        side: "sell".to_owned(),
        token: order.token.clone(),
        price: order.inline_sell_price.clone(),
        size: order.inline_sell_size.clone(),
        rapid_price: "0".to_owned(),
        window_ts,
    }
}

/// Sells the size that stands on the card at the market, as far as it goes at once.
pub fn market_exit(order: &TrackedOrder, window_ts: u64) -> (r: UiCommand)
    ensures
        r@ == (CommandView::PlaceMarket {
            side: "sell"@,
            token: order@.token,
            usdc: None,
            shares: Some(order@.inline_sell_size),
            order_type: Some("FAK"@),
            window_ts,
        }),
{
    UiCommand::PlaceMarket {
        side: "sell".to_owned(),
        token: order.token.clone(),
        usdc: None,
        shares: Some(order.inline_sell_size.clone()),
        order_type: Some("FAK".to_owned()),
        window_ts,
    }
}

/// Cancels the order of a card.
pub fn cancel_order(order: &TrackedOrder, window_ts: u64) -> (r: UiCommand)
    ensures
        r@ == (CommandView::CancelIndividual { order_id: order@.id, window_ts }),
{
    UiCommand::CancelIndividual { order_id: order.id.clone(), window_ts }
}

/// The column of an order: what was cancelled or failed stands with the others, whatever its side;
/// a buy stands with what was bought and a sale with what was sold.
pub proof fn law_column_follows_the_side(order: OrderView)
    ensures
        ({
            let gone = order.status is Canceled || order.status is Failed;
            let buy = text::same_ignoring_case(order.side, "buy"@);
            let sell = text::same_ignoring_case(order.side, "sell"@);
            &&& column_spec(order) is Bought <==> !gone && buy
            &&& column_spec(order) is Sold <==> !gone && sell
            &&& column_spec(order) is Others <==> gone || (!buy && !sell)
        }),
{
    reveal_strlit("buy");
    reveal_strlit("sell");
}

/// A column lists, in the order of the list, the orders of the list that stand in it, and no other.
pub proof fn law_column_lists_its_orders(
    s: StateView,
    ids: Seq<Seq<char>>,
    column: Column,
    id: Seq<char>,
)
    ensures
        in_column(s, ids, column).contains(id) <==> ids.contains(id) && s.orders.contains_key(id)
            && column_spec(s.orders[id]) == column,
        ids.no_duplicates() ==> in_column(s, ids, column).no_duplicates(),
{
    crate::listing::lemma_filter_members(
        ids,
        |id: Seq<char>| s.orders.contains_key(id) && column_spec(s.orders[id]) == column,
    );
}

/// The look of a card: its own for a cancelled and for a failed order; else by what it buys or
/// sells.
pub proof fn law_look_follows_status_side_and_token(order: OrderView)
    ensures
        ({
            let side = text::lowercase_of(order.side);
            let token = text::lowercase_of(order.token);
            let tone = tone_spec(order);
            let live = !(order.status is Canceled) && !(order.status is Failed);
            &&& tone is Canceled <==> order.status is Canceled
            &&& tone is Failed <==> order.status is Failed
            &&& tone is BuyUp <==> live && side == "buy"@ && token == "up"@
            &&& tone is BuyDown <==> live && side == "buy"@ && token == "down"@
            &&& tone is Sell <==> live && side == "sell"@
        }),
{
    reveal_strlit("buy");
    reveal_strlit("sell");
    reveal_strlit("up");
    reveal_strlit("down");
    assert("buy"@.len() != "sell"@.len() && "up"@.len() != "down"@.len());
}

/// A card offers to sell exactly what a buy order holds: one that is partly or fully filled, or
/// whose trade is open or confirmed.
pub proof fn law_card_sells_filled_buys(order: OrderView)
    ensures
        sellable(order) <==> text::same_ignoring_case(order.side, "buy"@) && (order.status is
            PartiallyFilled || order.status is FullyFilled || order.status is TradeOpen
            || order.status is TradeConfirmed),
{
}

/// The headline shows the executed price and size where they are known, and else those that were
/// asked for.
pub proof fn law_headline_prefers_what_was_executed(order: OrderView)
    ensures
        ({
            let front = text::uppercase_of(order.side) + " "@ + text::uppercase_of(order.token)
                + " @ "@;
            let price = if order.executed_price is Some { order.executed_price->0 } else {
                order.price
            };
            let size = if order.executed_size is Some { order.executed_size->0 } else {
                order.size
            };
            headline_spec(order) == front + price + " x "@ + size
        }),
{
}

} // verus!

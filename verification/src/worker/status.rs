//! Order status updates: from the exchange's answer to an event.

use vstd::prelude::*;
use crate::decimal;
use crate::decimal::{
    add_decimals, decimal_below, multiply_decimals, print_decimal, truncate_decimal, Dec,
};
use crate::events::{AppEvent, EventView};
use crate::state::{AppState, LocalOrderStatus, StateView, StatusView, TradeStatus};
use crate::tables;
use crate::text;
use crate::text::copy_texts;

verus! {

/// The state of an order at the exchange.
#[derive(Debug)]
pub enum ExchangeOrderStatus {
    Live,
    Matched,
    Canceled,
    /// A state that the exchange names in words of its own.
    Unknown(String),
    /// Any other state.
    Other,
}

/// What the exchange says of an order.
#[derive(Debug)]
pub struct OpenOrderInfo {
    pub status: ExchangeOrderStatus,
    pub size_matched: Dec,
    pub original_size: Dec,
    pub price: Dec,
    pub associate_trades: Vec<String>,
}

impl OpenOrderInfo {
    /// The sizes and the price are amounts.
    pub open spec fn wf(self) -> bool {
        self.size_matched.wf() && self.original_size.wf() && self.price.wf()
    }
}

/// The part of an order's size from which on it counts as filled: all but half a percent.
pub open spec fn fill_share() -> Dec {
    Dec { mantissa: 995, scale: 3 }
}

/// Whether a size is at least that part of the order's size.
pub open spec fn reaches_fill(size: Dec, original_size: Dec) -> bool {
    !size.below(decimal::decimal_product(original_size, fill_share())->0)
}

/// Whether a trade is known and confirmed.
pub open spec fn confirmed(s: StateView, trade: Seq<char>) -> bool {
    s.trades.contains_key(trade) && s.trades[trade].status == TradeStatus::Confirmed
}

/// The sizes of the confirmed trades among the first `n` of a list, added up from the left;
/// nothing where a sum leaves the range of amounts.
pub open spec fn confirmed_total(s: StateView, list: Seq<Seq<char>>, n: nat) -> Option<Dec>
    decreases n,
{
    if n == 0 {
        Some(Dec::zero_spec())
    } else {
        match confirmed_total(s, list, (n - 1) as nat) {
            None => None,
            Some(sum) => if confirmed(s, list[n - 1]) {
                decimal::decimal_sum(sum, s.trades[list[n - 1]].size)
            } else {
                Some(sum)
            },
        }
    }
}

/// The confirmed size of an order's trades.
pub open spec fn confirmed_size(s: StateView, info: OpenOrderInfo) -> Option<Dec> {
    let list = text::texts(info.associate_trades@);
    confirmed_total(s, list, list.len())
}

/// Whether the confirmed trades make up the order.
pub open spec fn trade_confirmed(s: StateView, info: OpenOrderInfo, check_trades: bool) -> bool {
    check_trades && info.associate_trades@.len() > 0 && reaches_fill(
        confirmed_size(s, info)->0,
        info.original_size,
    )
}

/// The status that the terminal gives the order. Only a matched order can be filled, and only
/// a filled one can be confirmed; a state that the terminal does not know counts as cancelled.
pub open spec fn local_status(info: OpenOrderInfo, is_trade_confirmed: bool) -> StatusView {
    let partial = StatusView::PartiallyFilled { filled: decimal::decimal_text(info.size_matched) };
    match info.status {
        ExchangeOrderStatus::Live => if info.size_matched.mantissa > 0 {
            partial
        } else {
            StatusView::Open
        },
        ExchangeOrderStatus::Matched => if !reaches_fill(info.size_matched, info.original_size) {
            partial
        } else if is_trade_confirmed {
            StatusView::TradeConfirmed
        } else {
            StatusView::FullyFilled
        },
        _ => StatusView::Canceled,
    }
}

/// The event for what the exchange said of an order.
pub open spec fn status_event(
    s: StateView,
    order_id: Seq<char>,
    info: OpenOrderInfo,
    check_trades: bool,
) -> EventView {
    let size = decimal::decimal_text(info.size_matched.truncated(2));
    let filled = info.size_matched.mantissa > 0;
    let done = trade_confirmed(s, info, check_trades);
    EventView::OrderStatusUpdated {
        order_id,
        status: local_status(info, done),
        size_matched: size,
        executed_price: if filled {
            Some(decimal::decimal_text(info.price.truncated(4)))
        } else {
            None
        },
        executed_size: if filled { Some(size) } else { None },
        is_trade_fully_confirmed: done,
        associate_trades: text::texts(info.associate_trades@),
    }
}

/// Whether the sizes that have to be added up stay within the range of amounts.
pub open spec fn countable(s: StateView, info: OpenOrderInfo, check_trades: bool) -> bool {
    check_trades && info.associate_trades@.len() > 0 ==> confirmed_size(s, info) is Some
}

/// Adds up the confirmed trades of an order.
fn add_confirmed(state: &AppState, info: &OpenOrderInfo) -> (r: Option<Dec>)
    requires
        state@.wf(),
    ensures
        r == confirmed_size(state@, *info),
        r is Some ==> r->0.wf(),
{
    let ghost list = text::texts(info.associate_trades@);
    let mut sum = Dec { mantissa: 0, scale: 0 };
    let mut i: usize = 0;
    while i < info.associate_trades.len()
        invariant
            state@.wf(),
            i <= info.associate_trades.len(),
            list == text::texts(info.associate_trades@),
            confirmed_total(state@, list, i as nat) == Some(sum),
            sum.wf(),
        decreases info.associate_trades.len() - i,
    {
        assert(list[i as int] == info.associate_trades@[i as int]@);
        let counted = match tables::get_trade(&state.trades, info.associate_trades[i].as_str()) {
            Some(trade) => if trade.status == TradeStatus::Confirmed {
                Some(trade.size)
            } else {
                None
            },
            None => None,
        };
        if let Some(size) = counted {
            match add_decimals(sum, size) {
                Some(next) => {
                    sum = next;
                },
                None => {
                    proof {
                        lemma_total_stays_none(state@, list, (i + 1) as nat, list.len());
                    }
                    return None;
                },
            }
        }
        i = i + 1;
    }
    Some(sum)
}

/// Once a sum has left the range of amounts, no later one is back in it.
proof fn lemma_total_stays_none(s: StateView, list: Seq<Seq<char>>, m: nat, n: nat)
    requires
        m <= n,
        confirmed_total(s, list, m) is None,
    ensures
        confirmed_total(s, list, n) is None,
    decreases n,
{
    if m < n {
        lemma_total_stays_none(s, list, m, (n - 1) as nat);
    }
}

/// Whether a size makes the order count as filled.
fn counts_as_filled(size: Dec, original_size: Dec) -> (r: bool)
    requires
        size.wf(),
        original_size.wf(),
    ensures
        r == reaches_fill(size, original_size),
{
    proof {
        assert(decimal::pow10(3) == 1000) by {
            reveal_with_fuel(decimal::pow10, 4);
        }
    }
    match multiply_decimals(original_size, Dec { mantissa: 995, scale: 3 }) {
        Some(floor) => !decimal_below(size, floor),
        None => false,
    }
}

/// The event for what the exchange said of an order; none where the order is not known any
/// more.
pub fn build_status_event(
    state: &AppState,
    order_id: &str,
    info: &OpenOrderInfo,
    check_trades: bool,
) -> (r: Option<AppEvent>)
    requires
        state@.wf(),
        info.wf(),
        countable(state@, *info, check_trades),
    ensures
        r is Some <==> state@.orders.contains_key(order_id@),
        r is Some ==> r->0@ == status_event(state@, order_id@, *info, check_trades),
{
    let is_fully_filled = counts_as_filled(info.size_matched, info.original_size);
    let is_trade_confirmed = if check_trades && info.associate_trades.len() > 0 {
        match add_confirmed(state, info) {
            Some(size) => counts_as_filled(size, info.original_size),
            None => false,
        }
    } else {
        false
    };
    let has_match = decimal_below(Dec { mantissa: 0, scale: 0 }, info.size_matched);
    proof {
        decimal::lemma_positive(info.size_matched);
    }
    let status = match &info.status {
        ExchangeOrderStatus::Live => {
            if has_match {
                LocalOrderStatus::PartiallyFilled { filled: print_decimal(info.size_matched) }
            } else {
                LocalOrderStatus::Open
            }
        },
        ExchangeOrderStatus::Matched => {
            if is_fully_filled {
                if is_trade_confirmed {
                    LocalOrderStatus::TradeConfirmed
                } else {
                    LocalOrderStatus::FullyFilled
                }
            } else {
                LocalOrderStatus::PartiallyFilled { filled: print_decimal(info.size_matched) }
            }
        },
        ExchangeOrderStatus::Canceled => LocalOrderStatus::Canceled,
        ExchangeOrderStatus::Unknown(_) => LocalOrderStatus::Canceled,
        ExchangeOrderStatus::Other => LocalOrderStatus::Canceled,
    };
    let size_matched = print_decimal(truncate_decimal(info.size_matched, 2));
    let (executed_price, executed_size) = if has_match {
        (Some(print_decimal(truncate_decimal(info.price, 4))), Some(size_matched.clone()))
    } else {
        (None, None)
    };
    if tables::get_order(&state.orders, order_id).is_none() {
        return None;
    }
    Some(
        AppEvent::OrderStatusUpdated {
            order_id: order_id.to_owned(),
            status,
            size_matched,
            executed_price,
            executed_size,
            is_trade_fully_confirmed: is_trade_confirmed,
            associate_trades: copy_texts(&info.associate_trades),
        },
    )
}

/// [`build_status_event`], with no answer at all where the confirmed sizes add up to more
/// than an amount can be.
pub fn try_build_status_event(
    state: &AppState,
    order_id: &str,
    info: &OpenOrderInfo,
    check_trades: bool,
) -> (r: Option<Option<AppEvent>>)
    requires
        state@.wf(),
        info.wf(),
    ensures
        r is Some <==> countable(state@, *info, check_trades),
        r is Some ==> (r->0 is Some <==> state@.orders.contains_key(order_id@)),
        r is Some && r->0 is Some ==> r->0->0@ == status_event(
            state@,
            order_id@,
            *info,
            check_trades,
        ),
{
    if check_trades && info.associate_trades.len() > 0 && add_confirmed(state, info).is_none() {
        return None;
    }
    Some(build_status_event(state, order_id, info, check_trades))
}

/// An order is reported as confirmed only if it is matched and filled, and its confirmed
/// trades make it up.
pub proof fn law_confirmed_is_filled(
    s: StateView,
    order_id: Seq<char>,
    info: OpenOrderInfo,
    check_trades: bool,
)
    ensures
        status_event(s, order_id, info, check_trades)->status is TradeConfirmed <==> (
        info.status is Matched && reaches_fill(info.size_matched, info.original_size)
            && trade_confirmed(s, info, check_trades)),
        !check_trades ==> !(status_event(s, order_id, info, check_trades)->status is TradeConfirmed),
{
}

/// A status update carries an executed price and size exactly where something is matched.
pub proof fn law_executed_iff_matched(
    s: StateView,
    order_id: Seq<char>,
    info: OpenOrderInfo,
    check_trades: bool,
)
    ensures
        ({
            let event = status_event(s, order_id, info, check_trades);
            &&& event->OrderStatusUpdated_executed_price is Some <==> info.size_matched.mantissa > 0
            &&& event->OrderStatusUpdated_executed_size is Some <==> info.size_matched.mantissa > 0
        }),
{
}

/// A status update says what the exchange matched: its size is the text of the matched size, cut
/// off after two places, and so less than a hundredth below it and never above it. The executed
/// size is the same text, and the executed price that of the price after four places, wherever
/// something is matched. The order and its trades are those that were asked for.
pub proof fn law_update_tells_what_was_matched(
    s: StateView,
    order_id: Seq<char>,
    info: OpenOrderInfo,
    check_trades: bool,
)
    requires
        info.wf(),
        info.size_matched.mantissa >= 0,
        info.price.mantissa >= 0,
    ensures
        (status_event(s, order_id, info, check_trades) matches EventView::OrderStatusUpdated {
            order_id: id,
            size_matched,
            executed_price,
            executed_size,
            associate_trades,
            ..
        } && {
            &&& id == order_id
            &&& exists|cut: Dec| #[trigger]
                decimal::decimal_text(cut) == size_matched && decimal::cut_from(
                    cut,
                    info.size_matched,
                    2,
                )
            &&& info.size_matched.mantissa > 0 ==> executed_size == Some(size_matched)
                && executed_price is Some && exists|cut: Dec| #[trigger]
                decimal::decimal_text(cut) == executed_price->0 && decimal::cut_from(
                    cut,
                    info.price,
                    4,
                )
            &&& info.size_matched.mantissa == 0 ==> executed_size is None && executed_price is None
            &&& associate_trades.len() == info.associate_trades@.len()
            &&& forall|i: int|
                0 <= i < associate_trades.len() ==> (#[trigger] associate_trades[i])
                    == info.associate_trades@[i]@
        }),
{
    decimal::law_cut_is_close(info.size_matched, 2);
    decimal::law_cut_is_close(info.price, 4);
    let size = info.size_matched.truncated(2);
    let price = info.price.truncated(4);
    assert(decimal::decimal_text(size) == decimal::decimal_text(size));
    assert(decimal::decimal_text(price) == decimal::decimal_text(price));
}

/// The status of an order follows the exchange's: a live order is open until something is
/// matched and partly filled from then on; a matched one is partly filled until 99.5 percent of
/// it are matched; every other state is a cancelled order. What is filled is said in full.
pub proof fn law_status_follows_the_exchange(
    s: StateView,
    order_id: Seq<char>,
    info: OpenOrderInfo,
    check_trades: bool,
)
    ensures
        ({
            let status = status_event(s, order_id, info, check_trades)->status;
            let limit = decimal::decimal_product(
                info.original_size,
                Dec { mantissa: 995, scale: 3 },
            )->0;
            &&& info.status is Live && info.size_matched.mantissa <= 0 <==> status is Open
            &&& info.status is Live && info.size_matched.mantissa > 0 || info.status is Matched
                && info.size_matched.below(limit) <==> status is PartiallyFilled
            &&& status matches StatusView::PartiallyFilled { filled } ==> filled
                == decimal::decimal_text(info.size_matched)
            &&& info.status is Matched && !info.size_matched.below(limit) <==> status is FullyFilled
                || status is TradeConfirmed
            &&& !(info.status is Live) && !(info.status is Matched) <==> status is Canceled
            &&& !(status is TradeOpen) && !(status is Failed)
        }),
{
}

/// Where no trade of an order is confirmed, nothing of it is, and where a trade that is confirmed
/// stands at the end of the list, its size is added to those before it.
pub proof fn law_confirmed_sizes_add_up(s: StateView, list: Seq<Seq<char>>, trade: Seq<char>)
    ensures
        ({
            let n = list.len();
            let before = confirmed_total(s, list, n);
            let after = confirmed_total(s, list.push(trade), (n + 1) as nat);
            &&& (forall|i: int|
                0 <= i < n ==> !(s.trades.contains_key(#[trigger] list[i])
                    && s.trades[list[i]].status == TradeStatus::Confirmed)) ==> before == Some(
                Dec { mantissa: 0, scale: 0 },
            )
            &&& before is Some && s.trades.contains_key(trade) && s.trades[trade].status
                == TradeStatus::Confirmed ==> after == decimal::decimal_sum(
                before->0,
                s.trades[trade].size,
            )
            &&& !(s.trades.contains_key(trade) && s.trades[trade].status == TradeStatus::Confirmed)
                ==> after == before
        }),
{
    let n = list.len();
    lemma_total_of_beginning(s, list, list.push(trade), n);
    if forall|i: int|
        0 <= i < n ==> !(s.trades.contains_key(#[trigger] list[i]) && s.trades[list[i]].status
            == TradeStatus::Confirmed) {
        lemma_nothing_confirmed(s, list, n);
    }
}

/// The total of the first trades of a list is not changed by those behind them.
proof fn lemma_total_of_beginning(s: StateView, a: Seq<Seq<char>>, b: Seq<Seq<char>>, n: nat)
    requires
        n <= a.len(),
        n <= b.len(),
        forall|i: int| 0 <= i < n ==> #[trigger] a[i] == b[i],
    ensures
        confirmed_total(s, a, n) == confirmed_total(s, b, n),
    decreases n,
{
    if n > 0 {
        lemma_total_of_beginning(s, a, b, (n - 1) as nat);
        assert(a[n - 1] == b[n - 1]);
    }
}

/// Without a confirmed trade the total is zero.
proof fn lemma_nothing_confirmed(s: StateView, list: Seq<Seq<char>>, n: nat)
    requires
        n <= list.len(),
        forall|i: int| 0 <= i < list.len() ==> !confirmed(s, #[trigger] list[i]),
    ensures
        confirmed_total(s, list, n) == Some(Dec { mantissa: 0, scale: 0 }),
    decreases n,
{
    if n > 0 {
        lemma_nothing_confirmed(s, list, (n - 1) as nat);
        assert(!confirmed(s, list[n - 1]));
    }
}

/// An order is fully confirmed exactly where its trades are looked at, there are some, and the
/// sizes of those that are confirmed add up to at least 99.5 percent of the order.
pub proof fn law_confirmed_trades_make_up_the_order(
    s: StateView,
    order_id: Seq<char>,
    info: OpenOrderInfo,
    check_trades: bool,
)
    ensures
        ({
            let list = Seq::new(info.associate_trades@.len(), |i: int| info.associate_trades@[i]@);
            let total = confirmed_total(s, list, list.len());
            let limit = decimal::decimal_product(
                info.original_size,
                Dec { mantissa: 995, scale: 3 },
            )->0;
            let looked_at = check_trades && info.associate_trades@.len() > 0;
            &&& (status_event(s, order_id, info, check_trades) matches EventView::OrderStatusUpdated {
                is_trade_fully_confirmed,
                ..
            } && (is_trade_fully_confirmed <==> looked_at && !total->0.below(limit)))
            &&& countable(s, info, check_trades) <==> !looked_at || total is Some
        }),
{
    let list = Seq::new(info.associate_trades@.len(), |i: int| info.associate_trades@[i]@);
    assert(text::texts(info.associate_trades@) =~= list);
}

} // verus!

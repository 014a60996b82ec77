//! Automatic sale of bought orders.
//!
//! The loop picks candidates, claims each one in place, and has a sell order placed for it.
//! The claim is a direct write and no event: events are applied later, and a second round of
//! the loop could otherwise claim the same order again.

use vstd::prelude::*;
use crate::decimal;
use crate::decimal::{decimal_below, print_decimal, read_amount, remaining_amount, Dec};
use crate::events::{AppEvent, EventView};
use crate::reducer;
use crate::state::{
    AppState, NotificationKind, OrderView, RapidSellState, RapidSellView, StateView, TrackedOrder,
};
use crate::tables;
use crate::text;
use crate::text::equal_ignoring_case;
use crate::worker::commands::{notify, LimitRequest, OrderReply};

verus! {

/// The number of failed attempts that are tried again; the next failure is final.
pub const RAPID_SELL_MAX_ATTEMPTS: u32 = 8;

/// The seconds to wait after the failure of an attempt.
pub open spec fn backoff_secs(attempt: u32) -> u64 {
    if attempt == 0 {
        1
    } else if attempt == 1 {
        2
    } else if attempt == 2 {
        5
    } else if attempt == 3 {
        10
    } else if attempt == 4 {
        20
    } else if attempt == 5 {
        30
    } else if attempt == 6 {
        60
    } else {
        120
    }
}

/// The seconds to wait after the failure of an attempt.
pub fn rapid_sell_backoff(attempt: u32) -> (r: u64)
    ensures
        r == backoff_secs(attempt),
{
    match attempt {
        0 => 1,
        1 => 2,
        2 => 5,
        3 => 10,
        4 => 20,
        5 => 30,
        6 => 60,
        _ => 120,
    }
}

/// The wait never gets shorter, and is between one second and two minutes.
pub proof fn law_backoff_grows(earlier: u32, later: u32)
    requires
        earlier <= later,
    ensures
        1 <= backoff_secs(earlier) <= backoff_secs(later) <= 120,
{
}

/// Where the sale stands after the failure of an attempt at the time `now` (milliseconds).
pub open spec fn retry_state(attempt: u32, reason: Seq<char>, now: u64) -> RapidSellView {
    if attempt >= RAPID_SELL_MAX_ATTEMPTS {
        RapidSellView::PermanentlyFailed { attempts: attempt, reason }
    } else {
        RapidSellView::RetryScheduled {
            attempt: (attempt + 1) as u32,
            retry_at: (now + backoff_secs(attempt) * 1000) as u64,
            reason,
        }
    }
}

/// Where the sale stands after the failure of an attempt at the time `now` (milliseconds).
pub fn compute_retry_state(attempt: u32, reason: String, now: u64) -> (r: RapidSellState)
    requires
        now + 120_000 <= u64::MAX,
    ensures
        r@ == retry_state(attempt, reason@, now),
{
    if attempt >= RAPID_SELL_MAX_ATTEMPTS {
        return RapidSellState::PermanentlyFailed { attempts: attempt, reason };
    }
    RapidSellState::RetryScheduled {
        attempt: attempt + 1,
        retry_at: now + rapid_sell_backoff(attempt) * 1000,
        reason,
    }
}

/// The number of the attempt that follows `failures` failures of a sale that starts idle;
/// none once the sale is given up.
pub open spec fn attempt_after(failures: nat) -> Option<u32>
    decreases failures,
{
    if failures == 0 {
        Some(0u32)
    } else {
        match attempt_after((failures - 1) as nat) {
            None => None,
            Some(attempt) => match retry_state(attempt, Seq::empty(), 0) {
                RapidSellView::RetryScheduled { attempt, .. } => Some(attempt),
                _ => None,
            },
        }
    }
}

/// A sale is tried at most nine times: each of the first eight failures leads to another
/// attempt, and the ninth is final.
pub proof fn law_attempts_are_bounded(failures: nat)
    ensures
        failures <= RAPID_SELL_MAX_ATTEMPTS <==> attempt_after(failures) is Some,
        failures <= RAPID_SELL_MAX_ATTEMPTS ==> attempt_after(failures) == Some(failures as u32),
    decreases failures,
{
    if failures > 0 {
        law_attempts_are_bounded((failures - 1) as nat);
    }
}

/// What is left to sell of an order.
pub open spec fn unsold(order: OrderView) -> Option<Dec> {
    decimal::remainder_of(
        decimal::amount_of(order.size_matched),
        decimal::amount_of(order.rapid_sell_size),
    )
}

/// Whether an order has been bought, at least in part.
pub open spec fn bought(order: OrderView) -> bool {
    text::same_ignoring_case(order.side, "buy"@) && order.status.has_fill()
}

/// Whether the sale of an order may start at the time `now`.
pub open spec fn due(state: RapidSellView, now: u64) -> bool {
    match state {
        RapidSellView::Idle => true,
        RapidSellView::RetryScheduled { retry_at, .. } => retry_at <= now,
        _ => false,
    }
}

/// Whether an order is to be sold at the time `now`: bought, with enough left to sell, and
/// due.
pub open spec fn candidate(order: OrderView, now: u64) -> bool {
    bought(order) && !unsold(order)->0.below(reducer::sale_minimum()) && due(
        order.rapid_sell_state,
        now,
    )
}

/// Whether what is left of a bought order is within the range of amounts.
pub open spec fn measurable(order: OrderView) -> bool {
    bought(order) ==> unsold(order) is Some
}

/// Whether an order has been bought, at least in part.
fn is_bought(order: &TrackedOrder) -> (r: bool)
    ensures
        r == bought(order@),
{
    equal_ignoring_case(order.side.as_str(), "buy") && order.status.has_fill()
}

/// What is left to sell of an order; nothing where it leaves the range of amounts.
pub fn unsold_amount(order: &TrackedOrder) -> (r: Option<Dec>)
    ensures
        r == unsold(order@),
        r is Some ==> r->0.wf(),
{
    let matched: Dec = read_amount(order.size_matched.as_str());
    let sold: Dec = read_amount(order.rapid_sell_size.as_str());
    remaining_amount(matched, sold)
}

/// Whether an order is to be sold at the time `now`.
pub fn is_candidate(order: &TrackedOrder, now: u64) -> (r: bool)
    requires
        measurable(order@),
    ensures
        r == candidate(order@, now),
{
    if !is_bought(order) {
        return false;
    }
    match unsold_amount(order) {
        None => false,
        Some(rest) => {
            if decimal_below(rest, Dec { mantissa: 5, scale: 0 }) {
                return false;
            }
            match &order.rapid_sell_state {
                RapidSellState::Idle => true,
                RapidSellState::RetryScheduled { retry_at, .. } => *retry_at <= now,
                _ => false,
            }
        },
    }
}

/// The values of a list of orders.
pub open spec fn order_views(list: Seq<TrackedOrder>) -> Seq<OrderView> {
    Seq::new(list.len(), |i: int| list[i]@)
}

/// Whether a list holds exactly the orders of a state that are to be sold, each once.
pub open spec fn lists_candidates(s: StateView, now: u64, list: Seq<OrderView>) -> bool {
    &&& forall|i: int|
        0 <= i < list.len() ==> s.orders.contains_key((#[trigger] list[i]).id)
            && s.orders[list[i].id] == list[i] && candidate(list[i], now)
    &&& forall|i: int, j: int|
        0 <= i < j < list.len() ==> (#[trigger] list[i]).id != (#[trigger] list[j]).id
    &&& forall|id: Seq<char>| #[trigger]
        s.orders.contains_key(id) && candidate(s.orders[id], now) ==> list.contains(s.orders[id])
}

/// The orders to be sold at the time `now`, in no particular order; no answer where what is
/// left of some bought order leaves the range of amounts.
pub fn candidates(state: &AppState, now: u64) -> (r: Option<Vec<TrackedOrder>>)
    requires
        state@.wf(),
    ensures
        r is Some <==> forall|id: Seq<char>| #[trigger]
            state@.orders.contains_key(id) ==> measurable(state@.orders[id]),
        r is Some ==> lists_candidates(state@, now, order_views(r->0@)),
{
    let keys = tables::order_keys(&state.orders);
    let ghost ids = text::texts(keys@);
    let mut out: Vec<TrackedOrder> = Vec::new();
    let mut i: usize = 0;
    while i < keys.len()
        invariant
            state@.wf(),
            i <= keys.len(),
            ids == text::texts(keys@),
            ids.no_duplicates(),
            forall|id: Seq<char>| #[trigger] ids.contains(id) <==> state@.orders.contains_key(id),
            forall|k: int| 0 <= k < i ==> measurable(state@.orders[#[trigger] ids[k]]),
            forall|k: int|
                0 <= k < out.len() ==> state@.orders.contains_key((#[trigger] out@[k])@.id)
                    && state@.orders[out@[k]@.id] == out@[k]@ && candidate(out@[k]@, now),
            forall|k: int|
                0 <= k < out.len() ==> exists|m: int|
                    0 <= m < i && #[trigger] ids[m] == (#[trigger] out@[k])@.id,
            forall|k: int, m: int|
                0 <= k < m < out.len() ==> (#[trigger] out@[k])@.id != (#[trigger] out@[m])@.id,
            forall|m: int|
                0 <= m < i && candidate(state@.orders[#[trigger] ids[m]], now) ==> exists|k: int|
                    0 <= k < out.len() && (#[trigger] out@[k])@ == state@.orders[ids[m]],
        decreases keys.len() - i,
    {
        proof {
            assert(ids[i as int] == keys@[i as int]@);
            assert(ids.contains(ids[i as int]));
        }
        let ghost before = out@;
        if let Some(order) = tables::get_order(&state.orders, keys[i].as_str()) {
            if is_bought(&order) && unsold_amount(&order).is_none() {
                assert(!measurable(state@.orders[ids[i as int]]));
                return None;
            }
            let ghost item = order@;
            if is_candidate(&order, now) {
                out.push(order);
                proof {
                    assert(out@[before.len() as int]@ == item);
                    assert(item.id == ids[i as int]);
                    assert forall|k: int, m: int| 0 <= k < m < out.len() implies (
                    #[trigger] out@[k])@.id != (#[trigger] out@[m])@.id by {
                        if m == before.len() {
                            let j = choose|j: int|
                                0 <= j < i && #[trigger] ids[j] == (before[k])@.id;
                            assert(out@[k] == before[k]);
                            assert(ids[j] != ids[i as int]);
                        }
                    }
                }
            }
            proof {
                assert(state@.orders[ids[i as int]] == item);
                assert forall|m: int|
                    0 <= m < i + 1 && candidate(
                        state@.orders[#[trigger] ids[m]],
                        now,
                    ) implies exists|k: int|
                    0 <= k < out.len() && (#[trigger] out@[k])@ == state@.orders[ids[m]] by {
                    if m < i {
                        let k = choose|k: int|
                            0 <= k < before.len() && (#[trigger] before[k])@
                                == state@.orders[ids[m]];
                        assert(out@[k] == before[k]);
                    } else {
                        assert(out@[before.len() as int]@ == item);
                    }
                }
                assert forall|k: int| 0 <= k < out.len() implies exists|m: int|
                    0 <= m < i + 1 && #[trigger] ids[m] == (#[trigger] out@[k])@.id by {
                    if k < before.len() {
                        assert(out@[k] == before[k]);
                        let m = choose|m: int| 0 <= m < i && #[trigger] ids[m] == (before[k])@.id;
                        assert(ids[m] == out@[k]@.id);
                    } else {
                        assert(ids[i as int] == out@[k]@.id);
                    }
                }
            }
        }
        i = i + 1;
    }
    proof {
        let list = order_views(out@);
        assert forall|id: Seq<char>| #[trigger] state@.orders.contains_key(id) implies measurable(
            state@.orders[id],
        ) by {
            assert(ids.contains(id));
            let m = choose|m: int| 0 <= m < ids.len() && ids[m] == id;
            assert(ids[m] == id);
        }
        assert forall|id: Seq<char>| #[trigger]
            state@.orders.contains_key(id) && candidate(
                state@.orders[id],
                now,
            ) implies list.contains(state@.orders[id]) by {
            assert(ids.contains(id));
            let m = choose|m: int| 0 <= m < ids.len() && ids[m] == id;
            assert(ids[m] == id);
            let k = choose|k: int|
                0 <= k < out.len() && (#[trigger] out@[k])@ == state@.orders[ids[m]];
            assert(list[k] == state@.orders[id]);
        }
        assert forall|i: int| 0 <= i < list.len() implies state@.orders.contains_key(
            (#[trigger] list[i]).id,
        ) && state@.orders[list[i].id] == list[i] && candidate(list[i], now) by {
            assert(out@[i]@ == list[i]);
        }
        assert forall|i: int, j: int| 0 <= i < j < list.len() implies (#[trigger] list[i]).id != (
        #[trigger] list[j]).id by {
            assert(out@[i]@ == list[i]);
            assert(out@[j]@ == list[j]);
        }
    }
    Some(out)
}

/// The amount that is to be sold of a candidate; none where the order has no price to sell
/// at, or too little is left.
pub open spec fn sale_amount(order: OrderView) -> Option<Dec> {
    if decimal::amount_of(order.rapid_sell_price).mantissa > 0 && !unsold(order)->0.below(
        reducer::sale_minimum(),
    ) {
        unsold(order)
    } else {
        None
    }
}

/// The amount that is to be sold of a candidate.
pub fn plan_sale(order: &TrackedOrder) -> (r: Option<Dec>)
    requires
        unsold(order@) is Some,
    ensures
        r == sale_amount(order@),
        r is Some ==> r->0.wf(),
{
    let price: Dec = read_amount(order.rapid_sell_price.as_str());
    proof {
        decimal::lemma_positive(price);
    }
    match unsold_amount(order) {
        None => None,
        Some(amount) => {
            if !decimal_below(Dec { mantissa: 0, scale: 0 }, price) || decimal_below(
                amount,
                Dec { mantissa: 5, scale: 0 },
            ) {
                None
            } else {
                Some(amount)
            }
        },
    }
}

/// The attempt that a claim of an order at the time `now` starts; none where the order is
/// not there or its sale may not start.
pub open spec fn claim(s: StateView, id: Seq<char>, now: u64) -> Option<u32> {
    if !s.orders.contains_key(id) {
        None
    } else {
        match s.orders[id].rapid_sell_state {
            RapidSellView::Idle => Some(0u32),
            RapidSellView::RetryScheduled { attempt, retry_at, .. } => if retry_at <= now {
                Some(attempt)
            } else {
                None
            },
            _ => None,
        }
    }
}

/// The state with the sale of an order in flight.
pub open spec fn claimed(s: StateView, id: Seq<char>, attempt: u32, now: u64) -> StateView {
    StateView {
        orders: s.orders.insert(
            id,
            OrderView {
                rapid_sell_state: RapidSellView::InFlight { attempt, started_at: now },
                ..s.orders[id]
            },
        ),
        ..s
    }
}

/// Claims an order for sale, and says which attempt this is. A claim that fails changes
/// nothing.
pub fn acquire(state: &mut AppState, order_id: &String, now: u64) -> (r: Option<u32>)
    ensures
        r == claim(old(state)@, order_id@, now),
        r is Some ==> final(state)@ == claimed(old(state)@, order_id@, r->0, now),
        r is None ==> final(state)@ == old(state)@,
{
    match tables::get_order(&state.orders, order_id.as_str()) {
        None => None,
        Some(order) => {
            let attempt: u32 = match &order.rapid_sell_state {
                RapidSellState::Idle => 0,
                RapidSellState::RetryScheduled { attempt, retry_at, .. } => {
                    if *retry_at <= now {
                        *attempt
                    } else {
                        return None;
                    }
                },
                _ => return None,
            };
            let mut order = order;
            order.rapid_sell_state = RapidSellState::InFlight { attempt, started_at: now };
            tables::insert_order(&mut state.orders, order_id.clone(), order);
            Some(attempt)
        },
    }
}

/// A sale that has been started: how much is to be sold, and which attempt this is.
#[derive(Clone, Copy, Debug, PartialEq, Eq, Structural)]
pub struct SaleStart {
    pub amount: Dec,
    pub attempt: u32,
}

/// The sale that one round of the loop starts for a candidate; none where there is nothing
/// to sell, or the order cannot be claimed.
pub open spec fn started(s: StateView, order: OrderView, now: u64) -> Option<SaleStart> {
    match (sale_amount(order), claim(s, order.id, now)) {
        (Some(amount), Some(attempt)) => if unsold(order) is Some {
            Some(SaleStart { amount, attempt })
        } else {
            None
        },
        _ => None,
    }
}

/// Starts the sale of a candidate: plans it, and claims the order.
pub fn start_sale(state: &mut AppState, order: &TrackedOrder, now: u64) -> (r: Option<SaleStart>)
    ensures
        r == started(old(state)@, order@, now),
        r is Some ==> r->0.amount.wf() && final(state)@ == claimed(
            old(state)@,
            order.id@,
            r->0.attempt,
            now,
        ),
        r is None ==> final(state)@ == old(state)@,
{
    if unsold_amount(order).is_none() {
        return None;
    }
    match plan_sale(order) {
        None => None,
        Some(amount) => match acquire(state, &order.id, now) {
            Some(attempt) => Some(SaleStart { amount, attempt }),
            None => None,
        },
    }
}

/// The sell order of a sale: all of the amount, at the order's rapid-sell price.
pub fn sale_request(order: &TrackedOrder, amount: Dec) -> (r: LimitRequest)
    requires
        amount.wf(),
    ensures
        r.side@ == "sell"@,
        r.token@ == order@.token,
        r.price@ == order@.rapid_sell_price,
        r.size@ == decimal::decimal_text(amount),
{
    LimitRequest {
        side: "sell".to_owned(),
        token: order.token.clone(),
        price: order.rapid_sell_price.clone(),
        size: print_decimal(amount),
    }
}

/// A sale is never started for less than the smallest amount, nor without a price, nor for
/// more than is left of the fill.
pub proof fn law_started_sale_is_covered(s: StateView, order: OrderView, now: u64)
    requires
        started(s, order, now) is Some,
    ensures
        started(s, order, now)->0.amount == unsold(order)->0,
        !started(s, order, now)->0.amount.below(reducer::sale_minimum()),
        decimal::amount_of(order.rapid_sell_price).mantissa > 0,
{
}

/// An order that has been claimed cannot be claimed again, at any time, until an event moves
/// its sale on.
pub proof fn law_no_second_claim(s: StateView, id: Seq<char>, now: u64, later: u64)
    requires
        claim(s, id, now) is Some,
    ensures
        claim(claimed(s, id, claim(s, id, now)->0, now), id, later) is None,
{
}

/// A claim touches one order only, and of that order only the state of its sale.
pub proof fn law_claim_is_local(s: StateView, id: Seq<char>, now: u64, other: Seq<char>)
    requires
        claim(s, id, now) is Some,
        other != id,
    ensures
        ({
            let after = claimed(s, id, claim(s, id, now)->0, now);
            &&& after.orders.get(other) == s.orders.get(other)
            &&& after.orders[id].size_matched == s.orders[id].size_matched
            &&& after.orders[id].status == s.orders[id].status
            &&& after.version == s.version
            &&& s.wf() ==> after.wf()
        }),
{
}

/// An event that sets the sale of another order leaves a claimed order claimed.
pub proof fn law_claim_outlives_other_orders(
    s: StateView,
    id: Seq<char>,
    now: u64,
    later: u64,
    other: Seq<char>,
    new_state: RapidSellView,
)
    requires
        claim(s, id, now) is Some,
        other != id,
    ensures
        claim(
            reducer::step(
                claimed(s, id, claim(s, id, now)->0, now),
                EventView::RapidSellStateChanged { order_id: other, new_state },
            ),
            id,
            later,
        ) is None,
{
}

/// The events that follow the exchange's reply to the sell order of a claimed order.
pub open spec fn sale_events_spec(
    order: OrderView,
    amount: Dec,
    attempt: u32,
    reply: OrderReply,
    now: u64,
) -> Seq<EventView> {
    let size = decimal::decimal_text(amount);
    match reply {
        OrderReply::Placed(new_id) => seq![
            EventView::RapidSellOrderPlaced {
                parent_order_id: order.id,
                sell_order_id: new_id@,
                sell_amount: size,
                window_ts: order.window_ts,
                token: order.token,
                price: order.rapid_sell_price,
            },
            EventView::Notify {
                message: "Rapid Sell placed: "@ + size + " "@ + order.token + " @ "@
                    + order.rapid_sell_price,
                kind: NotificationKind::Success,
            },
        ],
        OrderReply::Rejected(reason) => seq![
            EventView::RapidSellStateChanged {
                order_id: order.id,
                new_state: retry_state(attempt, reason@, now),
            },
            EventView::Notify {
                message: "Rapid Sell rejected: "@ + reason@,
                kind: NotificationKind::Error,
            },
        ],
        OrderReply::Failed(reason) => seq![
            EventView::RapidSellStateChanged {
                order_id: order.id,
                new_state: retry_state(attempt, reason@, now),
            },
            EventView::Notify {
                message: "Rapid Sell transport error: "@ + reason@,
                kind: NotificationKind::Error,
            },
        ],
    }
}

/// The events that follow the exchange's reply to the sell order of a claimed order.
pub fn sale_events(
    order: &TrackedOrder,
    amount: Dec,
    attempt: u32,
    reply: OrderReply,
    now: u64,
) -> (r: Vec<AppEvent>)
    requires
        amount.wf(),
        now + 120_000 <= u64::MAX,
    ensures
        crate::events::event_views(r@) == sale_events_spec(order@, amount, attempt, reply, now),
{
    let r = match reply {
        OrderReply::Placed(new_id) => {
            let size = print_decimal(amount);
            let message = "Rapid Sell placed: ".to_owned().concat(size.as_str()).concat(" ").concat(
                order.token.as_str(),
            ).concat(" @ ").concat(order.rapid_sell_price.as_str());
            let placed = AppEvent::RapidSellOrderPlaced {
                parent_order_id: order.id.clone(),
                sell_order_id: new_id,
                sell_amount: size,
                window_ts: order.window_ts,
                token: order.token.clone(),
                price: order.rapid_sell_price.clone(),
            };
            vec![placed, AppEvent::Notify { message, kind: NotificationKind::Success }]
        },
        OrderReply::Rejected(reason) => {
            let note = notify("Rapid Sell rejected: ", reason.as_str(), NotificationKind::Error);
            let new_state = compute_retry_state(attempt, reason, now);
            vec![AppEvent::RapidSellStateChanged { order_id: order.id.clone(), new_state }, note]
        },
        OrderReply::Failed(reason) => {
            let note = notify(
                "Rapid Sell transport error: ",
                reason.as_str(),
                NotificationKind::Error,
            );
            let new_state = compute_retry_state(attempt, reason, now);
            vec![AppEvent::RapidSellStateChanged { order_id: order.id.clone(), new_state }, note]
        },
    };
    assert(crate::events::event_views(r@) =~= sale_events_spec(order@, amount, attempt, reply, now));
    r
}

/// Every reply to a claimed order's sale moves the sale on, so that no order stays claimed.
pub proof fn law_every_reply_releases(
    s: StateView,
    id: Seq<char>,
    now: u64,
    amount: Dec,
    reply: OrderReply,
    replied: u64,
)
    requires
        claim(s, id, now) is Some,
        s.orders[id].id == id,
        replied + 120_000 <= u64::MAX,
        reply matches OrderReply::Placed(new_id) ==> new_id@ != id,
    ensures
        ({
            let attempt = claim(s, id, now)->0;
            let inflight = claimed(s, id, attempt, now);
            let event = sale_events_spec(inflight.orders[id], amount, attempt, reply, replied)[0];
            let after = reducer::step(inflight, event);
            after.orders.contains_key(id) && !(after.orders[id].rapid_sell_state is InFlight)
        }),
{
}

/// What is to be sold are filled buys: an order on the buy side that is partly or fully filled,
/// or whose trade is open or confirmed, with at least five left of the fill, whose sale is idle or
/// due for another attempt. Every such order is to be sold, and no other.
pub proof fn law_filled_buys_are_sold(order: OrderView, now: u64)
    requires
        decimal::decimal_difference(
            decimal::amount_of(order.size_matched),
            decimal::amount_of(order.rapid_sell_size),
        ) is Some,
    ensures
        ({
            let left = decimal::decimal_difference(
                decimal::amount_of(order.size_matched),
                decimal::amount_of(order.rapid_sell_size),
            )->0;
            candidate(order, now) <==> {
                &&& text::same_ignoring_case(order.side, "buy"@)
                &&& order.status is PartiallyFilled || order.status is FullyFilled
                    || order.status is TradeOpen || order.status is TradeConfirmed
                &&& left.mantissa >= 5 * decimal::pow10(left.scale as nat)
                &&& order.rapid_sell_state is Idle || (order.rapid_sell_state is RetryScheduled
                    && order.rapid_sell_state->retry_at <= now)
            }
        }),
{
    let left = decimal::decimal_difference(
        decimal::amount_of(order.size_matched),
        decimal::amount_of(order.rapid_sell_size),
    )->0;
    lemma_at_least_five(left);
}

/// An amount, taken for zero where it is negative, is at least five exactly where the amount is.
proof fn lemma_at_least_five(d: Dec)
    ensures
        !d.floored().below(Dec { mantissa: 5, scale: 0 }) <==> d.mantissa >= 5 * decimal::pow10(
            d.scale as nat,
        ),
{
    decimal::lemma_pow10_positive(d.scale as nat);
    assert(decimal::pow10(0) == 1);
    assert(d.mantissa * 1 == d.mantissa && 0 * 1 == 0);
    assert(5 * decimal::pow10(0) == 5);
}

/// Whether an order is a filled buy with at least five left to sell, whose sale may start.
pub open spec fn sellable(order: OrderView, now: u64) -> bool {
    let left = decimal::decimal_difference(
        decimal::amount_of(order.size_matched),
        decimal::amount_of(order.rapid_sell_size),
    )->0;
    &&& text::same_ignoring_case(order.side, "buy"@)
    &&& order.status is PartiallyFilled || order.status is FullyFilled || order.status is TradeOpen
        || order.status is TradeConfirmed
    &&& left.mantissa >= 5 * decimal::pow10(left.scale as nat)
    &&& order.rapid_sell_state is Idle || (order.rapid_sell_state is RetryScheduled
        && order.rapid_sell_state->retry_at <= now)
}

/// A list of the orders to be sold holds each filled buy with enough left whose sale may start,
/// once, and no other order.
pub proof fn law_list_holds_the_filled_buys(
    s: StateView,
    now: u64,
    list: Seq<OrderView>,
    id: Seq<char>,
)
    requires
        s.wf(),
        lists_candidates(s, now, list),
        s.orders.contains_key(id),
        decimal::decimal_difference(
            decimal::amount_of(s.orders[id].size_matched),
            decimal::amount_of(s.orders[id].rapid_sell_size),
        ) is Some,
    ensures
        list.contains(s.orders[id]) <==> sellable(s.orders[id], now),
        list.no_duplicates(),
{
    law_filled_buys_are_sold(s.orders[id], now);
    if list.contains(s.orders[id]) {
        let i = choose|i: int| 0 <= i < list.len() && list[i] == s.orders[id];
        assert(candidate(list[i], now));
    }
    assert(list.no_duplicates()) by {
        assert forall|i: int, j: int| 0 <= i < list.len() && 0 <= j < list.len() && i != j implies list[i]
            != list[j] by {
            if i < j {
                assert(list[i].id != list[j].id);
            } else {
                assert(list[j].id != list[i].id);
            }
        }
    }
}

/// A sale is started exactly where the order has a price above zero and at least five left, and
/// stands in the state with its sale idle or due; it is for all that is left, and counts on from
/// the attempt that was scheduled.
pub proof fn law_sale_starts_where_it_can(s: StateView, order: OrderView, now: u64)
    requires
        decimal::decimal_difference(
            decimal::amount_of(order.size_matched),
            decimal::amount_of(order.rapid_sell_size),
        ) is Some,
    ensures
        ({
            let left = decimal::decimal_difference(
                decimal::amount_of(order.size_matched),
                decimal::amount_of(order.rapid_sell_size),
            )->0;
            let sale = s.orders[order.id].rapid_sell_state;
            &&& started(s, order, now) is Some <==> {
                &&& decimal::amount_of(order.rapid_sell_price).mantissa > 0
                &&& left.mantissa >= 5 * decimal::pow10(left.scale as nat)
                &&& s.orders.contains_key(order.id)
                &&& sale is Idle || (sale is RetryScheduled && sale->retry_at <= now)
            }
            &&& started(s, order, now) is Some ==> started(s, order, now)->0.amount == left
            &&& started(s, order, now) is Some && sale is Idle ==> started(s, order, now)->0.attempt
                == 0
            &&& started(s, order, now) is Some && sale is RetryScheduled ==> started(
                s,
                order,
                now,
            )->0.attempt == sale->RetryScheduled_attempt
        }),
{
    let left = decimal::decimal_difference(
        decimal::amount_of(order.size_matched),
        decimal::amount_of(order.rapid_sell_size),
    )->0;
    lemma_at_least_five(left);
    decimal::lemma_pow10_positive(left.scale as nat);
}

/// A claimed order is in flight since the time of the claim, and nothing else of it or of any
/// other order changes.
pub proof fn law_claimed_order_is_in_flight(s: StateView, id: Seq<char>, attempt: u32, now: u64)
    requires
        s.orders.contains_key(id),
    ensures
        ({
            let before = s.orders[id];
            let after = claimed(s, id, attempt, now);
            &&& after.orders.dom() == s.orders.dom()
            &&& after.orders[id].rapid_sell_state == (RapidSellView::InFlight {
                attempt,
                started_at: now,
            })
            &&& after.orders[id] == (OrderView {
                rapid_sell_state: after.orders[id].rapid_sell_state,
                ..before
            })
            &&& forall|other: Seq<char>|
                other != id && s.orders.contains_key(other) ==> #[trigger] after.orders[other]
                    == s.orders[other]
            &&& after.trades == s.trades && after.market_prices == s.market_prices
                && after.market_feeds == s.market_feeds && after.version == s.version
        }),
{
    assert(claimed(s, id, attempt, now).orders.dom() =~= s.orders.dom());
}

/// A sale that the exchange refuses, or that cannot be sent, is tried again: after the failure of
/// one of the first eight attempts the order can be claimed for the next attempt once 1, 2, 5, 10,
/// 20, 30, 60 or 120 seconds are over, and not a millisecond before. After the ninth failure it
/// can never be claimed again.
pub proof fn law_failed_sale_is_tried_again(
    s: StateView,
    id: Seq<char>,
    attempt: u32,
    amount: Dec,
    reason: String,
    refused: bool,
    now: u64,
    later: u64,
)
    requires
        s.orders.contains_key(id),
        s.orders[id].id == id,
        attempt <= 8,
        now + 120_000 <= u64::MAX,
    ensures
        ({
            let reply = if refused { OrderReply::Rejected(reason) } else {
                OrderReply::Failed(reason)
            };
            let event = sale_events_spec(s.orders[id], amount, attempt, reply, now)[0];
            let after = reducer::step(s, event);
            let waits = seq![1int, 2, 5, 10, 20, 30, 60, 120];
            &&& attempt < 8 ==> claim(after, id, later) == (if later >= now + waits[attempt as int]
                * 1000 {
                Some((attempt + 1) as u32)
            } else {
                None
            })
            &&& attempt == 8 ==> claim(after, id, later) is None
            &&& after.orders[id] == (OrderView {
                rapid_sell_state: after.orders[id].rapid_sell_state,
                ..s.orders[id]
            })
        }),
{
}

/// A sale that the exchange takes leaves a sell order of the sold amount, at the order's price and
/// for its token and window, and the amount is counted as sold: the sale of the rest can start at
/// once where at least five are left, and else never.
pub proof fn law_placed_sale_is_counted(
    s: StateView,
    id: Seq<char>,
    attempt: u32,
    amount: Dec,
    new_id: String,
    now: u64,
    later: u64,
)
    requires
        s.orders.contains_key(id),
        s.orders[id].id == id,
        new_id@ != id,
        reducer::sale_rest(s.orders[id], decimal::decimal_text(amount)) is Some,
    ensures
        ({
            let order = s.orders[id];
            let size = decimal::decimal_text(amount);
            let events = sale_events_spec(order, amount, attempt, OrderReply::Placed(new_id), now);
            let after = reducer::step(s, events[0]);
            let sold = decimal::decimal_sum(
                decimal::amount_of(order.rapid_sell_size),
                decimal::amount_of(size),
            )->0;
            let left = decimal::decimal_difference(
                decimal::amount_of(order.size_matched),
                sold,
            )->0;
            let enough = left.mantissa >= 5 * decimal::pow10(left.scale as nat);
            &&& after.orders.contains_key(new_id@)
            &&& after.orders[new_id@].id == new_id@
            &&& after.orders[new_id@].side == "sell"@
            &&& after.orders[new_id@].token == order.token
            &&& after.orders[new_id@].price == order.rapid_sell_price
            &&& after.orders[new_id@].size == size
            &&& after.orders[new_id@].window_ts == order.window_ts
            &&& after.orders[new_id@].status is Open
            &&& after.orders[new_id@].rapid_sell_price == "0"@
            &&& after.orders[new_id@].inline_sell_price == "0"@
            &&& after.orders[new_id@].size_matched == "0"@
            &&& after.orders[id].rapid_sell_size == decimal::decimal_text(sold)
            &&& after.orders[id].size_matched == order.size_matched
            &&& after.orders[id].status == order.status
            &&& claim(after, id, later) == (if enough { Some(0u32) } else { None })
        }),
{
    let order = s.orders[id];
    let size = decimal::decimal_text(amount);
    let sold = decimal::decimal_sum(
        decimal::amount_of(order.rapid_sell_size),
        decimal::amount_of(size),
    )->0;
    let left = decimal::decimal_difference(decimal::amount_of(order.size_matched), sold)->0;
    lemma_at_least_five(left);
}

/// The user is told of every reply to a sale, once and last: with success and the size, the token and
/// the price exactly where the sale was placed, and else with an error that gives the reason. The
/// reason is kept with the sale.
pub proof fn law_user_is_told_of_the_sale(
    order: OrderView,
    amount: Dec,
    attempt: u32,
    reply: OrderReply,
    now: u64,
)
    ensures
        ({
            let events = sale_events_spec(order, amount, attempt, reply, now);
            &&& events.len() == 2
            &&& reply matches OrderReply::Placed(_) ==> (events[1] matches EventView::Notify {
                message,
                kind,
            } && kind is Success && message == "Rapid Sell placed: "@ + decimal::decimal_text(amount)
                + " "@ + order.token + " @ "@ + order.rapid_sell_price)
            &&& reply matches OrderReply::Rejected(why) ==> (events[1] matches EventView::Notify {
                message,
                kind,
            } && kind is Error && message == "Rapid Sell rejected: "@ + why@)
            &&& reply matches OrderReply::Failed(why) ==> (events[1] matches EventView::Notify {
                message,
                kind,
            } && kind is Error && message == "Rapid Sell transport error: "@ + why@)
            &&& reply matches OrderReply::Rejected(why) ==> kept_reason(events[0]) == Some(why@)
            &&& reply matches OrderReply::Failed(why) ==> kept_reason(events[0]) == Some(why@)
        }),
{
}

/// The reason that an event keeps with a sale.
pub open spec fn kept_reason(event: EventView) -> Option<Seq<char>> {
    match event {
        EventView::RapidSellStateChanged {
            new_state: RapidSellView::RetryScheduled { reason, .. },
            ..
        } => Some(reason),
        EventView::RapidSellStateChanged {
            new_state: RapidSellView::PermanentlyFailed { reason, .. },
            ..
        } => Some(reason),
        _ => None,
    }
}

/// Only the rest of a filled buy has to be an amount: where it is none, there is no answer for it.
pub proof fn law_rest_of_a_filled_buy_is_measured(order: OrderView)
    ensures
        !text::same_ignoring_case(order.side, "buy"@) ==> measurable(order),
        order.status is Open || order.status is Canceled || order.status is Failed ==> measurable(order),
        decimal::decimal_difference(
            decimal::amount_of(order.size_matched),
            decimal::amount_of(order.rapid_sell_size),
        ) is Some ==> measurable(order),
        text::same_ignoring_case(order.side, "buy"@) && (order.status is PartiallyFilled
            || order.status is FullyFilled || order.status is TradeOpen || order.status is
            TradeConfirmed) && decimal::decimal_difference(
            decimal::amount_of(order.size_matched),
            decimal::amount_of(order.rapid_sell_size),
        ) is None ==> !measurable(order),
{
}

} // verus!

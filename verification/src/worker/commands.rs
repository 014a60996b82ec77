//! User commands: what is sent to the exchange for them, and which events follow from its
//! answers.

use vstd::prelude::*;
use crate::decimal;
use crate::decimal::{decimal_below, parse_decimal, print_decimal, Dec};
use crate::events::{AppEvent, EventView};
use crate::messages::{CommandView, Queue, UiCommand};
use crate::state::{AppState, NotificationKind, StateView};
use crate::tables;
use crate::text;
use crate::text::{equal_ignoring_case, list_contains, lowercase, print_number, same_text};

verus! {

/// A notification of two parts.
pub fn notify(prefix: &str, detail: &str, kind: NotificationKind) -> (r: AppEvent)
    ensures
        r@ == (EventView::Notify { message: prefix@ + detail@, kind }),
{
    AppEvent::Notify { message: prefix.to_owned().concat(detail), kind }
}

/// How the placing of an order ended.
#[derive(Debug)]
pub enum OrderReply {
    /// The exchange took the order and gave it this identifier.
    Placed(String),
    /// The exchange answered and refused the order.
    Rejected(String),
    /// The order could not be built or sent.
    Failed(String),
}

/// A limit order as it is asked for.
#[derive(Debug)]
pub struct LimitRequest {
    pub side: String,
    pub token: String,
    pub price: String,
    pub size: String,
}

/// A market order as it is asked for.
#[derive(Debug)]
pub struct MarketRequest {
    pub side: String,
    pub token: String,
    pub usdc: Option<String>,
    pub shares: Option<String>,
    pub order_type: Option<String>,
}

/// The side of an order.
#[derive(Clone, Copy, Debug, PartialEq, Eq, Structural)]
pub enum Side {
    Buy,
    Sell,
}

/// What becomes of a market order that cannot be filled at once in full: all of it is
/// dropped, or the rest of it.
#[derive(Clone, Copy, Debug, PartialEq, Eq, Structural)]
pub enum OrderType {
    Fok,
    Fak,
}

/// The amount of a market order: money to spend, or shares.
#[derive(Clone, Copy, Debug, PartialEq, Eq, Structural)]
pub enum MarketAmount {
    Usdc(Dec),
    Shares(Dec),
}

/// The terms of a limit order.
#[derive(Clone, Copy, Debug, PartialEq, Eq, Structural)]
pub struct LimitTerms {
    pub price: Dec,
    pub size: Dec,
    pub side: Side,
}

/// The terms of a market order.
#[derive(Clone, Copy, Debug, PartialEq, Eq, Structural)]
pub struct MarketTerms {
    pub side: Side,
    pub order_type: OrderType,
    pub amount: MarketAmount,
}

/// Why an order cannot be built.
#[derive(Debug)]
pub enum OrderError {
    /// The market of this slug has no two tokens.
    NoTokenIds(String),
    /// A limit order names neither token.
    InvalidLimitToken(String),
    /// A market order names neither token.
    InvalidMarketToken(String),
    /// Neither to buy nor to sell.
    InvalidSide(String),
    /// Not an amount, and why.
    InvalidAmount(String),
    /// A market order without an amount.
    MissingAmount,
}

/// The mathematical value of an [`OrderError`].
pub enum OrderErrorView {
    NoTokenIds(Seq<char>),
    InvalidLimitToken(Seq<char>),
    InvalidMarketToken(Seq<char>),
    InvalidSide(Seq<char>),
    InvalidAmount(Seq<char>),
    MissingAmount,
}

impl View for OrderError {
    type V = OrderErrorView;

    open spec fn view(&self) -> OrderErrorView {
        match *self {
            OrderError::NoTokenIds(slug) => OrderErrorView::NoTokenIds(slug@),
            OrderError::InvalidLimitToken(token) => OrderErrorView::InvalidLimitToken(token@),
            OrderError::InvalidMarketToken(token) => OrderErrorView::InvalidMarketToken(token@),
            OrderError::InvalidSide(side) => OrderErrorView::InvalidSide(side@),
            OrderError::InvalidAmount(why) => OrderErrorView::InvalidAmount(why@),
            OrderError::MissingAmount => OrderErrorView::MissingAmount,
        }
    }
}

impl OrderErrorView {
    /// The error in words.
    pub open spec fn message(self) -> Seq<char> {
        match self {
            OrderErrorView::NoTokenIds(slug) => "no token IDs for slug "@ + slug,
            OrderErrorView::InvalidLimitToken(token) => "invalid token '"@ + token
                + "'; must be 'up' or 'down'"@,
            OrderErrorView::InvalidMarketToken(token) => "invalid token '"@ + token + "'"@,
            OrderErrorView::InvalidSide(side) => "invalid side '"@ + side + "'"@,
            OrderErrorView::InvalidAmount(why) => why,
            OrderErrorView::MissingAmount => "market order requires usdc or shares"@,
        }
    }
}

impl OrderError {
    /// The error in words.
    pub fn message(&self) -> (r: String)
        ensures
            r@ == self@.message(),
    {
        match self {
            OrderError::NoTokenIds(slug) => "no token IDs for slug ".to_owned().concat(
                slug.as_str(),
            ),
            OrderError::InvalidLimitToken(token) => "invalid token '".to_owned().concat(
                token.as_str(),
            ).concat("'; must be 'up' or 'down'"),
            OrderError::InvalidMarketToken(token) => "invalid token '".to_owned().concat(
                token.as_str(),
            ).concat("'"),
            OrderError::InvalidSide(side) => "invalid side '".to_owned().concat(
                side.as_str(),
            ).concat("'"),
            OrderError::InvalidAmount(why) => why.clone(),
            OrderError::MissingAmount => "market order requires usdc or shares".to_owned(),
        }
    }
}

/// The token of a limit order: the first for "up" and the second for "down", in any case.
pub open spec fn limit_token_spec(
    token: Seq<char>,
    ids: Seq<Seq<char>>,
    slug: Seq<char>,
) -> Result<Seq<char>, OrderErrorView> {
    if ids.len() < 2 {
        Err(OrderErrorView::NoTokenIds(slug))
    } else if text::same_ignoring_case(token, "up"@) {
        Ok(ids[0])
    } else if text::same_ignoring_case(token, "down"@) {
        Ok(ids[1])
    } else {
        Err(OrderErrorView::InvalidLimitToken(token))
    }
}

/// The token of a market order: the first for a text that is "up" in small letters, the
/// second for one that is "down".
pub open spec fn market_token_spec(
    token: Seq<char>,
    ids: Seq<Seq<char>>,
    slug: Seq<char>,
) -> Result<Seq<char>, OrderErrorView> {
    if ids.len() < 2 {
        Err(OrderErrorView::NoTokenIds(slug))
    } else if text::lowercase_of(token) == "up"@ {
        Ok(ids[0])
    } else if text::lowercase_of(token) == "down"@ {
        Ok(ids[1])
    } else {
        Err(OrderErrorView::InvalidMarketToken(token))
    }
}

/// The value of a result whose parts are texts or errors.
pub open spec fn token_view(r: Result<String, OrderError>) -> Result<Seq<char>, OrderErrorView> {
    match r {
        Ok(id) => Ok(id@),
        Err(e) => Err(e@),
    }
}

/// The token identifier that a limit order is for.
pub fn limit_token(token: &str, ids: &Vec<String>, slug: &str) -> (r: Result<String, OrderError>)
    ensures
        token_view(r) == limit_token_spec(token@, text::texts(ids@), slug@),
{
    if ids.len() < 2 {
        return Err(OrderError::NoTokenIds(slug.to_owned()));
    }
    assert(text::texts(ids@)[0] == ids@[0]@ && text::texts(ids@)[1] == ids@[1]@);
    if equal_ignoring_case(token, "up") {
        Ok(ids[0].clone())
    } else if equal_ignoring_case(token, "down") {
        Ok(ids[1].clone())
    } else {
        Err(OrderError::InvalidLimitToken(token.to_owned()))
    }
}

/// The token identifier that a market order is for.
pub fn market_token(token: &str, ids: &Vec<String>, slug: &str) -> (r: Result<String, OrderError>)
    ensures
        token_view(r) == market_token_spec(token@, text::texts(ids@), slug@),
{
    if ids.len() < 2 {
        return Err(OrderError::NoTokenIds(slug.to_owned()));
    }
    assert(text::texts(ids@)[0] == ids@[0]@ && text::texts(ids@)[1] == ids@[1]@);
    let small = lowercase(token);
    if same_text(small.as_str(), "up") {
        Ok(ids[0].clone())
    } else if same_text(small.as_str(), "down") {
        Ok(ids[1].clone())
    } else {
        Err(OrderError::InvalidMarketToken(token.to_owned()))
    }
}

/// The side that a text names.
pub open spec fn side_of(side: Seq<char>) -> Option<Side> {
    if text::lowercase_of(side) == "buy"@ {
        Some(Side::Buy)
    } else if text::lowercase_of(side) == "sell"@ {
        Some(Side::Sell)
    } else {
        None
    }
}

/// Reads the side of an order.
pub fn parse_side(s: &str) -> (r: Result<Side, OrderError>)
    ensures
        match side_of(s@) {
            Some(side) => r == Ok::<Side, OrderError>(side),
            None => r is Err && r->Err_0@ == OrderErrorView::InvalidSide(s@),
        },
{
    let small = lowercase(s);
    if same_text(small.as_str(), "buy") {
        Ok(Side::Buy)
    } else if same_text(small.as_str(), "sell") {
        Ok(Side::Sell)
    } else {
        Err(OrderError::InvalidSide(s.to_owned()))
    }
}

/// Reads an amount of an order.
fn order_amount(s: &str) -> (r: Result<Dec, OrderError>)
    ensures
        match decimal::decimal_of_text(s@) {
            Ok(d) => r == Ok::<Dec, OrderError>(d) && d.wf(),
            Err(why) => r is Err && r->Err_0@ == OrderErrorView::InvalidAmount(why),
        },
{
    match parse_decimal(s) {
        Ok(d) => Ok(d),
        Err(why) => Err(OrderError::InvalidAmount(why)),
    }
}

/// The terms that a request for a limit order states. The price is read first, then the
/// size, then the side; the first that cannot be read is the error.
pub open spec fn limit_terms_spec(
    price: Seq<char>,
    size: Seq<char>,
    side: Seq<char>,
) -> Result<LimitTerms, OrderErrorView> {
    match (decimal::decimal_of_text(price), decimal::decimal_of_text(size), side_of(side)) {
        (Err(why), _, _) => Err(OrderErrorView::InvalidAmount(why)),
        (_, Err(why), _) => Err(OrderErrorView::InvalidAmount(why)),
        (_, _, None) => Err(OrderErrorView::InvalidSide(side)),
        (Ok(p), Ok(s), Some(side)) => Ok(LimitTerms { price: p, size: s, side }),
    }
}

/// The terms that a request for a limit order states.
pub fn limit_terms(request: &LimitRequest) -> (r: Result<LimitTerms, OrderError>)
    ensures
        match limit_terms_spec(request.price@, request.size@, request.side@) {
            Ok(terms) => r == Ok::<LimitTerms, OrderError>(terms) && terms.price.wf()
                && terms.size.wf(),
            Err(e) => r is Err && r->Err_0@ == e,
        },
{
    let price: Dec = match order_amount(request.price.as_str()) {
        Ok(d) => d,
        Err(e) => return Err(e),
    };
    let size: Dec = match order_amount(request.size.as_str()) {
        Ok(d) => d,
        Err(e) => return Err(e),
    };
    match parse_side(request.side.as_str()) {
        Ok(side) => Ok(LimitTerms { price, size, side }),
        Err(e) => Err(e),
    }
}

/// Whether an order type is the one that keeps a partial fill.
pub open spec fn order_type_of(name: Option<Seq<char>>) -> OrderType {
    if name == Some("FAK"@) { OrderType::Fak } else { OrderType::Fok }
}

/// The terms that a request for a market order states. The side is read first, then the
/// amount: the money, or where no money is given the shares.
pub open spec fn market_terms_spec(
    side: Seq<char>,
    usdc: Option<Seq<char>>,
    shares: Option<Seq<char>>,
    order_type: Option<Seq<char>>,
) -> Result<MarketTerms, OrderErrorView> {
    match side_of(side) {
        None => Err(OrderErrorView::InvalidSide(side)),
        Some(side) => {
            let order_type = order_type_of(order_type);
            match (usdc, shares) {
                (Some(money), _) => match decimal::decimal_of_text(money) {
                    Ok(d) => Ok(MarketTerms { side, order_type, amount: MarketAmount::Usdc(d) }),
                    Err(why) => Err(OrderErrorView::InvalidAmount(why)),
                },
                (None, Some(count)) => match decimal::decimal_of_text(count) {
                    Ok(d) => Ok(MarketTerms { side, order_type, amount: MarketAmount::Shares(d) }),
                    Err(why) => Err(OrderErrorView::InvalidAmount(why)),
                },
                (None, None) => Err(OrderErrorView::MissingAmount),
            }
        },
    }
}

/// The terms that a request for a market order states.
pub fn market_terms(request: &MarketRequest) -> (r: Result<MarketTerms, OrderError>)
    ensures
        match market_terms_spec(
            request.side@,
            text::opt_text(request.usdc),
            text::opt_text(request.shares),
            text::opt_text(request.order_type),
        ) {
            Ok(terms) => r == Ok::<MarketTerms, OrderError>(terms),
            Err(e) => r is Err && r->Err_0@ == e,
        },
{
    let side = match parse_side(request.side.as_str()) {
        Ok(side) => side,
        Err(e) => return Err(e),
    };
    let order_type = match &request.order_type {
        Some(name) => if same_text(name.as_str(), "FAK") {
            OrderType::Fak
        } else {
            OrderType::Fok
        },
        None => OrderType::Fok,
    };
    let amount = if let Some(money) = &request.usdc {
        match order_amount(money.as_str()) {
            Ok(d) => MarketAmount::Usdc(d),
            Err(e) => return Err(e),
        }
    } else if let Some(count) = &request.shares {
        match order_amount(count.as_str()) {
            Ok(d) => MarketAmount::Shares(d),
            Err(e) => return Err(e),
        }
    } else {
        return Err(OrderError::MissingAmount);
    };
    Ok(MarketTerms { side, order_type, amount })
}

/// The exchange's answer to an order.
#[derive(Debug)]
pub struct PostOrderReply {
    pub success: bool,
    pub error_msg: Option<String>,
    pub order_id: String,
}

/// The identifier of an order that was taken, or why it was not.
pub open spec fn response_spec(resp: PostOrderReply) -> Result<Seq<char>, Seq<char>> {
    if resp.success {
        Ok(resp.order_id@)
    } else {
        match resp.error_msg {
            Some(msg) => Err("Engine reject: "@ + msg@),
            None => Err("Engine reject: "@ + "Order rejected"@),
        }
    }
}

/// The identifier of an order that was taken, or why it was not.
pub fn parse_response(resp: PostOrderReply) -> (r: Result<String, String>)
    ensures
        match response_spec(resp) {
            Ok(id) => r is Ok && r->Ok_0@ == id,
            Err(msg) => r is Err && r->Err_0@ == msg,
        },
{
    if !resp.success {
        let msg = match resp.error_msg {
            Some(msg) => msg,
            None => "Order rejected".to_owned(),
        };
        return Err("Engine reject: ".to_owned().concat(msg.as_str()));
    }
    Ok(resp.order_id)
}

/// The price that the exit desk of a new order starts with: the price of its automatic sale
/// where that is above zero.
pub open spec fn exit_price(rapid_price: Seq<char>) -> Seq<char> {
    match decimal::decimal_of_text(rapid_price) {
        Ok(p) => if p.mantissa > 0 { decimal::decimal_text(p) } else { "0.10"@ },
        Err(_) => "0.10"@,
    }
}

/// The price that the exit desk of a new order starts with.
pub fn initial_exit_price(rapid_price: &str) -> (r: String)
    ensures
        r@ == exit_price(rapid_price@),
{
    match parse_decimal(rapid_price) {
        Ok(p) => {
            proof {
                decimal::lemma_positive(p);
            }
            if decimal_below(Dec { mantissa: 0, scale: 0 }, p) {
                print_decimal(p)
            } else {
                "0.10".to_owned()
            }
        },
        Err(_) => "0.10".to_owned(),
    }
}

/// The events that follow the reply to a limit order.
pub open spec fn limit_events_spec(
    request: LimitRequest,
    rapid_price: Seq<char>,
    window_ts: u64,
    reply: OrderReply,
) -> Seq<EventView> {
    match reply {
        OrderReply::Placed(order_id) => seq![
            EventView::OrderPlaced {
                order_id: order_id@,
                window_ts,
                side: request.side@,
                token: request.token@,
                price: request.price@,
                size: request.size@,
                rapid_sell_price: rapid_price,
                inline_sell_price: exit_price(rapid_price),
            },
            EventView::Notify {
                message: "Limit Order Placed"@,
                kind: NotificationKind::Success,
            },
        ],
        OrderReply::Rejected(e) => seq![
            EventView::Notify { message: "Limit rejected: "@ + e@, kind: NotificationKind::Error },
        ],
        OrderReply::Failed(e) => seq![
            EventView::Notify {
                message: "Limit transport error: "@ + e@,
                kind: NotificationKind::Error,
            },
        ],
    }
}

/// The events that follow the reply to a limit order.
pub fn limit_events(
    request: LimitRequest,
    rapid_price: String,
    window_ts: u64,
    reply: OrderReply,
) -> (r: Vec<AppEvent>)
    ensures
        crate::events::event_views(r@) == limit_events_spec(request, rapid_price@, window_ts, reply),
{
    let r = match reply {
        OrderReply::Placed(order_id) => {
            let inline_sell_price = initial_exit_price(rapid_price.as_str());
            vec![
                AppEvent::OrderPlaced {
                    order_id,
                    window_ts,
                    side: request.side,
                    token: request.token,
                    price: request.price,
                    size: request.size,
                    rapid_sell_price: rapid_price,
                    inline_sell_price,
                },
                AppEvent::Notify {
                    message: "Limit Order Placed".to_owned(),
                    kind: NotificationKind::Success,
                },
            ]
        },
        OrderReply::Rejected(e) => vec![
            notify("Limit rejected: ", e.as_str(), NotificationKind::Error),
        ],
        OrderReply::Failed(e) => vec![
            notify("Limit transport error: ", e.as_str(), NotificationKind::Error),
        ],
    };
    assert(crate::events::event_views(r@) =~= limit_events_spec(
        request,
        rapid_price@,
        window_ts,
        reply,
    ));
    r
}

/// The events that follow the reply to a market order.
pub open spec fn market_events_spec(
    side: Seq<char>,
    token: Seq<char>,
    window_ts: u64,
    reply: OrderReply,
) -> Seq<EventView> {
    match reply {
        OrderReply::Placed(order_id) => seq![
            EventView::OrderPlaced {
                order_id: order_id@,
                window_ts,
                side,
                token,
                price: "Market"@,
                size: "Market"@,
                rapid_sell_price: "0.00"@,
                inline_sell_price: "0.50"@,
            },
            EventView::Notify {
                message: "Market Order Placed"@,
                kind: NotificationKind::Success,
            },
        ],
        OrderReply::Rejected(e) => seq![
            EventView::Notify { message: "Market rejected: "@ + e@, kind: NotificationKind::Error },
        ],
        OrderReply::Failed(e) => seq![
            EventView::Notify {
                message: "Market transport error: "@ + e@,
                kind: NotificationKind::Error,
            },
        ],
    }
}

/// The events that follow the reply to a market order.
pub fn market_events(side: String, token: String, window_ts: u64, reply: OrderReply) -> (r: Vec<
    AppEvent,
>)
    ensures
        crate::events::event_views(r@) == market_events_spec(side@, token@, window_ts, reply),
{
    let r = match reply {
        OrderReply::Placed(order_id) => vec![
            AppEvent::OrderPlaced {
                order_id,
                window_ts,
                side,
                token,
                price: "Market".to_owned(),
                size: "Market".to_owned(),
                rapid_sell_price: "0.00".to_owned(),
                inline_sell_price: "0.50".to_owned(),
            },
            AppEvent::Notify {
                message: "Market Order Placed".to_owned(),
                kind: NotificationKind::Success,
            },
        ],
        OrderReply::Rejected(e) => vec![
            notify("Market rejected: ", e.as_str(), NotificationKind::Error),
        ],
        OrderReply::Failed(e) => vec![
            notify("Market transport error: ", e.as_str(), NotificationKind::Error),
        ],
    };
    assert(crate::events::event_views(r@) =~= market_events_spec(side@, token@, window_ts, reply));
    r
}

/// How the exchange answered a request to cancel.
#[derive(Debug)]
pub enum CancelReply {
    /// The orders that were cancelled, and those that were not, each with a reason.
    Answered { canceled: Vec<String>, not_canceled: Vec<(String, String)> },
    /// The request could not be sent.
    Failed(String),
}

/// The reason that the first entry for an order gives.
pub open spec fn reason_in(list: Seq<(String, String)>, id: Seq<char>) -> Seq<char>
    decreases list.len(),
{
    if list.len() == 0 {
        "unknown reason"@
    } else if list[0].0@ == id {
        list[0].1@
    } else {
        reason_in(list.skip(1), id)
    }
}

/// The reason that the first entry for an order gives.
fn find_reason(list: &Vec<(String, String)>, id: &String) -> (r: String)
    ensures
        r@ == reason_in(list@, id@),
{
    let mut i: usize = 0;
    assert(list@.skip(0) =~= list@);
    while i < list.len()
        invariant
            i <= list.len(),
            reason_in(list@, id@) == reason_in(list@.skip(i as int), id@),
        decreases list.len() - i,
    {
        assert(list@.skip(i as int)[0] == list@[i as int]);
        assert(list@.skip(i as int).skip(1) =~= list@.skip(i + 1));
        if list[i].0 == *id {
            return list[i].1.clone();
        }
        i = i + 1;
    }
    "unknown reason".to_owned()
}

/// The events that follow the reply to a request to cancel one order.
pub open spec fn cancel_events_spec(order_id: Seq<char>, reply: CancelReply) -> Seq<EventView> {
    match reply {
        CancelReply::Answered { canceled, not_canceled } => if text::texts(canceled@).contains(
            order_id,
        ) {
            seq![
                EventView::OrderCancelled { order_id },
                EventView::Notify {
                    message: "Order cancelled"@,
                    kind: NotificationKind::Success,
                },
            ]
        } else {
            seq![
                EventView::Notify {
                    message: "Cancel rejected: "@ + reason_in(not_canceled@, order_id),
                    kind: NotificationKind::Error,
                },
            ]
        },
        CancelReply::Failed(e) => seq![
            EventView::Notify {
                message: "Cancel transport error: "@ + e@,
                kind: NotificationKind::Error,
            },
        ],
    }
}

/// The events that follow the reply to a request to cancel one order.
pub fn cancel_events(order_id: String, reply: &CancelReply) -> (r: Vec<AppEvent>)
    ensures
        crate::events::event_views(r@) == cancel_events_spec(order_id@, *reply),
{
    let r = match reply {
        CancelReply::Answered { canceled, not_canceled } => {
            if list_contains(canceled, &order_id) {
                vec![
                    AppEvent::OrderCancelled { order_id },
                    AppEvent::Notify {
                        message: "Order cancelled".to_owned(),
                        kind: NotificationKind::Success,
                    },
                ]
            } else {
                let reason = find_reason(not_canceled, &order_id);
                vec![notify("Cancel rejected: ", reason.as_str(), NotificationKind::Error)]
            }
        },
        CancelReply::Failed(e) => vec![
            notify("Cancel transport error: ", e.as_str(), NotificationKind::Error),
        ],
    };
    assert(crate::events::event_views(r@) =~= cancel_events_spec(order_id@, *reply));
    r
}

/// The cancellations among a list of orders, in the order of the list.
pub open spec fn cancellations(list: Seq<Seq<char>>, canceled: Seq<Seq<char>>) -> Seq<EventView>
    decreases list.len(),
{
    if list.len() == 0 {
        Seq::empty()
    } else {
        let before = cancellations(list.drop_last(), canceled);
        if canceled.contains(list.last()) {
            before.push(EventView::OrderCancelled { order_id: list.last() })
        } else {
            before
        }
    }
}

/// The events that follow the reply to a request to cancel every order: one for each order
/// of the window that was cancelled, and a notification with the number of all cancelled
/// orders.
pub open spec fn cancel_all_events_spec(
    local_ids: Seq<Seq<char>>,
    reply: CancelReply,
) -> Seq<EventView> {
    match reply {
        CancelReply::Answered { canceled, .. } => cancellations(
            local_ids,
            text::texts(canceled@),
        ).push(
            EventView::Notify {
                message: "Batch cancel: "@ + decimal::digits(canceled@.len()) + " cancelled"@,
                kind: NotificationKind::Success,
            },
        ),
        CancelReply::Failed(e) => seq![
            EventView::Notify {
                message: "Batch cancel error: "@ + e@,
                kind: NotificationKind::Error,
            },
        ],
    }
}

/// The events that follow the reply to a request to cancel every order.
pub fn cancel_all_events(local_ids: &Vec<String>, reply: &CancelReply) -> (r: Vec<AppEvent>)
    ensures
        crate::events::event_views(r@) == cancel_all_events_spec(text::texts(local_ids@), *reply),
{
    let ghost list = text::texts(local_ids@);
    match reply {
        CancelReply::Answered { canceled, .. } => {
            let ghost done = text::texts(canceled@);
            let mut out: Vec<AppEvent> = Vec::new();
            let mut i: usize = 0;
            assert(crate::events::event_views(out@) =~= Seq::<EventView>::empty());
            while i < local_ids.len()
                invariant
                    i <= local_ids.len(),
                    list == text::texts(local_ids@),
                    done == text::texts(canceled@),
                    crate::events::event_views(out@) == cancellations(list.take(i as int), done),
                decreases local_ids.len() - i,
            {
                let ghost before = out@;
                assert(list.take(i + 1).drop_last() =~= list.take(i as int));
                assert(list.take(i + 1).last() == local_ids@[i as int]@);
                if list_contains(canceled, &local_ids[i]) {
                    out.push(AppEvent::OrderCancelled { order_id: local_ids[i].clone() });
                    assert(crate::events::event_views(out@) =~= crate::events::event_views(
                        before,
                    ).push(EventView::OrderCancelled { order_id: list.take(i + 1).last() }));
                }
                i = i + 1;
            }
            assert(list.take(i as int) =~= list);
            let ghost before = out@;
            let count = print_number(canceled.len() as u64);
            let message = "Batch cancel: ".to_owned().concat(count.as_str()).concat(" cancelled");
            out.push(AppEvent::Notify { message, kind: NotificationKind::Success });
            assert(crate::events::event_views(out@) =~= cancel_all_events_spec(list, *reply));
            out
        },
        CancelReply::Failed(e) => {
            let r = vec![notify("Batch cancel error: ", e.as_str(), NotificationKind::Error)];
            assert(crate::events::event_views(r@) =~= cancel_all_events_spec(list, *reply));
            r
        },
    }
}

/// The orders of a window that can still be cancelled.
pub open spec fn open_orders_of_window(s: StateView, window_ts: u64) -> Set<Seq<char>> {
    Set::new(
        |id: Seq<char>|
            crate::reducer::orders_of_window(s, window_ts).contains(id)
                && s.orders[id].status.is_open(),
    )
}

/// The identifiers of the orders of a window that can still be cancelled, each once, in no
/// particular order.
pub fn open_order_ids(state: &AppState, window_ts: u64) -> (r: Vec<String>)
    ensures
        text::texts(r@).no_duplicates(),
        forall|id: Seq<char>| #[trigger]
            text::texts(r@).contains(id) <==> open_orders_of_window(state@, window_ts).contains(id),
{
    let keys = tables::order_keys(&state.orders);
    let ghost ids = text::texts(keys@);
    let mut out: Vec<String> = Vec::new();
    let mut i: usize = 0;
    while i < keys.len()
        invariant
            i <= keys.len(),
            ids == text::texts(keys@),
            ids.no_duplicates(),
            forall|id: Seq<char>| #[trigger] ids.contains(id) <==> state@.orders.contains_key(id),
            text::texts(out@) == ids.take(i as int).filter(
                |id: Seq<char>|
                    state@.orders[id].window_ts == window_ts && state@.orders[id].status.is_open(),
            ),
        decreases keys.len() - i,
    {
        let ghost keep = |id: Seq<char>|
            state@.orders[id].window_ts == window_ts && state@.orders[id].status.is_open();
        proof {
            reveal(Seq::filter);
            assert(ids[i as int] == keys@[i as int]@);
            assert(ids.contains(ids[i as int]));
            assert(ids.take(i + 1).drop_last() =~= ids.take(i as int));
            assert(ids.take(i + 1).last() == ids[i as int]);
        }
        let ghost before = text::texts(out@);
        if let Some(order) = tables::get_order(&state.orders, keys[i].as_str()) {
            if order.window_ts == window_ts && order.status.is_open() {
                out.push(keys[i].clone());
                assert(text::texts(out@) =~= before.push(ids[i as int]));
            }
        }
        i = i + 1;
    }
    proof {
        let keep = |id: Seq<char>|
            state@.orders[id].window_ts == window_ts && state@.orders[id].status.is_open();
        assert(ids.take(i as int) =~= ids);
        crate::listing::lemma_filter_members(ids, keep);
        assert forall|id: Seq<char>| #[trigger]
            text::texts(out@).contains(id) <==> open_orders_of_window(
                state@,
                window_ts,
            ).contains(id) by {
            assert(ids.contains(id) <==> state@.orders.contains_key(id));
        }
    }
    out
}

/// What the worker does for a command.
#[derive(Debug)]
pub enum WorkerAction {
    /// Nothing.
    Ignore,
    /// Set the interval of a polling loop.
    SetInterval { queue: Queue, milliseconds: u64 },
    /// Place a limit order; the reply goes to [`limit_events`].
    SubmitLimit { request: LimitRequest, rapid_price: String, window_ts: u64 },
    /// Place a market order; the reply goes to [`market_events`].
    SubmitMarket { request: MarketRequest, window_ts: u64 },
    /// Ask for the status of an order; its trades are not looked at.
    QueryStatus { order_id: String },
    /// Cancel an order; the reply goes to [`cancel_events`].
    Cancel { order_id: String },
    /// Cancel these orders and no others; the reply goes to [`cancel_all_events`], with the
    /// same identifiers.
    CancelAll { order_ids: Vec<String> },
    /// Send an event.
    Emit(AppEvent),
}

/// Whether an action is the one that a command asks for.
pub open spec fn answers(s: StateView, command: CommandView, action: WorkerAction) -> bool {
    match command {
        CommandView::InitializeClient { .. } => action is Ignore,
        CommandView::UpdatePollInterval { milliseconds, queue } => action
            == (WorkerAction::SetInterval { queue, milliseconds }),
        CommandView::PlaceLimit { side, token, price, size, rapid_price, window_ts } => {
            action matches WorkerAction::SubmitLimit { request, rapid_price: rapid, window_ts: w }
                && request.side@ == side && request.token@ == token && request.price@ == price
                && request.size@ == size && rapid@ == rapid_price && w == window_ts
        },
        CommandView::PlaceMarket { side, token, usdc, shares, order_type, window_ts } => {
            action matches WorkerAction::SubmitMarket { request, window_ts: w }
                && request.side@ == side && request.token@ == token && text::opt_text(request.usdc)
                == usdc && text::opt_text(request.shares) == shares && text::opt_text(
                request.order_type,
            ) == order_type && w == window_ts
        },
        CommandView::CheckStatus { order_id, .. } => {
            action matches WorkerAction::QueryStatus { order_id: id } && id@ == order_id
        },
        CommandView::CancelIndividual { order_id, .. } => {
            action matches WorkerAction::Cancel { order_id: id } && id@ == order_id
        },
        CommandView::CancelAllInWindow { window_ts } => {
            action matches WorkerAction::CancelAll { order_ids } && text::texts(
                order_ids@,
            ).no_duplicates() && forall|id: Seq<char>| #[trigger]
                text::texts(order_ids@).contains(id) <==> open_orders_of_window(
                    s,
                    window_ts,
                ).contains(id)
        },
        CommandView::CloseWindow { window_ts } => {
            action matches WorkerAction::Emit(event) && event@ == (EventView::WindowClosed {
                window_ts,
            })
        },
    }
}

/// What the worker does for a command.
pub fn plan_command(state: &AppState, command: UiCommand) -> (r: WorkerAction)
    ensures
        answers(state@, command@, r),
{
    match command {
        UiCommand::InitializeClient { .. } => WorkerAction::Ignore,
        UiCommand::UpdatePollInterval { milliseconds, queue } => WorkerAction::SetInterval {
            queue,
            milliseconds,
        },
        UiCommand::PlaceLimit { side, token, price, size, rapid_price, window_ts } => {
            WorkerAction::SubmitLimit {
                request: LimitRequest { side, token, price, size },
                rapid_price,
                window_ts,
            }
        },
        UiCommand::PlaceMarket { side, token, usdc, shares, order_type, window_ts } => {
            WorkerAction::SubmitMarket {
                request: MarketRequest { side, token, usdc, shares, order_type },
                window_ts,
            }
        },
        UiCommand::CheckStatus { order_id, .. } => WorkerAction::QueryStatus { order_id },
        UiCommand::CancelIndividual { order_id, .. } => WorkerAction::Cancel { order_id },
        UiCommand::CancelAllInWindow { window_ts } => WorkerAction::CancelAll {
            order_ids: open_order_ids(state, window_ts),
        },
        UiCommand::CloseWindow { window_ts } => WorkerAction::Emit(
            AppEvent::WindowClosed { window_ts },
        ),
    }
}

/// What is cancelled for a window are its open orders and no order of another window.
pub proof fn law_window_cancels_its_open_orders(
    s: StateView,
    window_ts: u64,
    action: WorkerAction,
    id: Seq<char>,
)
    requires
        answers(s, CommandView::CancelAllInWindow { window_ts }, action),
    ensures
        action matches WorkerAction::CancelAll { order_ids } && (text::texts(order_ids@).contains(
            id,
        ) <==> s.orders.contains_key(id) && s.orders[id].window_ts == window_ts
            && s.orders[id].status.is_open()),
{
}

/// A cancelled order is reported for a window only if it is an order of that window and the
/// exchange cancelled it, and every such order is.
pub proof fn law_cancellations_are_exact(list: Seq<Seq<char>>, canceled: Seq<Seq<char>>)
    ensures
        forall|e: EventView| #[trigger]
            cancellations(list, canceled).contains(e) <==> exists|id: Seq<char>| #[trigger]
                list.contains(id) && canceled.contains(id) && e == (EventView::OrderCancelled {
                    order_id: id,
                }),
    decreases list.len(),
{
    if list.len() > 0 {
        let rest = list.drop_last();
        let last = list.last();
        let event = EventView::OrderCancelled { order_id: last };
        let before = cancellations(rest, canceled);
        let all = cancellations(list, canceled);
        law_cancellations_are_exact(rest, canceled);
        assert(list =~= rest.push(last));
        assert forall|e: EventView| #[trigger] all.contains(e) <==> exists|id: Seq<char>| #[trigger]
            list.contains(id) && canceled.contains(id) && e == (EventView::OrderCancelled {
                order_id: id,
            }) by {
            if all.contains(e) {
                let i = choose|i: int| 0 <= i < all.len() && all[i] == e;
                if i < before.len() {
                    assert(before[i] == e);
                    assert(before.contains(e));
                    let id = choose|id: Seq<char>| #[trigger]
                        rest.contains(id) && canceled.contains(id) && e == (
                        EventView::OrderCancelled { order_id: id });
                    let k = choose|k: int| 0 <= k < rest.len() && rest[k] == id;
                    assert(list[k] == id);
                    assert(list.contains(id));
                } else {
                    assert(list[list.len() - 1] == last);
                    assert(list.contains(last));
                }
            }
            if exists|id: Seq<char>| #[trigger]
                list.contains(id) && canceled.contains(id) && e == (EventView::OrderCancelled {
                    order_id: id,
                }) {
                let id = choose|id: Seq<char>| #[trigger]
                    list.contains(id) && canceled.contains(id) && e == (EventView::OrderCancelled {
                        order_id: id,
                    });
                if id == last {
                    assert(all[before.len() as int] == event);
                } else {
                    let k = choose|k: int| 0 <= k < list.len() && list[k] == id;
                    assert(rest[k] == id);
                    assert(rest.contains(id));
                    assert(before.contains(e));
                    let i = choose|i: int| 0 <= i < before.len() && before[i] == e;
                    assert(all[i] == e);
                }
            }
        }
    }
}

/// The token that an order is for: the first identifier for "up", the second for "down", in any
/// case of the letters. Without two identifiers, or with any other name, there is none, and the
/// error says which of the two it is.
pub proof fn law_up_is_the_first_token(token: Seq<char>, ids: Seq<Seq<char>>, slug: Seq<char>)
    ensures
        ({
            let limit = limit_token_spec(token, ids, slug);
            let market = market_token_spec(token, ids, slug);
            let up = text::same_ignoring_case(token, "up"@);
            let down = text::same_ignoring_case(token, "down"@);
            let small = text::lowercase_of(token);
            &&& ids.len() >= 2 && up ==> limit == Ok::<Seq<char>, OrderErrorView>(ids[0])
            &&& ids.len() >= 2 && down ==> limit == Ok::<Seq<char>, OrderErrorView>(ids[1])
            &&& ids.len() >= 2 && !up && !down ==> limit == Err::<Seq<char>, OrderErrorView>(
                OrderErrorView::InvalidLimitToken(token),
            )
            &&& ids.len() >= 2 && small == "up"@ ==> market == Ok::<Seq<char>, OrderErrorView>(
                ids[0],
            )
            &&& ids.len() >= 2 && small == "down"@ ==> market == Ok::<Seq<char>, OrderErrorView>(
                ids[1],
            )
            &&& ids.len() >= 2 && small != "up"@ && small != "down"@ ==> market == Err::<
                Seq<char>,
                OrderErrorView,
            >(OrderErrorView::InvalidMarketToken(token))
            &&& ids.len() < 2 ==> limit == Err::<Seq<char>, OrderErrorView>(
                OrderErrorView::NoTokenIds(slug),
            ) && market == Err::<Seq<char>, OrderErrorView>(OrderErrorView::NoTokenIds(slug))
        }),
{
    reveal_strlit("up");
    reveal_strlit("down");
}

/// A limit order is sent with the price, the size and the side that it names, each read from its
/// own text; it is sent exactly where all three can be read.
pub proof fn law_limit_terms_are_those_asked_for(price: Seq<char>, size: Seq<char>, side: Seq<char>)
    ensures
        ({
            let terms = limit_terms_spec(price, size, side);
            let small = text::lowercase_of(side);
            &&& terms is Ok <==> decimal::decimal_of_text(price) is Ok && decimal::decimal_of_text(
                size,
            ) is Ok && (small == "buy"@ || small == "sell"@)
            &&& terms is Ok ==> Ok::<Dec, Seq<char>>(terms->Ok_0.price) == decimal::decimal_of_text(
                price,
            ) && Ok::<Dec, Seq<char>>(terms->Ok_0.size) == decimal::decimal_of_text(size)
            &&& terms is Ok && small == "buy"@ ==> terms->Ok_0.side is Buy
            &&& terms is Ok && small == "sell"@ ==> terms->Ok_0.side is Sell
            &&& decimal::decimal_of_text(price) is Err ==> terms == Err::<
                LimitTerms,
                OrderErrorView,
            >(OrderErrorView::InvalidAmount(decimal::decimal_of_text(price)->Err_0))
            &&& decimal::decimal_of_text(price) is Ok && decimal::decimal_of_text(size) is Err
                ==> terms == Err::<LimitTerms, OrderErrorView>(
                OrderErrorView::InvalidAmount(decimal::decimal_of_text(size)->Err_0),
            )
            &&& decimal::decimal_of_text(price) is Ok && decimal::decimal_of_text(size) is Ok
                && small != "buy"@ && small != "sell"@ ==> terms == Err::<
                LimitTerms,
                OrderErrorView,
            >(OrderErrorView::InvalidSide(side))
        }),
{
    reveal_strlit("buy");
    reveal_strlit("sell");
    assert("buy"@.len() != "sell"@.len());
}

/// A market order is for the money that it names, and for the shares only where it names no money;
/// it keeps a partial fill exactly where it asks for that.
pub proof fn law_market_terms_are_those_asked_for(
    side: Seq<char>,
    usdc: Option<Seq<char>>,
    shares: Option<Seq<char>>,
    order_type: Option<Seq<char>>,
)
    ensures
        ({
            let terms = market_terms_spec(side, usdc, shares, order_type);
            let small = text::lowercase_of(side);
            let sided = small == "buy"@ || small == "sell"@;
            let amount = if usdc is Some { usdc } else { shares };
            &&& terms is Ok <==> sided && amount is Some && decimal::decimal_of_text(amount->0) is Ok
            &&& terms is Ok && usdc is Some ==> terms->Ok_0.amount is Usdc && Ok::<Dec, Seq<char>>(
                terms->Ok_0.amount->Usdc_0,
            ) == decimal::decimal_of_text(usdc->0)
            &&& terms is Ok && usdc is None ==> terms->Ok_0.amount is Shares && Ok::<
                Dec,
                Seq<char>,
            >(terms->Ok_0.amount->Shares_0) == decimal::decimal_of_text(shares->0)
            &&& terms is Ok && small == "buy"@ ==> terms->Ok_0.side is Buy
            &&& terms is Ok && small == "sell"@ ==> terms->Ok_0.side is Sell
            &&& terms is Ok ==> (terms->Ok_0.order_type is Fak <==> order_type == Some("FAK"@))
            &&& !sided ==> terms == Err::<MarketTerms, OrderErrorView>(
                OrderErrorView::InvalidSide(side),
            )
            &&& sided && amount is None ==> terms == Err::<MarketTerms, OrderErrorView>(
                OrderErrorView::MissingAmount,
            )
        }),
{
    reveal_strlit("buy");
    reveal_strlit("sell");
    assert("buy"@.len() != "sell"@.len());
}

/// From the command to the order: a limit order that the exchange takes is in the state
/// afterwards, under the exchange's identifier, with the side, token, price, size, window and
/// price of its automatic sale that the command named; its exit desk starts with that price where
/// it is above zero, and else with 0.10. An order that is not taken changes nothing.
pub proof fn law_limit_order_becomes_what_was_asked_for(
    s: StateView,
    side: Seq<char>,
    token: Seq<char>,
    price: Seq<char>,
    size: Seq<char>,
    rapid_price: Seq<char>,
    window_ts: u64,
    action: WorkerAction,
    id: String,
    reason: String,
)
    requires
        answers(
            s,
            CommandView::PlaceLimit { side, token, price, size, rapid_price, window_ts },
            action,
        ),
    ensures
        (action matches WorkerAction::SubmitLimit { request, rapid_price: rapid, window_ts: w } && {
            let taken = limit_events_spec(request, rapid@, w, OrderReply::Placed(id));
            let refused = limit_events_spec(request, rapid@, w, OrderReply::Rejected(reason));
            let failed = limit_events_spec(request, rapid@, w, OrderReply::Failed(reason));
            let after = crate::reducer::step(s, taken[0]);
            let order = after.orders[id@];
            let sale = decimal::decimal_of_text(rapid_price);
            &&& after.orders.contains_key(id@)
            &&& order.id == id@ && order.side == side && order.token == token && order.price == price
                && order.size == size && order.window_ts == window_ts && order.rapid_sell_price
                == rapid_price
            &&& order.status is Open && order.rapid_sell_state is Idle
            &&& sale is Ok && sale->Ok_0.mantissa > 0 ==> order.inline_sell_price
                == decimal::decimal_text(sale->Ok_0)
            &&& sale is Err || sale->Ok_0.mantissa <= 0 ==> order.inline_sell_price == "0.10"@
            &&& refused.len() == 1 && refused[0] is Notify && crate::reducer::step(s, refused[0])
                == s
            &&& failed.len() == 1 && failed[0] is Notify && crate::reducer::step(s, failed[0]) == s
        }),
{
}

/// From the command to the order: a market order that the exchange takes is in the state
/// afterwards with the side, token and window that the command named, and one that is not taken
/// changes nothing. What is asked of the exchange is what the command named.
pub proof fn law_market_order_becomes_what_was_asked_for(
    s: StateView,
    side: Seq<char>,
    token: Seq<char>,
    usdc: Option<Seq<char>>,
    shares: Option<Seq<char>>,
    order_type: Option<Seq<char>>,
    window_ts: u64,
    action: WorkerAction,
    id: String,
    reason: String,
)
    requires
        answers(
            s,
            CommandView::PlaceMarket { side, token, usdc, shares, order_type, window_ts },
            action,
        ),
    ensures
        (action matches WorkerAction::SubmitMarket { request, window_ts: w } && {
            let taken = market_events_spec(request.side@, request.token@, w, OrderReply::Placed(id));
            let refused = market_events_spec(
                request.side@,
                request.token@,
                w,
                OrderReply::Rejected(reason),
            );
            let after = crate::reducer::step(s, taken[0]);
            let order = after.orders[id@];
            &&& text::opt_text(request.usdc) == usdc && text::opt_text(request.shares) == shares
                && text::opt_text(request.order_type) == order_type
            &&& after.orders.contains_key(id@)
            &&& order.id == id@ && order.side == side && order.token == token && order.window_ts
                == window_ts
            &&& order.status is Open && order.rapid_sell_state is Idle && order.rapid_sell_price
                == "0.00"@
            &&& refused.len() == 1 && refused[0] is Notify && crate::reducer::step(s, refused[0])
                == s
        }),
{
}

/// A command about one order is carried out on that order, a closed window is closed, and a changed
/// interval is set for the loop that it was changed for.
pub proof fn law_command_is_carried_out_on_what_it_names(
    s: StateView,
    order_id: Seq<char>,
    window_ts: u64,
    milliseconds: u64,
    queue: Queue,
    action: WorkerAction,
)
    ensures
        answers(s, CommandView::CancelIndividual { order_id, window_ts }, action) ==> (
        action matches WorkerAction::Cancel { order_id: id } && id@ == order_id),
        answers(s, CommandView::CheckStatus { order_id, window_ts }, action) ==> (
        action matches WorkerAction::QueryStatus { order_id: id } && id@ == order_id),
        answers(s, CommandView::CloseWindow { window_ts }, action) ==> (
        action matches WorkerAction::Emit(event) && event@ == (EventView::WindowClosed {
            window_ts,
        })),
        answers(s, CommandView::UpdatePollInterval { milliseconds, queue }, action) ==> action == (
        WorkerAction::SetInterval { queue, milliseconds }),
{
}

/// A cancelled order is marked as cancelled exactly where the exchange says so, and a refusal or a
/// failure changes nothing.
pub proof fn law_only_a_confirmed_cancellation_counts(
    s: StateView,
    order_id: Seq<char>,
    canceled: Vec<String>,
    not_canceled: Vec<(String, String)>,
    reason: String,
)
    requires
        s.orders.contains_key(order_id),
    ensures
        ({
            let answered = cancel_events_spec(
                order_id,
                CancelReply::Answered { canceled, not_canceled },
            );
            let failed = cancel_events_spec(order_id, CancelReply::Failed(reason));
            let listed = exists|i: int|
                0 <= i < canceled@.len() && (#[trigger] canceled@[i])@ == order_id;
            let after = crate::reducer::step(s, answered[0]);
            &&& listed ==> after.orders[order_id].status is Canceled
            &&& !listed ==> answered.len() == 1 && answered[0] is Notify && after == s
            &&& failed.len() == 1 && failed[0] is Notify && crate::reducer::step(s, failed[0]) == s
        }),
{
    let list = text::texts(canceled@);
    if exists|i: int| 0 <= i < canceled@.len() && (#[trigger] canceled@[i])@ == order_id {
        let i = choose|i: int| 0 <= i < canceled@.len() && (#[trigger] canceled@[i])@ == order_id;
        assert(list[i] == order_id);
        assert(list.contains(order_id));
    }
    if list.contains(order_id) {
        let i = choose|i: int| 0 <= i < list.len() && list[i] == order_id;
        assert(canceled@[i]@ == order_id);
    }
}

/// The reason that is given for an order is that of the first entry for it; where there is none it
/// is unknown.
pub proof fn law_first_reason_is_given(list: Seq<(String, String)>, id: Seq<char>)
    ensures
        (forall|i: int| 0 <= i < list.len() ==> (#[trigger] list[i]).0@ != id) ==> reason_in(list, id)
            == "unknown reason"@,
        forall|k: int|
            0 <= k < list.len() && (#[trigger] list[k]).0@ == id && (forall|i: int|
                0 <= i < k ==> (#[trigger] list[i]).0@ != id) ==> reason_in(list, id)
                == list[k].1@,
    decreases list.len(),
{
    if list.len() > 0 && list[0].0@ != id {
        let rest = list.skip(1);
        law_first_reason_is_given(rest, id);
        if forall|i: int| 0 <= i < list.len() ==> (#[trigger] list[i]).0@ != id {
            assert forall|i: int| 0 <= i < rest.len() implies (#[trigger] rest[i]).0@ != id by {
                assert(rest[i] == list[i + 1]);
            }
        }
        assert forall|k: int|
            0 <= k < list.len() && (#[trigger] list[k]).0@ == id && (forall|i: int|
                0 <= i < k ==> (#[trigger] list[i]).0@ != id) implies reason_in(list, id)
            == list[k].1@ by {
            assert(rest[k - 1] == list[k]);
            assert forall|i: int| 0 <= i < k - 1 implies (#[trigger] rest[i]).0@ != id by {
                assert(rest[i] == list[i + 1]);
            }
        }
    }
}

/// An answer of the exchange counts as a success exactly where it says so, and then gives the
/// identifier of the order.
pub proof fn law_success_gives_the_identifier(resp: PostOrderReply)
    ensures
        response_spec(resp) is Ok <==> resp.success,
        resp.success ==> response_spec(resp)->Ok_0 == resp.order_id@,
        !resp.success && resp.error_msg is Some ==> response_spec(resp)->Err_0 == "Engine reject: "@
            + resp.error_msg->0@,
{
}

/// The user is told of every reply, once and last: with success exactly where the order was placed,
/// and else with an error that gives the reason.
pub proof fn law_user_is_told_of_the_reply(
    request: LimitRequest,
    rapid_price: Seq<char>,
    side: Seq<char>,
    token: Seq<char>,
    window_ts: u64,
    reply: OrderReply,
)
    ensures
        ({
            let limit = limit_events_spec(request, rapid_price, window_ts, reply);
            let market = market_events_spec(side, token, window_ts, reply);
            let told = |event: EventView, good: Seq<char>, refused: Seq<char>, lost: Seq<char>|
                {
                    let (text, sort) = match reply {
                        OrderReply::Placed(_) => (good, NotificationKind::Success),
                        OrderReply::Rejected(why) => (refused + why@, NotificationKind::Error),
                        OrderReply::Failed(why) => (lost + why@, NotificationKind::Error),
                    };
                    (event matches EventView::Notify { message, kind } && message == text && kind
                        == sort)
                };
            &&& limit.len() == (if reply is Placed { 2int } else { 1 })
            &&& market.len() == (if reply is Placed { 2int } else { 1 })
            &&& reply is Placed ==> limit[0] is OrderPlaced && market[0] is OrderPlaced
            &&& told(
                limit.last(),
                "Limit Order Placed"@,
                "Limit rejected: "@,
                "Limit transport error: "@,
            )
            &&& told(
                market.last(),
                "Market Order Placed"@,
                "Market rejected: "@,
                "Market transport error: "@,
            )
        }),
{
}

/// After a request to cancel one order the user is told, once and last: that it is cancelled, or why
/// it is not.
pub proof fn law_user_is_told_of_the_cancellation(order_id: Seq<char>, reply: CancelReply)
    ensures
        ({
            let events = cancel_events_spec(order_id, reply);
            match reply {
                CancelReply::Failed(why) => events.len() == 1 && (events[0] matches EventView::Notify {
                    message,
                    kind,
                } && message == "Cancel transport error: "@ + why@ && kind is Error),
                CancelReply::Answered { canceled, not_canceled } => if events.len() == 2 {
                    (events[0] matches EventView::OrderCancelled { order_id: id } && id == order_id) && (
                    events[1] matches EventView::Notify { message, kind } && message
                        == "Order cancelled"@ && kind is Success)
                } else {
                    events.len() == 1 && (events[0] matches EventView::Notify { message, kind }
                        && message == "Cancel rejected: "@ + reason_in(not_canceled@, order_id)
                        && kind is Error)
                },
            }
        }),
{
}

/// A request to cancel every order marks those of the list that the exchange says it cancelled, and
/// tells the user, last, how many those were in all; one that failed marks none and says why.
pub proof fn law_all_cancellations_are_noted(
    local_ids: Seq<Seq<char>>,
    canceled: Vec<String>,
    not_canceled: Vec<(String, String)>,
    reason: String,
    id: Seq<char>,
)
    ensures
        ({
            let events = cancel_all_events_spec(
                local_ids,
                CancelReply::Answered { canceled, not_canceled },
            );
            let failed = cancel_all_events_spec(local_ids, CancelReply::Failed(reason));
            &&& events.len() > 0
            &&& (events.last() matches EventView::Notify { message, kind } && message
                == "Batch cancel: "@ + decimal::digits(canceled@.len()) + " cancelled"@ && kind is
                Success)
            &&& events.contains(EventView::OrderCancelled { order_id: id }) <==> local_ids.contains(id)
                && exists|i: int| 0 <= i < canceled@.len() && (#[trigger] canceled@[i])@ == id
            &&& failed.len() == 1
            &&& (failed[0] matches EventView::Notify { message, kind } && message
                == "Batch cancel error: "@ + reason@ && kind is Error)
        }),
{
    let done = text::texts(canceled@);
    let marks = cancellations(local_ids, done);
    let events = cancel_all_events_spec(local_ids, CancelReply::Answered { canceled, not_canceled });
    let mark = EventView::OrderCancelled { order_id: id };
    lemma_cancellation_is_listed(local_ids, done, id);
    assert(events.drop_last() =~= marks);
    if marks.contains(mark) {
        let k = choose|k: int| 0 <= k < marks.len() && marks[k] == mark;
        assert(events[k] == mark);
    }
    if events.contains(mark) {
        let k = choose|k: int| 0 <= k < events.len() && events[k] == mark;
        assert(k < marks.len());
        assert(marks[k] == mark);
    }
    if done.contains(id) {
        let k = choose|k: int| 0 <= k < done.len() && done[k] == id;
        assert(canceled@[k]@ == id);
    }
    if exists|i: int| 0 <= i < canceled@.len() && (#[trigger] canceled@[i])@ == id {
        let k = choose|i: int| 0 <= i < canceled@.len() && (#[trigger] canceled@[i])@ == id;
        assert(done[k] == id);
    }
}

/// An order's cancellation is listed exactly where the order is in both lists.
proof fn lemma_cancellation_is_listed(list: Seq<Seq<char>>, canceled: Seq<Seq<char>>, id: Seq<char>)
    ensures
        cancellations(list, canceled).contains(EventView::OrderCancelled { order_id: id })
            <==> list.contains(id) && canceled.contains(id),
    decreases list.len(),
{
    let mark = EventView::OrderCancelled { order_id: id };
    if list.len() > 0 {
        let front = list.drop_last();
        lemma_cancellation_is_listed(front, canceled, id);
        let before = cancellations(front, canceled);
        let after = cancellations(list, canceled);
        if front.contains(id) {
            let k = choose|k: int| 0 <= k < front.len() && front[k] == id;
            assert(list[k] == id);
        }
        if list.contains(id) && id != list.last() {
            let k = choose|k: int| 0 <= k < list.len() && list[k] == id;
            assert(front[k] == id);
        }
        if canceled.contains(list.last()) {
            assert(after == before.push(EventView::OrderCancelled { order_id: list.last() }));
            assert(after[before.len() as int] == EventView::OrderCancelled { order_id: list.last() });
            if before.contains(mark) {
                let k = choose|k: int| 0 <= k < before.len() && before[k] == mark;
                assert(after[k] == mark);
            }
            if after.contains(mark) {
                let k = choose|k: int| 0 <= k < after.len() && after[k] == mark;
                if k < before.len() {
                    assert(before[k] == mark);
                }
            }
        }
    }
}

/// An error says in words what it is about: the text that could not be used stands in it.
pub proof fn law_error_quotes_its_cause(cause: Seq<char>)
    ensures
        OrderErrorView::NoTokenIds(cause).message() == "no token IDs for slug "@ + cause,
        OrderErrorView::InvalidLimitToken(cause).message() == "invalid token '"@ + cause
            + "'; must be 'up' or 'down'"@,
        OrderErrorView::InvalidMarketToken(cause).message() == "invalid token '"@ + cause + "'"@,
        OrderErrorView::InvalidSide(cause).message() == "invalid side '"@ + cause + "'"@,
        OrderErrorView::InvalidAmount(cause).message() == cause,
        OrderErrorView::MissingAmount.message() == "market order requires usdc or shares"@,
{
}

} // verus!

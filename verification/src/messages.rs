//! # Commands
//!
//! What the user interface asks of the worker. Answers come back as
//! [`crate::events::AppEvent`]s.

use vstd::prelude::*;
use crate::text;

verus! {

/// The polling loops whose interval the user can set.
#[derive(Clone, Copy, Debug, PartialEq, Eq, Structural)]
pub enum Queue {
    Orders,
    Trades,
    RapidSell,
}

#[derive(Debug, Clone)]
pub enum UiCommand {
    /// The user has authenticated.
    InitializeClient { token: String },
    /// The user changed a polling interval.
    UpdatePollInterval { milliseconds: u64, queue: Queue },
    /// Place an order at a limit.
    PlaceLimit {
        side: String,
        token: String,
        price: String,
        size: String,
        rapid_price: String,
        window_ts: u64,
    },
    /// Place an order at the market.
    PlaceMarket {
        side: String,
        token: String,
        usdc: Option<String>,
        shares: Option<String>,
        order_type: Option<String>,
        window_ts: u64,
    },
    /// Refresh the status of one order.
    CheckStatus { order_id: String, window_ts: u64 },
    /// Cancel one order.
    CancelIndividual { order_id: String, window_ts: u64 },
    /// Cancel all open orders of a window.
    CancelAllInWindow { window_ts: u64 },
    /// Close a window and forget its orders.
    CloseWindow { window_ts: u64 },
}

/// The mathematical value of a [`UiCommand`].
pub enum CommandView {
    InitializeClient { token: Seq<char> },
    UpdatePollInterval { milliseconds: u64, queue: Queue },
    PlaceLimit {
        side: Seq<char>,
        token: Seq<char>,
        price: Seq<char>,
        size: Seq<char>,
        rapid_price: Seq<char>,
        window_ts: u64,
    },
    PlaceMarket {
        side: Seq<char>,
        token: Seq<char>,
        usdc: Option<Seq<char>>,
        shares: Option<Seq<char>>,
        order_type: Option<Seq<char>>,
        window_ts: u64,
    },
    CheckStatus { order_id: Seq<char>, window_ts: u64 },
    CancelIndividual { order_id: Seq<char>, window_ts: u64 },
    CancelAllInWindow { window_ts: u64 },
    CloseWindow { window_ts: u64 },
}

impl View for UiCommand {
    type V = CommandView;

    open spec fn view(&self) -> CommandView {
        match *self {
            UiCommand::InitializeClient { token } => CommandView::InitializeClient {
                token: token@,
            },
            UiCommand::UpdatePollInterval { milliseconds, queue } => {
                CommandView::UpdatePollInterval { milliseconds, queue }
            },
            UiCommand::PlaceLimit { side, token, price, size, rapid_price, window_ts } => {
                CommandView::PlaceLimit {
                    side: side@,
                    token: token@,
                    price: price@,
                    size: size@,
                    rapid_price: rapid_price@,
                    window_ts,
                }
            },
            UiCommand::PlaceMarket { side, token, usdc, shares, order_type, window_ts } => {
                CommandView::PlaceMarket {
                    side: side@,
                    token: token@,
                    usdc: text::opt_text(usdc),
                    shares: text::opt_text(shares),
                    order_type: text::opt_text(order_type),
                    window_ts,
                }
            },
            UiCommand::CheckStatus { order_id, window_ts } => CommandView::CheckStatus {
                order_id: order_id@,
                window_ts,
            },
            UiCommand::CancelIndividual { order_id, window_ts } => CommandView::CancelIndividual {
                order_id: order_id@,
                window_ts,
            },
            UiCommand::CancelAllInWindow { window_ts } => CommandView::CancelAllInWindow {
                window_ts,
            },
            UiCommand::CloseWindow { window_ts } => CommandView::CloseWindow { window_ts },
        }
    }
}

/// What is read of a command is what it says: its kind, and every one of its parts.
pub proof fn law_command_is_read_in_full(command: UiCommand)
    ensures
        match command {
            UiCommand::InitializeClient { token: t } => (command@ matches CommandView::InitializeClient {
                token,
            } && token == t@),
            UiCommand::UpdatePollInterval { milliseconds: m, queue: q } => (
            command@ matches CommandView::UpdatePollInterval { milliseconds, queue } && milliseconds
                == m && queue == q),
            UiCommand::PlaceLimit {
                side: s,
                token: t,
                price: p,
                size: z,
                rapid_price: r,
                window_ts: w,
            } => (command@ matches CommandView::PlaceLimit {
                side,
                token,
                price,
                size,
                rapid_price,
                window_ts,
            } && side == s@ && token == t@ && price == p@ && size == z@ && rapid_price == r@
                && window_ts == w),
            UiCommand::PlaceMarket {
                side: s,
                token: t,
                usdc: u,
                shares: h,
                order_type: o,
                window_ts: w,
            } => (command@ matches CommandView::PlaceMarket {
                side,
                token,
                usdc,
                shares,
                order_type,
                window_ts,
            } && side == s@ && token == t@ && (usdc is Some <==> u is Some) && (u is Some ==> usdc->0
                == u->0@) && (shares is Some <==> h is Some) && (h is Some ==> shares->0 == h->0@) && (
            order_type is Some <==> o is Some) && (o is Some ==> order_type->0 == o->0@) && window_ts
                == w),
            UiCommand::CheckStatus { order_id: o, window_ts: w } => (
            command@ matches CommandView::CheckStatus { order_id, window_ts } && order_id == o@
                && window_ts == w),
            UiCommand::CancelIndividual { order_id: o, window_ts: w } => (
            command@ matches CommandView::CancelIndividual { order_id, window_ts } && order_id == o@
                && window_ts == w),
            UiCommand::CancelAllInWindow { window_ts: w } => (
            command@ matches CommandView::CancelAllInWindow { window_ts } && window_ts == w),
            UiCommand::CloseWindow { window_ts: w } => (command@ matches CommandView::CloseWindow {
                window_ts,
            } && window_ts == w),
        },
{
}

} // verus!

//! The two consoles for new orders.

use vstd::prelude::*;
use crate::messages::{CommandView, UiCommand};

verus! {

/// The console for orders at a limit.
#[derive(Debug)]
pub struct LimitForm {
    pub side_buy: bool,
    pub token_up: bool,
    pub price: String,
    pub size: String,
    pub rapid_price: String,
}

/// The console for orders at the market.
#[derive(Debug)]
pub struct MarketForm {
    pub token_up: bool,
    pub usdc: String,
    pub shares: String,
    pub use_usdc: bool,
    pub type_fok: bool,
}

/// The name of a token.
pub open spec fn token_name(up: bool) -> Seq<char> {
    if up { "up"@ } else { "down"@ }
}

fn token_text(up: bool) -> (r: String)
    ensures
        r@ == token_name(up),
{
    if up {
        "up".to_owned()
    } else {
        "down".to_owned()
    }
}

impl LimitForm {
    /// Whether the console stands as it does at first.
    pub open spec fn is_initial(self) -> bool {
        &&& self.side_buy
        &&& self.token_up
        &&& self.price@ == "0.50"@
        &&& self.size@ == "10"@
        &&& self.rapid_price@ == "0.00"@
    }

    /// What stands in the console at first.
    pub fn new() -> (r: Self)
        ensures
            r.is_initial(),
    {
        LimitForm {
            side_buy: true,
            token_up: true,
            price: "0.50".to_owned(),
            size: "10".to_owned(),
            rapid_price: "0.00".to_owned(),
        }
    }

    /// The command that the console stands for.
    pub fn command(&self, window_ts: u64) -> (r: UiCommand)
        ensures
            r@ == (CommandView::PlaceLimit {
                side: if self.side_buy { "buy"@ } else { "sell"@ },
                token: token_name(self.token_up),
                price: self.price@,
                size: self.size@,
                rapid_price: self.rapid_price@,
                window_ts,
            }),
    {
        UiCommand::PlaceLimit {
            side: if self.side_buy {
                "buy".to_owned()
            } else {
                "sell".to_owned()
            },
            token: token_text(self.token_up),
            price: self.price.clone(),
            size: self.size.clone(),
            rapid_price: self.rapid_price.clone(),
            window_ts,
        }
    }
}

impl MarketForm {
    /// Whether the console stands as it does at first.
    pub open spec fn is_initial(self) -> bool {
        &&& self.token_up
        &&& self.usdc@ == "5.00"@
        &&& self.shares@ == "0"@
        &&& self.use_usdc
        &&& self.type_fok
    }

    /// What stands in the console at first.
    pub fn new() -> (r: Self)
        ensures
            r.is_initial(),
    {
        MarketForm {
            token_up: true,
            usdc: "5.00".to_owned(),
            shares: "0".to_owned(),
            use_usdc: true,
            type_fok: true,
        }
    }

    /// The command that the console stands for. It always buys, for an amount of dollars or
    /// for a number of shares, never both.
    pub fn command(&self, window_ts: u64) -> (r: UiCommand)
        ensures
            r@ == (CommandView::PlaceMarket {
                side: "buy"@,
                token: token_name(self.token_up),
                usdc: if self.use_usdc { Some(self.usdc@) } else { None },
                shares: if self.use_usdc { None } else { Some(self.shares@) },
                order_type: Some(if self.type_fok { "FOK"@ } else { "FAK"@ }),
                window_ts,
            }),
    {
        UiCommand::PlaceMarket {
            side: "buy".to_owned(),
            token: token_text(self.token_up),
            usdc: if self.use_usdc {
                Some(self.usdc.clone())
            } else {
                None
            },
            shares: if self.use_usdc {
                None
            } else {
                Some(self.shares.clone())
            },
            order_type: Some(
                if self.type_fok {
                    "FOK".to_owned()
                } else {
                    "FAK".to_owned()
                },
            ),
            window_ts,
        }
    }
}

/// The switch between the tokens chooses between two names.
pub proof fn law_switch_names_the_token(up: bool)
    ensures
        up ==> token_name(up) == "up"@,
        !up ==> token_name(up) == "down"@,
{
}

/// The consoles start with a purchase of the up token: ten shares at one half and without a price to
/// sell at, or five dollars' worth, all of it or nothing.
pub proof fn law_consoles_start_with_a_purchase(limit: LimitForm, market: MarketForm)
    ensures
        limit.is_initial() <==> limit.side_buy && limit.token_up && limit.price@ == "0.50"@
            && limit.size@ == "10"@ && limit.rapid_price@ == "0.00"@,
        market.is_initial() <==> market.token_up && market.use_usdc && market.type_fok
            && market.usdc@ == "5.00"@ && market.shares@ == "0"@,
{
}

} // verus!

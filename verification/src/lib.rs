//! Verified core of a trading terminal for five-minute binary markets.

pub mod decimal;
pub mod double;
pub mod events;
pub mod listing;
pub mod market_data;
pub mod messages;
pub mod prediction;
pub mod reducer;
pub mod state;
pub mod tables;
pub mod text;
pub mod ui;
pub mod worker;

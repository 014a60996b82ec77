//! # Worker
//!
//! What the background worker decides: what to ask of the exchange, and which events follow
//! from its answers. Sending and waiting are the caller's.

pub mod clock;
pub mod commands;
pub mod market_cache;
pub mod rapid_sell;
pub mod status;

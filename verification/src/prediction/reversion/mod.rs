//! Mean reversion: how likely the price of bitcoin is to come back to its equilibrium, over
//! several horizons.
//!
//! The engine works on raw ticks, before any of them is filtered out. Its estimates are handed
//! to it; what it keeps, when it gives an answer, and what the answer says is decided here.

pub mod barrier;
pub mod calibration;
pub mod config;
pub mod engine;
pub mod errors;
pub mod features;
pub mod horizon;
pub mod output;
pub mod quality;
pub mod regime;

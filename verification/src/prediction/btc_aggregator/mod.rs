//! Noise filter for the order books of several exchanges.
//!
//! ```text
//! ExchangeTick
//!   1. spike filter    per exchange, against its own moving average
//!   2. outlier gate    across exchanges
//!   3. aggregator      time buckets
//!   4. Kalman smoother
//! CleanPrice
//! ```
//!
//! Each layer keeps its state and takes its decisions here. The averages, distances and
//! quotients that it decides on are handed to it.

pub mod aggregator;
pub mod kalman;
pub mod outlier_gate;
pub mod pipeline;
pub mod ranking;
pub mod spike_filter;
pub mod tick;

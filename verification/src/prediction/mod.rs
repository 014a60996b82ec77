//! Predictions: samples, features, trackers, strategies and the signals they give.

pub mod analysis;
pub mod asset_table;
pub mod btc_aggregator;
pub mod btc_feed;
pub mod context;
pub mod conviction;
pub mod direction;
pub mod engine;
pub mod features;
pub mod polymarket_feed;
pub mod reversion;
pub mod samples;
pub mod service;
pub mod signals;
pub mod state;
pub mod statistics;
pub mod storage;
pub mod strategies;
pub mod strategy;
pub mod token_book;
pub mod trend_strength;
pub mod window_state;

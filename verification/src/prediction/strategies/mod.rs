//! The strategies.

pub mod any;
pub mod conviction_follow;
pub mod external_btc;
pub mod hype_reversion;
pub mod laws;
pub mod mean_reversion;
pub mod trend_strength_strategy;

//! Decision-and-risk engine of a bonding-curve sniper: token scoring,
//! trade admission with rate limits, the position ledger and automated exits.
//!
//! Amounts of the quote asset are in lamports, percentages in basis points
//! (10_000 = 100%), times in milliseconds since the Unix epoch, and prices in
//! price units (`PRICE_SCALE` units = one lamport per base token).

pub mod config;
pub mod fixed_point;
pub mod types;
pub mod token_analyzer;
pub mod admission;
pub mod ledger;
pub mod trader;
pub mod laws;
pub mod monitor;
pub mod fees;

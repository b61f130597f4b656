//! Decision core of a maker-order chaser for Binance USDⓈ-M futures.
//!
//! The library holds everything the chaser decides or computes: where the
//! configuration file is looked up, how API credentials are cleaned, how
//! prices and quantities are read and printed, how requests are signed and
//! laid out, how replies are judged, and the state machine that follows the
//! best bid or ask with a post-only order. Network, clock, file system and
//! window work stay with the caller.

pub mod decimal;
pub mod binance;
pub mod chaser;
pub mod config;
pub mod env_load;
pub mod json;
pub mod signing;
pub mod status;
pub mod text;
pub mod ui;

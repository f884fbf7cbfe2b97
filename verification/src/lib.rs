//! Price alerts over live ticker feeds.
//!
//! The crate holds the rules of a price-alert engine: how prices compare,
//! when an alert fires, how the registry of tickers changes under user edits
//! and feed ticks, and how the registry is saved and brought back. Every
//! function carries a contract that Verus proves.

pub mod alerts;
pub mod error;
pub mod events;
pub mod feed;
pub mod laws;
pub mod model;
pub mod price;
pub mod registry;
pub mod settings;
pub mod sounds;
pub mod symbol;
pub mod ticker;

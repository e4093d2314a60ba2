//! The closed vocabularies of the feed.

pub mod binance;
pub mod events;
pub mod streams;

//! Client-side logic for the Binance USD-M futures WebSocket feed.
//!
//! A session is set up with [`futures_usd::stream::FuturesUsdStream`]: a
//! configuration and the streams it asks for. Starting it gives a
//! [`futures_usd::client::ConnectionWorker`], a state machine that decides
//! what the connection does next from what its driver reports: connect,
//! send, read, hand an event over, sleep. The payloads that are read become
//! [`futures_usd::enums::events::Event`]s through
//! [`futures_usd::deserializer::deserialize`].
//!
//! The crate touches no socket and no clock. Whoever drives the connection
//! does; what this crate decides is stated in its contracts and proved.

pub mod constants;
pub mod decimal;
pub mod decode;
pub mod error;
pub mod futures_usd;
pub mod json;
pub mod text;

//! The USD-M futures feed.

pub mod client;
pub mod deserializer;
pub mod enums;
pub mod listen_key;
pub mod response;
pub mod stream;

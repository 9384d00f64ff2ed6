//! Streaming client core for a publish/subscribe market-data feed: the command
//! and event codec, topic naming, the broadcast bus, and the decisions of the
//! dispatcher and of a subscription stream.

pub mod json;
pub mod api;
pub mod codec;
pub mod types;
pub mod bus;
pub mod client;
pub mod dispatcher;
pub mod stream;

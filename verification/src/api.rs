//! The calls of the feed's streaming interface.

pub mod subscribe;

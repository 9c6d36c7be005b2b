//! Streaming speech recognition: the events it produces and its clients.

pub mod client;
pub mod mock;

//! Saved sessions.

pub mod export;

//! Latency measurements.

pub mod latency;

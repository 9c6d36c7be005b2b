//! The events of streaming speech recognition.

use vstd::prelude::*;

verus! {

/// Streaming recognition events, as the frontend receives them.
#[derive(Debug, Clone)]
pub enum AsrEvent {
    Partial {
        session_id: String,
        text: String,
        started_at_ms: i64,
        ended_at_ms: i64,
        received_at_ms: i64,
    },
    Final {
        session_id: String,
        text: String,
        started_at_ms: i64,
        ended_at_ms: i64,
        received_at_ms: i64,
    },
    Endpoint { session_id: String, silence_ms: i64, detected_at_ms: i64 },
}

/// A source of recognized speech.
pub trait StreamingAsrClient: Send + Sync {
    /// A short name that identifies the client.
    fn name(&self) -> &'static str;
}

} // verus!

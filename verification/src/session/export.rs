//! The text-only record of a session that can be exported.

use vstd::prelude::*;

verus! {

/// A session as exported: its identity, its time span and its text events.
#[derive(Debug, Clone)]
pub struct SessionExport {
    pub id: String,
    pub title: String,
    pub started_at: String,
    pub ended_at: Option<String>,
    pub events: Vec<SessionExportEvent>,
}

/// One text event of an exported session.
#[derive(Debug, Clone)]
pub struct SessionExportEvent {
    pub event_type: String,
    pub text: String,
    pub is_final: bool,
    pub started_at_ms: i64,
    pub ended_at_ms: i64,
}

} // verus!

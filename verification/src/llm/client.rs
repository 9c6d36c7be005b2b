//! The data that flows through reply generation: the request, the streamed
//! reply events, what a poll of a running generation yields, and its errors.

use vstd::prelude::*;

verus! {

/// What a reply is asked for: the current turn and the turns before it.
#[derive(Debug, Clone)]
pub struct ReplyRequest {
    pub session_id: String,
    pub generation_id: String,
    pub transcript: String,
    pub context: Vec<String>,
}

/// Streaming reply events, as the frontend receives them.
#[derive(Debug, Clone)]
pub enum ReplyEvent {
    Started {
        session_id: String,
        generation_id: String,
        based_on_transcript_event_id: String,
        received_at_ms: i64,
    },
    Token { session_id: String, generation_id: String, token: String, received_at_ms: i64 },
    Final { session_id: String, generation_id: String, text: String, received_at_ms: i64 },
}

/// The mathematical value of a [`ReplyEvent`].
pub enum ReplyEventModel {
    Started {
        session_id: Seq<char>,
        generation_id: Seq<char>,
        based_on_transcript_event_id: Seq<char>,
        received_at_ms: int,
    },
    Token { session_id: Seq<char>, generation_id: Seq<char>, token: Seq<char>, received_at_ms: int },
    Final { session_id: Seq<char>, generation_id: Seq<char>, text: Seq<char>, received_at_ms: int },
}

impl View for ReplyEvent {
    type V = ReplyEventModel;

    open spec fn view(&self) -> ReplyEventModel {
        match self {
            ReplyEvent::Started {
                session_id,
                generation_id,
                based_on_transcript_event_id,
                received_at_ms,
            } => ReplyEventModel::Started {
                session_id: session_id@,
                generation_id: generation_id@,
                based_on_transcript_event_id: based_on_transcript_event_id@,
                received_at_ms: *received_at_ms as int,
            },
            ReplyEvent::Token { session_id, generation_id, token, received_at_ms } =>
                ReplyEventModel::Token {
                session_id: session_id@,
                generation_id: generation_id@,
                token: token@,
                received_at_ms: *received_at_ms as int,
            },
            ReplyEvent::Final { session_id, generation_id, text, received_at_ms } =>
                ReplyEventModel::Final {
                session_id: session_id@,
                generation_id: generation_id@,
                text: text@,
                received_at_ms: *received_at_ms as int,
            },
        }
    }
}

/// What polling a running reply generation yields.
#[derive(Debug, Clone)]
pub enum ReplyPoll {
    /// Nothing new yet.
    Pending,
    /// The next event of the reply.
    Event(ReplyEvent),
    /// The generation is over; every later poll yields this too.
    Done,
}

/// The mathematical value of a [`ReplyPoll`].
pub enum ReplyPollModel {
    Pending,
    Event(ReplyEventModel),
    Done,
}

impl View for ReplyPoll {
    type V = ReplyPollModel;

    open spec fn view(&self) -> ReplyPollModel {
        match self {
            ReplyPoll::Pending => ReplyPollModel::Pending,
            ReplyPoll::Event(e) => ReplyPollModel::Event(e@),
            ReplyPoll::Done => ReplyPollModel::Done,
        }
    }
}

/// Errors of a reply provider.
#[derive(Debug, Clone)]
pub enum LlmError {
    Provider(String),
}

/// A source of suggested replies.
pub trait StreamingReplyClient: Send + Sync {
    /// A short name that identifies the client.
    fn name(&self) -> &'static str;
}

} // verus!

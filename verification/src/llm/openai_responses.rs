//! Reply generation through the OpenAI Responses API: the configuration, the
//! request body, the server-sent-event stream and the state of one reply as
//! its events arrive.

use vstd::prelude::*;
use vstd::string::*;
use vstd::utf8::*;
use super::client::{LlmError, ReplyEvent, ReplyEventModel, ReplyPoll, ReplyPollModel, ReplyRequest};
use crate::channel::{try_receive, Received};
use crate::clock::unix_millis;
use crate::text::{is_blank, is_blank_seq, same_text, starts_with_seq, strip_prefix, trim, trim_seq};

verus! {

/// The model used when no other is configured.
pub const DEFAULT_OPENAI_REPLY_MODEL: &'static str = "gpt-5.4-mini";

/// Where reply requests are sent.
pub const RESPONSES_URL: &'static str = "https://api.openai.com/v1/responses";

/// The reply text shown when generation fails.
pub const GENERIC_FAILURE_TEXT: &'static str =
    "Reply generation failed. Check your OpenAI API key or network connection.";

/// The system message of every request body.
pub const RESPONSES_SYSTEM_MESSAGE: &'static str =
    "You are a live meeting assistant. Suggest one concise, useful reply the user could say next. Keep it natural, specific, and short.";

/// The message of the error returned for a missing or blank API key.
pub const MISSING_API_KEY_MESSAGE: &'static str = "missing OPENAI_API_KEY";

/// Longest error body, in bytes, quoted in an error message.
pub const ERROR_BODY_LIMIT: usize = 240;

/// Credentials and model for the Responses API.
#[derive(Clone, PartialEq, Eq)]
pub struct OpenAiReplyConfig {
    pub api_key: String,
    pub model: String,
}

/// The model that a configured override stands for: the override itself
/// unless it is missing or blank, the default model otherwise.
pub open spec fn chosen_model(model_override: Option<Seq<char>>) -> Seq<char> {
    match model_override {
        Some(m) => if is_blank_seq(m) {
            DEFAULT_OPENAI_REPLY_MODEL@
        } else {
            m
        },
        None => DEFAULT_OPENAI_REPLY_MODEL@,
    }
}

impl OpenAiReplyConfig {
    /// A configuration with `api_key` and the model named by
    /// `model_override` (the configured model, if any), falling back to the
    /// default model when the override is missing or blank.
    pub fn from_api_key(api_key: String, model_override: Option<String>) -> (r: Self)
        ensures
            r.api_key@ == api_key@,
            r.model@ == chosen_model(
                match model_override {
                    Some(m) => Some(m@),
                    None => None,
                },
            ),
    {
        let model = match model_override {
            Some(m) => if is_blank(m.as_str()) {
                String::from_str(DEFAULT_OPENAI_REPLY_MODEL)
            } else {
                m
            },
            None => String::from_str(DEFAULT_OPENAI_REPLY_MODEL),
        };
        OpenAiReplyConfig { api_key, model }
    }
}

/// How `Debug` quotes a text: between double quotes, with escapes.
pub uninterp spec fn debug_quoted(text: Seq<char>) -> Seq<char>;

/// `Debug` of `str`, through `format!("{:?}", ..)`. Claimed: the result
/// depends on the text alone. The escaping rules themselves are not stated.
#[verifier::external_body]
fn debug_quote(text: &str) -> (r: String)
    ensures
        r@ == debug_quoted(text@),
{
    format!("{:?}", text)
}

/// How a configuration is shown in logs: the API key is never shown.
pub open spec fn redacted_config_text(model: Seq<char>) -> Seq<char> {
    "OpenAiReplyConfig { api_key: \"<redacted>\", model: "@ + debug_quoted(model) + " }"@
}

impl OpenAiReplyConfig {
    /// The configuration as `Debug` shows it, with the API key replaced by
    /// `"<redacted>"`.
    pub fn redacted_debug(&self) -> (r: String)
        ensures
            r@ == redacted_config_text(self.model@),
    {
        let mut text = String::from_str("OpenAiReplyConfig { api_key: \"<redacted>\", model: ");
        let model = debug_quote(self.model.as_str());
        text.append(model.as_str());
        text.append(" }");
        text
    }
}

/// Milliseconds since the Unix epoch, as an `i64`; `0` when the clock is set
/// before the epoch. Nothing is stated of the value: it is the time.
pub fn now_ms() -> i64 {
    match unix_millis() {
        Some(ms) => ms as i64,
        None => 0,
    }
}

/// Refuses a configuration whose API key is blank.
pub fn validate_reply_config(config: &OpenAiReplyConfig) -> (r: Result<(), LlmError>)
    ensures
        r is Ok <==> !is_blank_seq(config.api_key@),
        r matches Err(LlmError::Provider(m)) ==> m@ == MISSING_API_KEY_MESSAGE@,
{
    if is_blank(config.api_key.as_str()) {
        Err(LlmError::Provider(String::from_str(MISSING_API_KEY_MESSAGE)))
    } else {
        Ok(())
    }
}

/// The earlier turns, one per line, each behind `"- "`.
pub open spec fn context_lines(context: Seq<Seq<char>>) -> Seq<char>
    decreases context.len(),
{
    if context.len() == 0 {
        Seq::empty()
    } else if context.len() == 1 {
        "- "@ + context[0]
    } else {
        context_lines(context.drop_last()) + "\n- "@ + context.last()
    }
}

/// The context block of a request: the bullet list of earlier turns, or
/// `"(none)"` when there are none.
pub open spec fn context_block(context: Seq<Seq<char>>) -> Seq<char> {
    if context.len() == 0 {
        "(none)"@
    } else {
        context_lines(context)
    }
}

/// The turns of a request as texts.
pub open spec fn context_texts(context: Seq<String>) -> Seq<Seq<char>> {
    context.map_values(|turn: String| turn@)
}

/// The total length of the turns.
pub open spec fn turns_length(context: Seq<Seq<char>>) -> nat
    decreases context.len(),
{
    if context.len() == 0 {
        0
    } else {
        turns_length(context.drop_last()) + context.last().len()
    }
}

/// Where the line of turn `k` starts in the context block: after the turns
/// before it, each with its `"- "` and the line break that ends its line.
pub open spec fn line_start(context: Seq<Seq<char>>, k: int) -> int {
    turns_length(context.take(k)) + 3 * k
}

/// The context block of a non-empty context lists every turn, in order, one
/// line each: the line of turn `k` is `"- "` followed by the whole turn, a
/// line break stands before every line but the first, and nothing else is
/// there, so the block is as long as the turns plus three characters per
/// turn, less one.
pub proof fn context_block_lists_every_turn(context: Seq<Seq<char>>)
    requires
        context.len() > 0,
    ensures
        context_block(context).len() == turns_length(context) + 3 * context.len() - 1,
        forall|k: int|
            #![trigger line_start(context, k)]
            0 <= k < context.len() ==> {
                &&& 0 <= line_start(context, k)
                &&& line_start(context, k) + 2 + context[k].len() <= context_block(context).len()
                &&& context_block(context).subrange(
                    line_start(context, k),
                    line_start(context, k) + 2 + context[k].len(),
                ) == "- "@ + context[k]
            },
        forall|k: int|
            #![trigger line_start(context, k)]
            0 < k < context.len() ==> context_block(context)[line_start(context, k) - 1] == '\n',
    decreases context.len(),
{
    reveal_strlit("- ");
    reveal_strlit("\n- ");
    let n = context.len();
    let block = context_block(context);
    if n == 1 {
        assert(context.drop_last() =~= Seq::<Seq<char>>::empty());
        assert(context.take(0) =~= Seq::<Seq<char>>::empty());
        assert(block == "- "@ + context[0]);
        assert(line_start(context, 0) == 0);
        assert(block.subrange(0, 2 + context[0].len() as int) =~= "- "@ + context[0]);
    } else {
        let init = context.drop_last();
        let last = context.last();
        context_block_lists_every_turn(init);
        let prev = context_block(init);
        assert(block == prev + "\n- "@ + last);
        assert forall|k: int| #![trigger line_start(context, k)] 0 <= k < n implies {
            &&& 0 <= line_start(context, k)
            &&& line_start(context, k) + 2 + context[k].len() <= block.len()
            &&& block.subrange(line_start(context, k), line_start(context, k) + 2 + context[k].len())
                == "- "@ + context[k]
        } && (0 < k ==> block[line_start(context, k) - 1] == '\n') by {
            if k < n - 1 {
                assert(context.take(k) =~= init.take(k));
                assert(line_start(context, k) == line_start(init, k));
                assert(context[k] == init[k]);
                let a = line_start(init, k);
                let b = a + 2 + init[k].len();
                assert(block.subrange(a, b) =~= prev.subrange(a, b));
                if 0 < k {
                    assert(block[a - 1] == prev[a - 1]);
                }
            } else {
                assert(context.take(k) =~= init);
                assert(line_start(context, k) == prev.len() + 1);
                assert(block.subrange(prev.len() + 1int, prev.len() + 3 + last.len() as int) =~= "- "@ + last);
                assert(block[prev.len() as int] == '\n');
            }
        }
    }
}

/// Renders the earlier turns of a conversation for the request.
fn format_context(context: &Vec<String>) -> (r: String)
    ensures
        r@ == context_block(context_texts(context@)),
{
    if context.len() == 0 {
        return String::from_str("(none)");
    }
    let ghost texts = context_texts(context@);
    let mut out = String::new();
    let n: usize = context.len();
    let mut i: usize = 0;
    while i < n
        invariant
            n == context.len(),
            texts == context_texts(context@),
            i <= n,
            out@ == context_lines(texts.take(i as int)),
        decreases n - i,
    {
        if i == 0 {
            out.append("- ");
        } else {
            out.append("\n- ");
        }
        out.append(context[i].as_str());
        proof {
            assert(texts.take(i + 1).drop_last() =~= texts.take(i as int));
            if i == 0 {
                assert(context_lines(texts.take(1)) == "- "@ + texts[0]);
                assert(out@ =~= "- "@ + texts[0]);
            } else {
                assert(out@ =~= context_lines(texts.take(i as int)) + "\n- "@ + texts[i as int]);
            }
        }
        i = i + 1;
    }
    assert(texts.take(n as int) =~= texts);
    out
}

/// The user message of a request body.
pub open spec fn user_message_for(context: Seq<Seq<char>>, transcript: Seq<char>) -> Seq<char> {
    "Conversation context:\n"@ + context_block(context) + "\n\nCurrent turn:\n"@ + transcript
        + "\n\nWrite the suggested reply only."@
}

/// One message of a request body.
#[derive(Debug, Clone)]
pub struct ResponsesMessage {
    pub role: String,
    pub content: String,
}

/// The body of a streaming Responses API request.
#[derive(Debug, Clone)]
pub struct ResponsesBody {
    pub model: String,
    pub stream: bool,
    pub input: Vec<ResponsesMessage>,
}

/// The request body for `request`: the configured model, streaming on, the
/// fixed system message and a user message with the context and current turn.
pub fn build_responses_body(config: &OpenAiReplyConfig, request: &ReplyRequest) -> (r:
    ResponsesBody)
    ensures
        r.model@ == config.model@,
        r.stream,
        r.input.len() == 2,
        r.input[0].role@ == "system"@,
        r.input[0].content@ == RESPONSES_SYSTEM_MESSAGE@,
        r.input[1].role@ == "user"@,
        r.input[1].content@ == user_message_for(
            context_texts(request.context@),
            request.transcript@,
        ),
{
    let mut content = String::from_str("Conversation context:\n");
    let context = format_context(&request.context);
    content.append(context.as_str());
    content.append("\n\nCurrent turn:\n");
    content.append(request.transcript.as_str());
    content.append("\n\nWrite the suggested reply only.");
    let mut input: Vec<ResponsesMessage> = Vec::new();
    input.push(
        ResponsesMessage {
            role: String::from_str("system"),
            content: String::from_str(RESPONSES_SYSTEM_MESSAGE),
        },
    );
    input.push(ResponsesMessage { role: String::from_str("user"), content });
    ResponsesBody { model: config.model.clone(), stream: true, input }
}

/// Whether an error body is short enough to quote whole, or can be cut at
/// [`ERROR_BODY_LIMIT`] bytes without splitting a character (and its length
/// in bytes fits in a `usize`, as that of any text in memory does).
pub open spec fn error_body_can_be_cut(text: Seq<char>) -> bool {
    let bytes = encode_utf8(trim_seq(text));
    &&& bytes.len() <= usize::MAX
    &&& bytes.len() > ERROR_BODY_LIMIT ==> is_char_boundary(bytes, ERROR_BODY_LIMIT as int)
}

/// An error body as quoted in an error message: trimmed, and cut after
/// [`ERROR_BODY_LIMIT`] bytes with `"..."` appended when it is longer.
pub open spec fn quoted_error_body(text: Seq<char>) -> Seq<char> {
    let t = trim_seq(text);
    let bytes = encode_utf8(t);
    if bytes.len() <= ERROR_BODY_LIMIT {
        t
    } else {
        decode_utf8(bytes.subrange(0, ERROR_BODY_LIMIT as int)) + "..."@
    }
}

/// Trims an error body and shortens it to [`ERROR_BODY_LIMIT`] bytes.
pub fn truncate_for_error(text: &str) -> (r: String)
    requires
        error_body_can_be_cut(text@),
    ensures
        r@ == quoted_error_body(text@),
{
    let trimmed = trim(text);
    if trimmed.len() <= ERROR_BODY_LIMIT {
        return String::from_str(trimmed);
    }
    let (head, _) = trimmed.split_at(ERROR_BODY_LIMIT);
    proof {
        encode_utf8_decode_utf8(head@);
    }
    let mut out = String::from_str(head);
    out.append("...");
    out
}

/// The error for a refused request: the HTTP status and the quoted body.
pub fn http_status_error(status: &str, body: &str) -> (r: LlmError)
    requires
        error_body_can_be_cut(body@),
    ensures
        r matches LlmError::Provider(m) && m@ == "openai responses http "@ + status@ + ": "@
            + quoted_error_body(body@),
{
    let mut message = String::from_str("openai responses http ");
    message.append(status);
    message.append(": ");
    let quoted = truncate_for_error(body);
    message.append(quoted.as_str());
    LlmError::Provider(message)
}


/// Whether `serde_json::from_str` accepts `text` as a JSON document.
pub uninterp spec fn json_text_is_valid(text: Seq<char>) -> bool;

/// The message of the error `serde_json::from_str` gives for `text`.
pub uninterp spec fn json_error_message(text: Seq<char>) -> Seq<char>;

/// Parses `text` with `serde_json::from_str` into a `serde_json::Value`,
/// handing over the error's `Display` text when it fails. Claimed: it
/// succeeds exactly when the text is a JSON document, and the message depends
/// on the text alone. The parsed value is not kept; how JSON is read is not
/// stated.
#[verifier::external_body]
fn check_json(text: &str) -> (r: Result<(), String>)
    ensures
        r is Ok <==> json_text_is_valid(text@),
        r matches Err(m) ==> m@ == json_error_message(text@),
{
    match serde_json::from_str::<serde_json::Value>(text) {
        Ok(_) => Ok(()),
        Err(error) => Err(error.to_string()),
    }
}

/// The string member `key` of the JSON document `text`: the text of the
/// member when `text` is a JSON object whose member `key` is a JSON string,
/// `None` otherwise.
pub uninterp spec fn json_string_member(text: Seq<char>, key: Seq<char>) -> Option<Seq<char>>;

/// The string member `key` of the JSON document `text`, through
/// `serde_json::from_str` into a `serde_json::Value` and
/// `serde_json::Value::get`, keeping the member only when it is a JSON string.
/// Claimed: the result depends on `text` and `key` alone, and is `None` when
/// `text` is not a JSON document. How JSON is read is not stated.
#[verifier::external_body]
fn json_text_string_member(text: &str, key: &str) -> (r: Option<String>)
    ensures
        opt_text(r) == json_string_member(text@, key@),
        !json_text_is_valid(text@) ==> r is None,
{
    match serde_json::from_str::<serde_json::Value>(text) {
        Ok(value) => match value.get(key) {
            Some(serde_json::Value::String(member)) => Some(member.clone()),
            _ => None,
        },
        Err(_) => None,
    }
}

/// One line of a server-sent-event stream, classified.
#[derive(Debug, Clone)]
pub enum SseLine {
    /// Not a data line; it carries nothing for the reply.
    Skip,
    /// The end-of-stream marker `[DONE]`.
    Done,
    /// The payload of a data line.
    Data(String),
}

/// The mathematical value of an [`SseLine`].
pub enum SseLineModel {
    Skip,
    Done,
    Data(Seq<char>),
}

impl View for SseLine {
    type V = SseLineModel;

    open spec fn view(&self) -> SseLineModel {
        match self {
            SseLine::Skip => SseLineModel::Skip,
            SseLine::Done => SseLineModel::Done,
            SseLine::Data(d) => SseLineModel::Data(d@),
        }
    }
}

/// What a line of the event stream means: a trimmed line that begins with
/// `data:` carries the trimmed rest as payload, which is the end marker when
/// it reads `[DONE]`; any other line is skipped.
pub open spec fn sse_line_meaning(line: Seq<char>) -> SseLineModel {
    let t = trim_seq(line);
    if !starts_with_seq(t, "data:"@) {
        SseLineModel::Skip
    } else {
        let payload = trim_seq(t.subrange("data:"@.len() as int, t.len() as int));
        if payload == "[DONE]"@ {
            SseLineModel::Done
        } else {
            SseLineModel::Data(payload)
        }
    }
}

/// Classifies one line of the event stream.
pub fn classify_sse_line(line: &str) -> (r: SseLine)
    ensures
        r@ == sse_line_meaning(line@),
{
    let trimmed = trim(line);
    match strip_prefix(trimmed, "data:") {
        None => SseLine::Skip,
        Some(rest) => {
            let payload = trim(rest);
            if same_text(payload, "[DONE]") {
                SseLine::Done
            } else {
                SseLine::Data(String::from_str(payload))
            }
        },
    }
}

/// The event type of a streamed text fragment.
pub const DELTA_EVENT: &'static str = "response.output_text.delta";

/// The event type that completes a response.
pub const COMPLETED_EVENT: &'static str = "response.completed";

/// The event type of a failed response.
pub const RESPONSE_ERROR_EVENT: &'static str = "response.error";

/// The event type of a stream-level error.
pub const ERROR_EVENT: &'static str = "error";

/// What the reply stream delivers next.
#[derive(Debug, Clone)]
pub enum StreamInput {
    /// An event with its `type` and `delta` members, where they are strings.
    Event { kind: Option<String>, delta: Option<String> },
    /// The stream ended.
    End,
    /// The stream could not be opened or read.
    Failed,
}

/// The mathematical value of a [`StreamInput`].
pub enum StreamInputModel {
    Event { kind: Option<Seq<char>>, delta: Option<Seq<char>> },
    End,
    Failed,
}

/// The text of an optional string.
pub open spec fn opt_text(s: Option<String>) -> Option<Seq<char>> {
    match s {
        Some(t) => Some(t@),
        None => None,
    }
}

impl View for StreamInput {
    type V = StreamInputModel;

    open spec fn view(&self) -> StreamInputModel {
        match self {
            StreamInput::Event { kind, delta } => StreamInputModel::Event {
                kind: opt_text(*kind),
                delta: opt_text(*delta),
            },
            StreamInput::End => StreamInputModel::End,
            StreamInput::Failed => StreamInputModel::Failed,
        }
    }
}

/// The event that a JSON document delivers: its `type` and `delta` members,
/// where they are strings.
pub open spec fn event_of_json(text: Seq<char>) -> StreamInputModel {
    StreamInputModel::Event {
        kind: json_string_member(text, "type"@),
        delta: json_string_member(text, "delta"@),
    }
}

/// Reads the `type` and `delta` members of a streamed JSON event.
pub fn stream_input_from_text(data: &str) -> (r: StreamInput)
    ensures
        r@ == event_of_json(data@),
{
    let kind = json_text_string_member(data, "type");
    let delta = json_text_string_member(data, "delta");
    StreamInput::Event { kind, delta }
}

/// Reads the payload of a data line as a JSON event; a payload that is not
/// JSON gives a provider error that starts with `openai responses json: `.
pub fn decode_sse_data(data: &str) -> (r: Result<StreamInput, LlmError>)
    ensures
        r is Ok <==> json_text_is_valid(data@),
        r matches Ok(input) ==> input@ == event_of_json(data@),
        r matches Err(LlmError::Provider(m)) ==> m@ == "openai responses json: "@
            + json_error_message(data@),
{
    match check_json(data) {
        Ok(()) => Ok(stream_input_from_text(data)),
        Err(detail) => {
            let mut message = String::from_str("openai responses json: ");
            message.append(detail.as_str());
            Err(LlmError::Provider(message))
        },
    }
}

/// What the reply stream delivers next, given what reading the event stream
/// gave: an event, the end of the stream, or a read error (whose text is
/// dropped).
pub fn stream_input_from_next(next: Result<Option<StreamInput>, LlmError>) -> (r: StreamInput)
    ensures
        match next {
            Ok(Some(input)) => r@ == input@,
            Ok(None) => r is End,
            Err(_) => r is Failed,
        },
{
    match next {
        Ok(Some(input)) => input,
        Ok(None) => StreamInput::End,
        Err(_) => StreamInput::Failed,
    }
}

/// The state of one reply while its events arrive.
pub struct ReplyStream {
    session_id: String,
    generation_id: String,
    final_text: String,
    finished: bool,
}

/// The mathematical value of a [`ReplyStream`].
pub struct ReplyStreamModel {
    pub session_id: Seq<char>,
    pub generation_id: Seq<char>,
    pub final_text: Seq<char>,
    pub finished: bool,
}

impl View for ReplyStream {
    type V = ReplyStreamModel;

    closed spec fn view(&self) -> ReplyStreamModel {
        ReplyStreamModel {
            session_id: self.session_id@,
            generation_id: self.generation_id@,
            final_text: self.final_text@,
            finished: self.finished,
        }
    }
}

/// What one step of the reply stream emits: at most one event, and whether
/// the reply is over.
#[derive(Debug, Clone)]
pub struct StepOutput {
    pub event: Option<ReplyEvent>,
    pub done: bool,
}

/// The mathematical value of a [`StepOutput`].
pub struct StepOutputModel {
    pub event: Option<ReplyEventModel>,
    pub done: bool,
}

impl View for StepOutput {
    type V = StepOutputModel;

    open spec fn view(&self) -> StepOutputModel {
        StepOutputModel {
            event: match self.event {
                Some(e) => Some(e@),
                None => None,
            },
            done: self.done,
        }
    }
}

/// The final event of a reply with the text `text`.
pub open spec fn final_event(s: ReplyStreamModel, text: Seq<char>, now: int) -> ReplyEventModel {
    ReplyEventModel::Final {
        session_id: s.session_id,
        generation_id: s.generation_id,
        text,
        received_at_ms: now,
    }
}

/// The step that ends a reply with `text`.
pub open spec fn finish_with(s: ReplyStreamModel, text: Seq<char>, now: int) -> StepOutputModel {
    StepOutputModel { event: Some(final_event(s, text, now)), done: true }
}

/// What the reply stream emits for `input` in state `s` at time `now`:
/// a text fragment becomes a token; completion gives the collected text as the
/// final reply; an error event or a failed stream gives the failure text; the
/// end of the stream gives the collected text, or the failure text when
/// nothing was collected; any other event emits nothing.
pub open spec fn reply_step(s: ReplyStreamModel, input: StreamInputModel, now: int) -> StepOutputModel {
    match input {
        StreamInputModel::Event { kind, delta } => match kind {
            Some(k) => if k == DELTA_EVENT@ {
                match delta {
                    Some(d) => StepOutputModel {
                        event: Some(
                            ReplyEventModel::Token {
                                session_id: s.session_id,
                                generation_id: s.generation_id,
                                token: d,
                                received_at_ms: now,
                            },
                        ),
                        done: false,
                    },
                    None => StepOutputModel { event: None, done: false },
                }
            } else if k == COMPLETED_EVENT@ {
                finish_with(s, s.final_text, now)
            } else if k == RESPONSE_ERROR_EVENT@ || k == ERROR_EVENT@ {
                finish_with(s, GENERIC_FAILURE_TEXT@, now)
            } else {
                StepOutputModel { event: None, done: false }
            },
            None => StepOutputModel { event: None, done: false },
        },
        StreamInputModel::End => if s.final_text.len() == 0 {
            finish_with(s, GENERIC_FAILURE_TEXT@, now)
        } else {
            finish_with(s, s.final_text, now)
        },
        StreamInputModel::Failed => finish_with(s, GENERIC_FAILURE_TEXT@, now),
    }
}

/// The reply stream's state after `input`: a text fragment is added to the
/// collected text, and the stream is finished once a step is done.
pub open spec fn reply_stream_after(s: ReplyStreamModel, input: StreamInputModel) -> ReplyStreamModel {
    ReplyStreamModel {
        final_text: match input {
            StreamInputModel::Event { kind: Some(k), delta: Some(d) } => if k == DELTA_EVENT@ {
                s.final_text + d
            } else {
                s.final_text
            },
            _ => s.final_text,
        },
        finished: reply_step(s, input, 0).done,
        ..s
    }
}

/// The identifier of the transcript event a reply is based on.
pub open spec fn transcript_event_id(generation_id: Seq<char>) -> Seq<char> {
    "transcript-"@ + generation_id
}

impl ReplyStream {
    /// The state of a reply to `request` before any event arrived.
    pub fn new(request: &ReplyRequest) -> (r: Self)
        ensures
            r@ == (ReplyStreamModel {
                session_id: request.session_id@,
                generation_id: request.generation_id@,
                final_text: Seq::empty(),
                finished: false,
            }),
    {
        ReplyStream {
            session_id: request.session_id.clone(),
            generation_id: request.generation_id.clone(),
            final_text: String::new(),
            finished: false,
        }
    }

    /// The event that announces a reply to `request`, received at `now_ms`.
    pub fn started_event(request: &ReplyRequest, now_ms: i64) -> (r: ReplyEvent)
        ensures
            r@ == (ReplyEventModel::Started {
                session_id: request.session_id@,
                generation_id: request.generation_id@,
                based_on_transcript_event_id: transcript_event_id(request.generation_id@),
                received_at_ms: now_ms as int,
            }),
    {
        let mut based_on = String::from_str("transcript-");
        based_on.append(request.generation_id.as_str());
        ReplyEvent::Started {
            session_id: request.session_id.clone(),
            generation_id: request.generation_id.clone(),
            based_on_transcript_event_id: based_on,
            received_at_ms: now_ms,
        }
    }

    /// Whether the reply is over.
    pub fn is_finished(&self) -> (r: bool)
        ensures
            r == self@.finished,
    {
        self.finished
    }

    fn finish(&mut self, text: String, now_ms: i64) -> (r: StepOutput)
        requires
            !old(self)@.finished,
        ensures
            r@ == finish_with(old(self)@, text@, now_ms as int),
            final(self)@ == (ReplyStreamModel { finished: true, ..old(self)@ }),
    {
        self.finished = true;
        StepOutput {
            event: Some(
                ReplyEvent::Final {
                    session_id: self.session_id.clone(),
                    generation_id: self.generation_id.clone(),
                    text,
                    received_at_ms: now_ms,
                },
            ),
            done: true,
        }
    }

    /// Takes the next input of the stream, received at `now_ms`, and returns
    /// what to emit for it.
    pub fn step(&mut self, input: StreamInput, now_ms: i64) -> (r: StepOutput)
        requires
            !old(self)@.finished,
        ensures
            r@ == reply_step(old(self)@, input@, now_ms as int),
            final(self)@ == reply_stream_after(old(self)@, input@),
    {
        match input {
            StreamInput::Event { kind, delta } => match kind {
                Some(k) => {
                    if same_text(k.as_str(), DELTA_EVENT) {
                        match delta {
                            Some(d) => {
                                self.final_text.append(d.as_str());
                                StepOutput {
                                    event: Some(
                                        ReplyEvent::Token {
                                            session_id: self.session_id.clone(),
                                            generation_id: self.generation_id.clone(),
                                            token: d,
                                            received_at_ms: now_ms,
                                        },
                                    ),
                                    done: false,
                                }
                            },
                            None => StepOutput { event: None, done: false },
                        }
                    } else if same_text(k.as_str(), COMPLETED_EVENT) {
                        let text = self.final_text.clone();
                        self.finish(text, now_ms)
                    } else if same_text(k.as_str(), RESPONSE_ERROR_EVENT) || same_text(
                        k.as_str(),
                        ERROR_EVENT,
                    ) {
                        self.finish(String::from_str(GENERIC_FAILURE_TEXT), now_ms)
                    } else {
                        StepOutput { event: None, done: false }
                    }
                },
                None => StepOutput { event: None, done: false },
            },
            StreamInput::End => {
                if self.final_text.as_str().is_empty() {
                    self.finish(String::from_str(GENERIC_FAILURE_TEXT), now_ms)
                } else {
                    let text = self.final_text.clone();
                    self.finish(text, now_ms)
                }
            },
            StreamInput::Failed => self.finish(String::from_str(GENERIC_FAILURE_TEXT), now_ms),
        }
    }
}


/// A reply being generated elsewhere, read through the receiving end of the
/// channel its events are sent into.
pub struct OpenAiReplyGeneration {
    receiver: crossbeam_channel::Receiver<ReplyPoll>,
    done: bool,
    received: Ghost<Seq<Received<ReplyPoll>>>,
}

/// Whether `r`, with the generation over afterwards exactly when `over`, is
/// the answer to a poll on which the channel gave `received`: a message
/// other than `Done` is handed on as it came and the generation goes on;
/// `Done`, or a closed channel, yields `Done` and ends it; an empty channel
/// yields `Pending` and the generation goes on.
pub open spec fn answers(received: Received<ReplyPoll>, r: ReplyPoll, over: bool) -> bool {
    match received {
        Received::Message(ReplyPoll::Done) => r is Done && over,
        Received::Message(p) => r == p && !over,
        Received::Empty => r is Pending && !over,
        Received::Disconnected => r is Done && over,
    }
}

/// A message other than `Done` that the channel gives a poll reaches the
/// caller unchanged, a final reply event included, and leaves the generation
/// open; the generation is over after the poll exactly when the channel gave
/// `Done` or was closed.
pub proof fn poll_hands_on_every_message(received: Received<ReplyPoll>, r: ReplyPoll, over: bool)
    requires
        answers(received, r, over),
    ensures
        received matches Received::Message(p) ==> (!(p is Done) ==> r == p && !over),
        over <==> (received is Disconnected || received matches Received::Message(
            ReplyPoll::Done,
        )),
        r is Done <==> over,
{
}

/// What a poll yields for what the channel gave, and whether the generation
/// is over afterwards: `Done`, or a closed channel, ends it; an empty channel
/// yields `Pending`; anything else is passed on.
pub fn poll_outcome(received: Received<ReplyPoll>) -> (r: (ReplyPoll, bool))
    ensures
        match received {
            Received::Message(ReplyPoll::Done) => r.0 is Done && r.1,
            Received::Message(p) => r.0 == p && !r.1,
            Received::Empty => r.0 is Pending && !r.1,
            Received::Disconnected => r.0 is Done && r.1,
        },
{
    match received {
        Received::Message(ReplyPoll::Done) => (ReplyPoll::Done, true),
        Received::Message(p) => (p, false),
        Received::Empty => (ReplyPoll::Pending, false),
        Received::Disconnected => (ReplyPoll::Done, true),
    }
}

impl OpenAiReplyGeneration {
    /// Whether the generation is over.
    pub closed spec fn is_done(self) -> bool {
        self.done
    }

    /// The channel end the generation reads its events from.
    pub closed spec fn source(self) -> crossbeam_channel::Receiver<ReplyPoll> {
        self.receiver
    }

    /// What the channel gave the polls so far, in order.
    pub closed spec fn received_so_far(self) -> Seq<Received<ReplyPoll>> {
        self.received@
    }

    /// A generation read through `receiver`.
    pub fn from_receiver(receiver: crossbeam_channel::Receiver<ReplyPoll>) -> (r: Self)
        ensures
            !r.is_done(),
            r.source() == receiver,
            r.received_so_far() == Seq::<Received<ReplyPoll>>::empty(),
    {
        OpenAiReplyGeneration { receiver, done: false, received: Ghost(Seq::empty()) }
    }

    /// The next event of the reply, `Pending` when none is ready, or `Done`
    /// once the generation is over; after `Done` every poll yields `Done`.
    /// While the generation is open a poll reads the channel once, and what
    /// it returns answers what the channel gave.
    pub fn poll(&mut self) -> (r: ReplyPoll)
        ensures
            old(self).is_done() ==> r is Done,
            final(self).is_done() <==> r is Done,
            old(self).is_done() ==> final(self).is_done(),
            final(self).source() == old(self).source(),
            old(self).is_done() ==> final(self).received_so_far() == old(
                self,
            ).received_so_far(),
            !old(self).is_done() ==> {
                &&& final(self).received_so_far().len() == old(self).received_so_far().len() + 1
                &&& final(self).received_so_far().drop_last() == old(self).received_so_far()
                &&& answers(final(self).received_so_far().last(), r, final(self).is_done())
            },
    {
        if self.done {
            return ReplyPoll::Done;
        }
        let received = try_receive(&self.receiver);
        let ghost got = received;
        proof {
            self.received@ = self.received@.push(got);
        }
        let (poll, done) = poll_outcome(received);
        self.done = done;
        poll
    }
}


/// A streamed text fragment `d`.
pub open spec fn delta_input(d: Seq<char>) -> StreamInputModel {
    StreamInputModel::Event { kind: Some(DELTA_EVENT@), delta: Some(d) }
}

/// The completion event.
pub open spec fn completed_input() -> StreamInputModel {
    StreamInputModel::Event { kind: Some(COMPLETED_EVENT@), delta: None }
}

/// The fragments `ds` joined in order.
pub open spec fn joined(ds: Seq<Seq<char>>) -> Seq<char>
    decreases ds.len(),
{
    if ds.len() == 0 {
        Seq::empty()
    } else {
        joined(ds.drop_last()) + ds.last()
    }
}

/// The reply stream after the fragments `ds` arrived in order.
pub open spec fn after_deltas(s: ReplyStreamModel, ds: Seq<Seq<char>>) -> ReplyStreamModel
    decreases ds.len(),
{
    if ds.len() == 0 {
        s
    } else {
        reply_stream_after(after_deltas(s, ds.drop_last()), delta_input(ds.last()))
    }
}

/// Text fragments never end a reply, and the reply that completion then
/// delivers is the text collected before them followed by every fragment,
/// in order; the end of the stream delivers the same text when it is not
/// empty.
pub proof fn completed_reply_joins_fragments(s: ReplyStreamModel, ds: Seq<Seq<char>>, now: int)
    requires
        !s.finished,
    ensures
        !after_deltas(s, ds).finished,
        after_deltas(s, ds).final_text == s.final_text + joined(ds),
        reply_step(after_deltas(s, ds), completed_input(), now) == finish_with(
            after_deltas(s, ds),
            s.final_text + joined(ds),
            now,
        ),
        (s.final_text + joined(ds)).len() > 0 ==> reply_step(
            after_deltas(s, ds),
            StreamInputModel::End,
            now,
        ) == finish_with(after_deltas(s, ds), s.final_text + joined(ds), now),
    decreases ds.len(),
{
    reveal_strlit("response.output_text.delta");
    reveal_strlit("response.completed");
    assert(DELTA_EVENT@[9] != COMPLETED_EVENT@[9]);
    assert(COMPLETED_EVENT@ != DELTA_EVENT@);
    if ds.len() > 0 {
        completed_reply_joins_fragments(s, ds.drop_last(), now);
        assert(s.final_text + joined(ds) =~= s.final_text + joined(ds.drop_last()) + ds.last());
    } else {
        assert(s.final_text + joined(ds) =~= s.final_text);
    }
}

/// Once a step ends the reply, the stream is finished; a step that does not
/// end it leaves the stream open.
pub proof fn finished_exactly_when_done(s: ReplyStreamModel, input: StreamInputModel, now: int)
    ensures
        reply_stream_after(s, input).finished == reply_step(s, input, now).done,
{
}


/// Whether `e` is a token or the final event of the reply `session_id` /
/// `generation_id`.
pub open spec fn belongs_to_reply(e: ReplyEventModel, session_id: Seq<char>, generation_id: Seq<char>) -> bool {
    match e {
        ReplyEventModel::Token { session_id: sid, generation_id: gid, .. } => sid == session_id
            && gid == generation_id,
        ReplyEventModel::Final { session_id: sid, generation_id: gid, .. } => sid == session_id
            && gid == generation_id,
        ReplyEventModel::Started { .. } => false,
    }
}

/// The events that the reply stream in state `s` emits for `inputs`, each
/// with the time it arrived, in order; inputs after the reply is over are
/// not taken.
pub open spec fn run_events(s: ReplyStreamModel, inputs: Seq<(StreamInputModel, int)>) -> Seq<
    ReplyEventModel,
>
    decreases inputs.len(),
{
    if inputs.len() == 0 || s.finished {
        Seq::empty()
    } else {
        let rest = run_events(reply_stream_after(s, inputs[0].0), inputs.drop_first());
        match reply_step(s, inputs[0].0, inputs[0].1).event {
            Some(e) => seq![e] + rest,
            None => rest,
        }
    }
}

/// The state the reply stream in state `s` is in after `inputs`.
pub open spec fn run_state(s: ReplyStreamModel, inputs: Seq<(StreamInputModel, int)>) -> ReplyStreamModel
    decreases inputs.len(),
{
    if inputs.len() == 0 || s.finished {
        s
    } else {
        run_state(reply_stream_after(s, inputs[0].0), inputs.drop_first())
    }
}

/// Over any run, the reply stream emits tokens and then at most one final
/// event, which is the last event; every event carries the reply's session
/// and generation; the reply is over exactly when the final event was
/// emitted, and once it is over nothing more is emitted.
pub proof fn reply_run_is_tokens_then_one_final(
    s: ReplyStreamModel,
    inputs: Seq<(StreamInputModel, int)>,
)
    requires
        !s.finished,
    ensures
        forall|i: int|
            0 <= i < run_events(s, inputs).len() ==> belongs_to_reply(
                #[trigger] run_events(s, inputs)[i],
                s.session_id,
                s.generation_id,
            ),
        forall|i: int|
            0 <= i < run_events(s, inputs).len() - 1 ==> #[trigger] run_events(s, inputs)[i] is Token,
        run_state(s, inputs).finished <==> (run_events(s, inputs).len() > 0 && run_events(
            s,
            inputs,
        ).last() is Final),
        run_state(s, inputs).session_id == s.session_id,
        run_state(s, inputs).generation_id == s.generation_id,
    decreases inputs.len(),
{
    if inputs.len() == 0 {
        return;
    }
    let input = inputs[0].0;
    let now = inputs[0].1;
    let s2 = reply_stream_after(s, input);
    let out = reply_step(s, input, now);
    let rest = inputs.drop_first();
    assert(s2.finished == out.done);
    if s2.finished {
        assert(run_events(s2, rest) == Seq::<ReplyEventModel>::empty());
        assert(run_state(s2, rest) == s2);
        assert(out.event is Some && out.event->0 is Final);
        assert(run_events(s, inputs) =~= seq![out.event->0]);
    } else {
        reply_run_is_tokens_then_one_final(s2, rest);
        let es = run_events(s, inputs);
        let r = run_events(s2, rest);
        match out.event {
            Some(e) => {
                assert(e is Token);
                assert(es =~= seq![e] + r);
                assert forall|i: int| 0 <= i < es.len() implies belongs_to_reply(
                    #[trigger] es[i],
                    s.session_id,
                    s.generation_id,
                ) by {
                    if i > 0 {
                        assert(es[i] == r[i - 1]);
                    }
                }
                assert forall|i: int| 0 <= i < es.len() - 1 implies #[trigger] es[i] is Token by {
                    if i > 0 {
                        assert(es[i] == r[i - 1]);
                    }
                }
                if r.len() > 0 {
                    assert(es.last() == r.last());
                }
            },
            None => {
                assert(es == r);
            },
        }
    }
}


/// The part of an input that the reply stream reads: the `delta` of a text
/// fragment; of any other event only its type.
pub open spec fn read_part(input: StreamInputModel) -> StreamInputModel {
    match input {
        StreamInputModel::Event { kind: Some(k), delta } => if k == DELTA_EVENT@ {
            input
        } else {
            StreamInputModel::Event { kind: Some(k), delta: None }
        },
        StreamInputModel::Event { kind: None, delta: _ } => StreamInputModel::Event {
            kind: None,
            delta: None,
        },
        _ => input,
    }
}

/// The inputs of a run with only their read parts.
pub open spec fn read_parts(inputs: Seq<(StreamInputModel, int)>) -> Seq<(StreamInputModel, int)> {
    inputs.map_values(|p: (StreamInputModel, int)| (read_part(p.0), p.1))
}

/// The reply stream reads nothing of an event but its type, except the text
/// of a fragment: an error event's other members, like a failed stream's
/// cause, never reach what it emits or the text it collects.
pub proof fn step_reads_only_type_and_fragment(s: ReplyStreamModel, input: StreamInputModel, now: int)
    ensures
        reply_step(s, read_part(input), now) == reply_step(s, input, now),
        reply_stream_after(s, read_part(input)) == reply_stream_after(s, input),
{
}

/// Over whole runs: two runs whose inputs agree on what the stream reads
/// emit the same events and end in the same state, so no error text of a
/// provider, beyond a fragment's own text, reaches a reply event.
pub proof fn run_reads_only_type_and_fragment(s: ReplyStreamModel, inputs: Seq<(StreamInputModel, int)>)
    ensures
        run_events(s, read_parts(inputs)) == run_events(s, inputs),
        run_state(s, read_parts(inputs)) == run_state(s, inputs),
    decreases inputs.len(),
{
    if inputs.len() > 0 && !s.finished {
        let input = inputs[0].0;
        step_reads_only_type_and_fragment(s, input, inputs[0].1);
        assert(read_parts(inputs)[0] == (read_part(input), inputs[0].1));
        assert(read_parts(inputs).drop_first() =~= read_parts(inputs.drop_first()));
        run_reads_only_type_and_fragment(reply_stream_after(s, input), inputs.drop_first());
    }
}

/// What one step hands to the poller, in order: its event, if any, then
/// `Done` when the reply is over.
pub open spec fn step_polls_of(out: StepOutputModel) -> Seq<ReplyPollModel> {
    (match out.event {
        Some(e) => seq![ReplyPollModel::Event(e)],
        None => Seq::empty(),
    }) + if out.done {
        seq![ReplyPollModel::Done]
    } else {
        Seq::empty()
    }
}

/// What a run hands to the poller after the started event, in order.
pub open spec fn run_polls(s: ReplyStreamModel, inputs: Seq<(StreamInputModel, int)>) -> Seq<
    ReplyPollModel,
>
    decreases inputs.len(),
{
    if inputs.len() == 0 || s.finished {
        Seq::empty()
    } else {
        step_polls_of(reply_step(s, inputs[0].0, inputs[0].1)) + run_polls(
            reply_stream_after(s, inputs[0].0),
            inputs.drop_first(),
        )
    }
}

/// The events of a run as polls.
pub open spec fn as_polls(events: Seq<ReplyEventModel>) -> Seq<ReplyPollModel> {
    events.map_values(|e: ReplyEventModel| ReplyPollModel::Event(e))
}

/// What the poller is handed, for a reply announced by `started`: the
/// started event, then the events of the run.
pub open spec fn reply_polls(started: ReplyEventModel, s: ReplyStreamModel, inputs: Seq<(StreamInputModel, int)>) -> Seq<ReplyPollModel> {
    seq![ReplyPollModel::Event(started)] + run_polls(s, inputs)
}

/// The polls a step hands over.
pub fn step_polls(out: StepOutput) -> (r: Vec<ReplyPoll>)
    ensures
        r@.map_values(|p: ReplyPoll| p@) == step_polls_of(out@),
{
    let ghost model = out@;
    let mut polls: Vec<ReplyPoll> = Vec::new();
    match out.event {
        Some(e) => polls.push(ReplyPoll::Event(e)),
        None => {},
    }
    if out.done {
        polls.push(ReplyPoll::Done);
    }
    assert(polls@.map_values(|p: ReplyPoll| p@) =~= step_polls_of(model));
    polls
}

/// A run hands the poller its events in order, followed by `Done` exactly
/// when the reply is over; with [`reply_run_is_tokens_then_one_final`] the
/// poller is handed the started event, tokens, one final event and `Done`,
/// and nothing after `Done`.
pub proof fn run_polls_are_events_then_done(s: ReplyStreamModel, inputs: Seq<(StreamInputModel, int)>)
    requires
        !s.finished,
    ensures
        run_polls(s, inputs) == as_polls(run_events(s, inputs)) + if run_state(s, inputs).finished {
            seq![ReplyPollModel::Done]
        } else {
            Seq::empty()
        },
    decreases inputs.len(),
{
    if inputs.len() == 0 {
        assert(run_polls(s, inputs) =~= Seq::<ReplyPollModel>::empty());
        assert(as_polls(run_events(s, inputs)) =~= Seq::<ReplyPollModel>::empty());
        return;
    }
    let input = inputs[0].0;
    let now = inputs[0].1;
    let s2 = reply_stream_after(s, input);
    let out = reply_step(s, input, now);
    let rest = inputs.drop_first();
    assert(run_state(s, inputs) == run_state(s2, rest));
    assert(run_polls(s, inputs) == step_polls_of(out) + run_polls(s2, rest));
    assert(s2.finished == out.done);
    if s2.finished {
        assert(run_state(s2, rest) == s2);
        assert(run_polls(s2, rest) =~= Seq::<ReplyPollModel>::empty());
        assert(run_events(s2, rest) =~= Seq::<ReplyEventModel>::empty());
        assert(out.event is Some);
        assert(run_events(s, inputs) =~= seq![out.event->0]);
        assert(run_polls(s, inputs) =~= as_polls(run_events(s, inputs)) + seq![ReplyPollModel::Done]);
    } else {
        run_polls_are_events_then_done(s2, rest);
        let tail = if run_state(s2, rest).finished {
            seq![ReplyPollModel::Done]
        } else {
            Seq::<ReplyPollModel>::empty()
        };
        match out.event {
            Some(e) => {
                assert(run_events(s, inputs) == seq![e] + run_events(s2, rest));
                assert(as_polls(seq![e] + run_events(s2, rest)) =~= seq![ReplyPollModel::Event(e)]
                    + as_polls(run_events(s2, rest)));
                assert(run_polls(s, inputs) =~= seq![ReplyPollModel::Event(e)] + as_polls(
                    run_events(s2, rest),
                ) + tail);
            },
            None => {
                assert(run_events(s, inputs) == run_events(s2, rest));
                assert(run_polls(s, inputs) =~= as_polls(run_events(s2, rest)) + tail);
            },
        }
    }
}

} // verus!

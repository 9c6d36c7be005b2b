use respondent_lib::llm::client::{LlmError, ReplyEvent, ReplyPoll, ReplyRequest, StreamingReplyClient};
use respondent_lib::llm::mock::MockReplyClient;
use respondent_lib::llm::openai_responses::{
    build_responses_body, classify_sse_line, decode_sse_data, http_status_error, now_ms,
    poll_outcome, step_polls, stream_input_from_next, stream_input_from_text, truncate_for_error, validate_reply_config,
    OpenAiReplyConfig, OpenAiReplyGeneration, ReplyStream, SseLine, StreamInput,
    GENERIC_FAILURE_TEXT, RESPONSES_SYSTEM_MESSAGE,
};
use respondent_lib::channel::Received;

fn request(context: Vec<&str>) -> ReplyRequest {
    ReplyRequest {
        session_id: "s1".into(),
        generation_id: "g7".into(),
        transcript: "How is the rollout going?".into(),
        context: context.into_iter().map(String::from).collect(),
    }
}

fn delta(text: &str) -> StreamInput {
    StreamInput::Event { kind: Some("response.output_text.delta".into()), delta: Some(text.into()) }
}

fn kind(k: &str) -> StreamInput {
    StreamInput::Event { kind: Some(k.into()), delta: None }
}

fn final_text(event: Option<ReplyEvent>) -> String {
    match event {
        Some(ReplyEvent::Final { text, session_id, generation_id, .. }) => {
            assert_eq!(session_id, "s1");
            assert_eq!(generation_id, "g7");
            text
        }
        other => panic!("expected a final event, got {other:?}"),
    }
}

#[test]
fn config_model_falls_back_to_default() {
    let c = OpenAiReplyConfig::from_api_key("k".into(), None);
    assert_eq!(c.model, "gpt-5.4-mini");
    assert_eq!(c.api_key, "k");
    let c = OpenAiReplyConfig::from_api_key("k".into(), Some("  ".into()));
    assert_eq!(c.model, "gpt-5.4-mini");
    let c = OpenAiReplyConfig::from_api_key("k".into(), Some(" gpt-x ".into()));
    assert_eq!(c.model, " gpt-x ");
}

#[test]
fn blank_api_key_is_refused() {
    let c = OpenAiReplyConfig::from_api_key(" \t".into(), None);
    match validate_reply_config(&c) {
        Err(LlmError::Provider(m)) => assert_eq!(m, "missing OPENAI_API_KEY"),
        Ok(()) => panic!("blank keys should be rejected"),
    }
    assert!(validate_reply_config(&OpenAiReplyConfig::from_api_key("sk".into(), None)).is_ok());
}

#[test]
fn redacted_debug_hides_the_key() {
    let c = OpenAiReplyConfig::from_api_key("sk-secret".into(), Some("m\"1".into()));
    let text = c.redacted_debug();
    assert_eq!(text, "OpenAiReplyConfig { api_key: \"<redacted>\", model: \"m\\\"1\" }");
    assert!(!text.contains("sk-secret"));
}

#[test]
fn request_body_carries_model_context_and_turn() {
    let config = OpenAiReplyConfig::from_api_key("k".into(), Some("gpt-test".into()));
    let body = build_responses_body(&config, &request(vec![]));
    assert_eq!(body.model, "gpt-test");
    assert!(body.stream);
    assert_eq!(body.input.len(), 2);
    assert_eq!(body.input[0].role, "system");
    assert_eq!(body.input[0].content, RESPONSES_SYSTEM_MESSAGE);
    assert_eq!(body.input[1].role, "user");
    assert_eq!(
        body.input[1].content,
        "Conversation context:\n(none)\n\nCurrent turn:\nHow is the rollout going?\n\nWrite the suggested reply only."
    );
    let body = build_responses_body(&config, &request(vec!["Hi", "We shipped"]));
    assert_eq!(
        body.input[1].content,
        "Conversation context:\n- Hi\n- We shipped\n\nCurrent turn:\nHow is the rollout going?\n\nWrite the suggested reply only."
    );
}

#[test]
fn error_bodies_are_trimmed_and_cut() {
    assert_eq!(truncate_for_error("  not found \n"), "not found");
    let long = "a".repeat(300);
    let cut = truncate_for_error(&long);
    assert_eq!(cut, format!("{}...", "a".repeat(240)));
    let exact = "b".repeat(240);
    assert_eq!(truncate_for_error(&exact), exact);
    match http_status_error("401 Unauthorized", " bad key ") {
        LlmError::Provider(m) => assert_eq!(m, "openai responses http 401 Unauthorized: bad key"),
    }
}

#[test]
fn sse_lines_are_classified() {
    assert!(matches!(classify_sse_line(": keep-alive"), SseLine::Skip));
    assert!(matches!(classify_sse_line("event: response.created"), SseLine::Skip));
    assert!(matches!(classify_sse_line(""), SseLine::Skip));
    assert!(matches!(classify_sse_line("  data: [DONE] \r\n"), SseLine::Done));
    match classify_sse_line("data:  {\"type\":\"x\"}  \n") {
        SseLine::Data(d) => assert_eq!(d, "{\"type\":\"x\"}"),
        _ => panic!("data line"),
    }
}

#[test]
fn sse_payloads_are_parsed_as_json() {
    let input = decode_sse_data("{\"type\":\"response.output_text.delta\",\"delta\":\"Hel\"}")
        .expect("json");
    match input {
        StreamInput::Event { kind, delta } => {
            assert_eq!(kind.as_deref(), Some("response.output_text.delta"));
            assert_eq!(delta.as_deref(), Some("Hel"));
        }
        _ => panic!("event"),
    }
    match decode_sse_data("{\"type\":7,\"delta\":[1]}").expect("json") {
        StreamInput::Event { kind, delta } => {
            assert_eq!(kind, None);
            assert_eq!(delta, None);
        }
        _ => panic!("event"),
    }
    match decode_sse_data("[\"type\"]").expect("json") {
        StreamInput::Event { kind, delta } => assert!(kind.is_none() && delta.is_none()),
        _ => panic!("event"),
    }
    match decode_sse_data("{not json") {
        Err(LlmError::Provider(m)) => {
            let detail = serde_json::from_str::<serde_json::Value>("{not json").unwrap_err();
            assert_eq!(m, format!("openai responses json: {detail}"));
        }
        Ok(_) => panic!("invalid json"),
    }
    match stream_input_from_text("{\"type\":\"error\",\"message\":\"quota\"}") {
        StreamInput::Event { kind, delta } => {
            assert_eq!(kind.as_deref(), Some("error"));
            assert_eq!(delta, None);
        }
        _ => panic!("event"),
    }
}

#[test]
fn json_events_stream_into_tokens_and_final_reply() {
    let req = request(vec![]);
    let mut stream = ReplyStream::new(&req);
    let mut tokens = Vec::new();
    let lines = [
        "event: response.output_text.delta",
        "data: {\"type\":\"response.output_text.delta\",\"delta\":\"Hel\"}",
        "",
        "data: {\"type\":\"response.output_text.delta\",\"delta\":\"lo\"}",
        "data: [DONE]",
    ];
    let mut last = None;
    for line in lines {
        let next = match classify_sse_line(line) {
            SseLine::Skip => continue,
            SseLine::Done => Ok(None),
            SseLine::Data(d) => decode_sse_data(&d).map(Some),
        };
        let out = stream.step(stream_input_from_next(next), 5);
        match out.event {
            Some(ReplyEvent::Token { token, .. }) => tokens.push(token),
            other => last = other,
        }
        if out.done {
            break;
        }
    }
    assert_eq!(tokens, vec!["Hel".to_string(), "lo".to_string()]);
    assert_eq!(final_text(last), "Hello");
}

#[test]
fn error_events_replace_partial_text_with_failure() {
    let req = request(vec![]);
    let mut stream = ReplyStream::new(&req);
    let d = decode_sse_data("{\"type\":\"response.output_text.delta\",\"delta\":\"Hi\"}").unwrap();
    stream.step(d, 1);
    let e = decode_sse_data("{\"type\":\"response.error\",\"delta\":\"secret detail\"}").unwrap();
    let out = stream.step(e, 2);
    assert!(out.done);
    assert_eq!(final_text(out.event), GENERIC_FAILURE_TEXT);
}

#[test]
fn stream_collects_tokens_into_the_final_reply() {
    let req = request(vec![]);
    match ReplyStream::started_event(&req, 42) {
        ReplyEvent::Started { based_on_transcript_event_id, received_at_ms, .. } => {
            assert_eq!(based_on_transcript_event_id, "transcript-g7");
            assert_eq!(received_at_ms, 42);
        }
        _ => panic!("started"),
    }
    let mut stream = ReplyStream::new(&req);
    let out = stream.step(delta("Sure, "), 1);
    assert!(!out.done);
    match out.event {
        Some(ReplyEvent::Token { token, received_at_ms, .. }) => {
            assert_eq!(token, "Sure, ");
            assert_eq!(received_at_ms, 1);
        }
        _ => panic!("token"),
    }
    let out = stream.step(kind("response.created"), 2);
    assert!(out.event.is_none() && !out.done);
    let out = stream.step(StreamInput::Event { kind: None, delta: Some("x".into()) }, 2);
    assert!(out.event.is_none() && !out.done);
    stream.step(delta("it is on track."), 3);
    let out = stream.step(kind("response.completed"), 4);
    assert!(out.done);
    assert!(stream.is_finished());
    assert_eq!(final_text(out.event), "Sure, it is on track.");
}

#[test]
fn stream_failures_give_the_generic_failure_text() {
    let req = request(vec![]);
    for input in [kind("response.error"), kind("error"), StreamInput::Failed, StreamInput::End] {
        let mut stream = ReplyStream::new(&req);
        let out = stream.step(input, 9);
        assert!(out.done);
        assert_eq!(final_text(out.event), GENERIC_FAILURE_TEXT);
    }
    let mut stream = ReplyStream::new(&req);
    stream.step(delta("partial"), 1);
    let out = stream.step(StreamInput::End, 2);
    assert_eq!(final_text(out.event), "partial");
    let mut stream = ReplyStream::new(&req);
    stream.step(delta("partial"), 1);
    let out = stream.step(kind("error"), 2);
    assert_eq!(final_text(out.event), GENERIC_FAILURE_TEXT);
}

#[test]
fn polling_stops_after_done() {
    let (tx, rx) = crossbeam_channel::unbounded();
    let mut generation = OpenAiReplyGeneration::from_receiver(rx);
    assert!(matches!(generation.poll(), ReplyPoll::Pending));
    tx.send(ReplyPoll::Event(ReplyEvent::Token {
        session_id: "s".into(),
        generation_id: "g".into(),
        token: "t".into(),
        received_at_ms: 0,
    }))
    .unwrap();
    tx.send(ReplyPoll::Done).unwrap();
    tx.send(ReplyPoll::Pending).unwrap();
    assert!(matches!(generation.poll(), ReplyPoll::Event(ReplyEvent::Token { .. })));
    assert!(matches!(generation.poll(), ReplyPoll::Done));
    assert!(matches!(generation.poll(), ReplyPoll::Done));
    drop(tx);
}

#[test]
fn closed_channel_ends_polling() {
    let (tx, rx) = crossbeam_channel::unbounded::<ReplyPoll>();
    drop(tx);
    let mut generation = OpenAiReplyGeneration::from_receiver(rx);
    assert!(matches!(generation.poll(), ReplyPoll::Done));
    assert!(matches!(generation.poll(), ReplyPoll::Done));
    let (p, done) = poll_outcome(Received::Empty);
    assert!(matches!(p, ReplyPoll::Pending) && !done);
    let (p, done) = poll_outcome(Received::Disconnected);
    assert!(matches!(p, ReplyPoll::Done) && done);
}

#[test]
fn clock_and_client_names() {
    assert!(now_ms() > 1_600_000_000_000);
    assert_eq!(MockReplyClient.name(), "mock-llm");
    assert_eq!(
        respondent_lib::asr::client::StreamingAsrClient::name(&respondent_lib::asr::mock::MockAsrClient),
        "mock-asr"
    );
}

#[test]
fn stream_reads_map_to_inputs() {
    assert!(matches!(stream_input_from_next(Ok(None)), StreamInput::End));
    assert!(matches!(
        stream_input_from_next(Err(LlmError::Provider("read".into()))),
        StreamInput::Failed
    ));
    let input = decode_sse_data("{\"type\":\"response.completed\"}").unwrap();
    match stream_input_from_next(Ok(Some(input))) {
        StreamInput::Event { kind, delta } => {
            assert_eq!(kind.as_deref(), Some("response.completed"));
            assert!(delta.is_none());
        }
        _ => panic!("event"),
    }
}

#[test]
fn steps_hand_over_event_then_done() {
    let req = request(vec![]);
    let mut stream = ReplyStream::new(&req);
    let polls = step_polls(stream.step(delta("a"), 1));
    assert_eq!(polls.len(), 1);
    assert!(matches!(polls[0], ReplyPoll::Event(ReplyEvent::Token { .. })));
    assert!(step_polls(stream.step(kind("response.created"), 2)).is_empty());
    let polls = step_polls(stream.step(StreamInput::End, 3));
    assert_eq!(polls.len(), 2);
    assert!(matches!(&polls[0], ReplyPoll::Event(ReplyEvent::Final { text, .. }) if text == "a"));
    assert!(matches!(polls[1], ReplyPoll::Done));
}

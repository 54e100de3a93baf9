use zai_provider::decoder::{decode_events, read_event, same_text, RawEvent, StreamDecoder, StreamEvent};
use zai_provider::errors::ProviderError;
use zai_provider::model::{Role, Usage};
use zai_provider::retry::{backoff_delay, AttemptOutcome, RetryAction, RetryPolicy, RetryState};
use zai_provider::stream::{payload_of_line, LineBuffer};

fn status(code: u16, body: &str) -> AttemptOutcome {
    AttemptOutcome::Response { status: code, body: body.to_string() }
}

fn drive(policy: &RetryPolicy, outcomes: Vec<AttemptOutcome>) -> (u32, Result<String, ProviderError>, Vec<u64>) {
    let mut state = RetryState::new();
    let mut delays = Vec::new();
    for o in outcomes {
        match state.record(policy, o) {
            RetryAction::Retry { delay_ms } => delays.push(delay_ms),
            RetryAction::Finish(r) => return (state.attempts, r, delays),
        }
    }
    panic!("outcomes ran out");
}

#[test]
fn rate_limited_twice_then_success() {
    let policy = RetryPolicy::standard();
    let (attempts, result, delays) =
        drive(&policy, vec![status(429, "slow"), status(429, "slow"), status(200, "{\"ok\":1}")]);
    assert_eq!(attempts, 3);
    assert_eq!(result.unwrap(), "{\"ok\":1}");
    assert_eq!(delays, vec![1000, 2000]);
}

#[test]
fn transient_failures_stop_at_max_attempts() {
    let policy = RetryPolicy { max_attempts: 4, initial_delay_ms: 10, multiplier: 3, max_delay_ms: 50 };
    let outcomes = vec![
        status(503, "a"),
        AttemptOutcome::TransportError("reset".to_string()),
        status(500, "c"),
        status(502, "last"),
        status(200, "never"),
    ];
    let (attempts, result, delays) = drive(&policy, outcomes);
    assert_eq!(attempts, 4);
    assert_eq!(delays, vec![10, 30, 50]);
    match result {
        Err(ProviderError::Http { status, body }) => {
            assert_eq!(status, 502);
            assert_eq!(body, "last");
        }
        other => panic!("unexpected {:?}", other),
    }
}

#[test]
fn fatal_status_is_not_retried() {
    let (attempts, result, _) = drive(&RetryPolicy::standard(), vec![status(401, "denied")]);
    assert_eq!(attempts, 1);
    assert!(matches!(result, Err(ProviderError::Http { status: 401, .. })));
}

#[test]
fn transport_error_after_last_attempt() {
    let policy = RetryPolicy { max_attempts: 1, initial_delay_ms: 5, multiplier: 2, max_delay_ms: 5 };
    let (attempts, result, _) = drive(&policy, vec![AttemptOutcome::TransportError("down".to_string())]);
    assert_eq!(attempts, 1);
    assert!(matches!(result, Err(ProviderError::Transport(m)) if m == "down"));
}

#[test]
fn backoff_grows_and_caps() {
    let policy = RetryPolicy { max_attempts: 9, initial_delay_ms: 100, multiplier: 2, max_delay_ms: 700 };
    let d: Vec<u64> = (1..=5).map(|k| backoff_delay(&policy, k)).collect();
    assert_eq!(d, vec![100, 200, 400, 700, 700]);
    let huge = RetryPolicy { max_attempts: 9, initial_delay_ms: u64::MAX, multiplier: 2, max_delay_ms: u64::MAX };
    assert_eq!(backoff_delay(&huge, 3), u64::MAX);
}

fn scenario_events() -> Vec<StreamEvent> {
    vec![
        StreamEvent::MessageStart { input_tokens: Some(10) },
        StreamEvent::ContentDelta("O".to_string()),
        StreamEvent::ContentDelta("K".to_string()),
        StreamEvent::MessageDelta { output_tokens: Some(1) },
        StreamEvent::MessageStop,
    ]
}

#[test]
fn streamed_ok_gives_four_snapshots() {
    let out = decode_events(&scenario_events());
    assert!(out.error.is_none());
    assert_eq!(out.snapshots.len(), 4);
    let last = out.snapshots.last().unwrap();
    assert_eq!(last.message.role, Role::Assistant);
    assert_eq!(last.message.text(), "OK");
    assert_eq!(last.usage, Some(Usage { input_tokens: Some(10), output_tokens: Some(1), total_tokens: Some(11) }));
}

#[test]
fn snapshots_grow_by_prefix() {
    let events = vec![
        StreamEvent::ContentDelta("ab".to_string()),
        StreamEvent::Other,
        StreamEvent::ContentDelta("".to_string()),
        StreamEvent::ContentDelta("cd".to_string()),
        StreamEvent::MessageStop,
    ];
    let out = decode_events(&events);
    assert!(out.error.is_none());
    let texts: Vec<String> = out.snapshots.iter().map(|s| s.message.text()).collect();
    for pair in texts.windows(2) {
        assert!(pair[1].starts_with(pair[0].as_str()));
    }
    assert_eq!(texts.last().unwrap(), "abcd");
}

#[test]
fn stream_without_stop_is_incomplete() {
    let events = vec![
        StreamEvent::MessageStart { input_tokens: Some(3) },
        StreamEvent::ContentDelta("O".to_string()),
        StreamEvent::ContentDelta("K".to_string()),
    ];
    let out = decode_events(&events);
    assert_eq!(out.snapshots.len(), 2);
    assert!(matches!(out.error, Some(ProviderError::IncompleteStream)));
    assert_eq!(out.error.unwrap().kind(), "incomplete stream");
}

#[test]
fn error_event_keeps_earlier_snapshots() {
    let events = vec![
        StreamEvent::ContentDelta("part".to_string()),
        StreamEvent::Error("overloaded".to_string()),
        StreamEvent::ContentDelta("never".to_string()),
    ];
    let out = decode_events(&events);
    assert_eq!(out.snapshots.len(), 1);
    assert_eq!(out.snapshots[0].message.text(), "part");
    assert!(matches!(out.error, Some(ProviderError::StreamDecode(m)) if m == "overloaded"));
}

#[test]
fn decoder_finish_after_stop() {
    let mut d = StreamDecoder::new();
    assert!(matches!(d.finish(), Err(ProviderError::IncompleteStream)));
    d.apply(&StreamEvent::MessageStop).unwrap();
    assert!(d.is_stopped());
    assert!(d.finish().is_ok());
}

fn raw(kind: Option<&str>) -> RawEvent {
    RawEvent { kind: kind.map(|k| k.to_string()), input_tokens: None, output_tokens: None, text: None, message: None }
}

#[test]
fn frames_map_to_events() {
    let mut start = raw(Some("message_start"));
    start.input_tokens = Some(7);
    assert!(matches!(read_event(&Some(start)), Ok(StreamEvent::MessageStart { input_tokens: Some(7) })));
    let mut delta = raw(Some("content_block_delta"));
    delta.text = Some("hi".to_string());
    assert!(matches!(read_event(&Some(delta)), Ok(StreamEvent::ContentDelta(t)) if t == "hi"));
    assert!(matches!(read_event(&Some(raw(Some("message_stop")))), Ok(StreamEvent::MessageStop)));
    assert!(matches!(read_event(&Some(raw(Some("ping")))), Ok(StreamEvent::Other)));
    let mut err = raw(Some("error"));
    err.message = Some("bad".to_string());
    assert!(matches!(read_event(&Some(err)), Ok(StreamEvent::Error(m)) if m == "bad"));
}

#[test]
fn malformed_frames_are_decode_errors() {
    assert!(matches!(read_event(&None), Err(ProviderError::StreamDecode(_))));
    assert!(matches!(read_event(&Some(raw(None))), Err(ProviderError::StreamDecode(_))));
    let mut neg = raw(Some("message_delta"));
    neg.output_tokens = Some(-4);
    assert!(matches!(read_event(&Some(neg)), Err(ProviderError::StreamDecode(_))));
}

#[test]
fn same_text_compares_characters() {
    assert!(same_text("message_stop", "message_stop"));
    assert!(!same_text("message_stop", "message_start"));
    assert!(!same_text("", "x"));
}

#[test]
fn lines_are_assembled_across_chunks() {
    let mut buf = LineBuffer::new();
    let first = buf.push(b"data: {\"a\"");
    assert!(first.is_empty());
    let second = buf.push(b":1}\n\nevent: x\r\ntail");
    assert_eq!(second, vec![b"data: {\"a\":1}".to_vec(), b"".to_vec(), b"event: x\r".to_vec()]);
    assert_eq!(buf.finish(), Some(b"tail".to_vec()));
    assert_eq!(buf.finish(), None);
}

#[test]
fn line_payloads() {
    assert_eq!(payload_of_line(b"data: {\"x\":1}\r"), Some(b"{\"x\":1}".to_vec()));
    assert_eq!(payload_of_line(b"data:{}"), Some(b"{}".to_vec()));
    assert_eq!(payload_of_line(b"event: message_start"), None);
    assert_eq!(payload_of_line(b": comment"), None);
    assert_eq!(payload_of_line(b"\r"), None);
    assert_eq!(payload_of_line(b"{\"type\":\"ping\"}"), Some(b"{\"type\":\"ping\"}".to_vec()));
}

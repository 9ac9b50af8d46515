use rig_core::merge::{merge, JsonObject};
use rig_core::response::{ApiErrorResponse, ApiResponse, DecodeError};
use rig_core::stream::{
    chunk_event, classify_sse_line, normalize, Delta, SseLine, StreamError, StreamItem, StreamNormalizer, StreamPhase,
    WireEvent,
};
use rig_core::together::{streaming_request_body, COMPLETIONS_PATH};

/// The success shape of these tests: an object whose `text` member is a string.
fn read_success(doc: &str) -> Option<String> {
    let v: serde_json::Value = serde_json::from_str(doc).ok()?;
    v.get("text")?.as_str().map(|s| s.to_string())
}

fn read_error(doc: &str) -> Option<ApiErrorResponse> {
    let v: serde_json::Value = serde_json::from_str(doc).ok()?;
    v.get("message")?.as_str().map(|s| ApiErrorResponse { message: s.to_string() })
}

fn decode(doc: &str) -> Result<ApiResponse<String>, DecodeError> {
    ApiResponse::from_readings(read_success(doc), read_error(doc))
}

fn object(entries: &[(&str, &str)]) -> JsonObject {
    let mut o = JsonObject::new();
    for (k, v) in entries {
        o.insert(k.to_string(), v.to_string());
    }
    o
}

fn pairs(o: &JsonObject) -> Vec<(&str, &str)> {
    o.entries.iter().map(|(k, v)| (k.as_str(), v.as_str())).collect()
}

fn text(s: &str) -> Delta {
    Delta::Text(s.to_string())
}

fn item_text(i: &StreamItem) -> Option<&str> {
    match i {
        StreamItem::Delta(Delta::Text(t)) => Some(t.as_str()),
        _ => None,
    }
}

#[test]
fn error_envelope_decodes_to_error() {
    match decode(r#"{"message":"bad key"}"#) {
        Ok(ApiResponse::Failure(e)) => assert_eq!(e.message, "bad key"),
        _ => panic!("expected the error variant"),
    }
}

#[test]
fn success_shape_wins_over_stray_message() {
    match decode(r#"{"text":"hi","message":"ignored"}"#) {
        Ok(ApiResponse::Success(t)) => assert_eq!(t, "hi"),
        _ => panic!("expected the success variant"),
    }
    match decode(r#"{"text":"hi"}"#) {
        Ok(ApiResponse::Success(t)) => assert_eq!(t, "hi"),
        _ => panic!("expected the success variant"),
    }
}

#[test]
fn neither_shape_is_a_decode_error() {
    assert!(matches!(decode(r#"{"other":1}"#), Err(DecodeError)));
    assert!(matches!(decode("not json"), Err(DecodeError)));
}

#[test]
fn api_response_into_result() {
    assert_eq!(ApiResponse::Success(5u32).into_result(), Ok(5));
    let e: ApiResponse<u32> = ApiResponse::Failure(ApiErrorResponse { message: "nope".to_string() });
    assert_eq!(e.into_result(), Err("nope".to_string()));
}

#[test]
fn merge_adds_missing_flag() {
    let r = merge(object(&[("model", "\"x\"")]), &object(&[("stream_tokens", "true")]));
    assert_eq!(pairs(&r), vec![("model", "\"x\""), ("stream_tokens", "true")]);
}

#[test]
fn merge_override_wins() {
    let r = merge(object(&[("model", "\"x\""), ("stream_tokens", "false")]), &object(&[("stream_tokens", "true")]));
    assert_eq!(pairs(&r), vec![("model", "\"x\""), ("stream_tokens", "true")]);
}

#[test]
fn merge_is_shallow() {
    let r = merge(object(&[("p", "{\"a\":1,\"b\":2}")]), &object(&[("p", "{\"a\":3}")]));
    assert_eq!(pairs(&r), vec![("p", "{\"a\":3}")]);
    let e = merge(object(&[]), &object(&[]));
    assert!(e.entries.is_empty());
}

#[test]
fn insert_replaces_in_place() {
    let mut o = object(&[("a", "1"), ("b", "2")]);
    o.insert("a".to_string(), "3".to_string());
    assert_eq!(pairs(&o), vec![("a", "3"), ("b", "2")]);
}

#[test]
fn together_streaming_body() {
    let r = streaming_request_body(object(&[("model", "\"x\""), ("stream_tokens", "false")]));
    assert_eq!(pairs(&r), vec![("model", "\"x\""), ("stream_tokens", "true")]);
    let r2 = streaming_request_body(object(&[("model", "\"x\"")]));
    assert_eq!(pairs(&r2), vec![("model", "\"x\""), ("stream_tokens", "true")]);
    assert_eq!(COMPLETIONS_PATH, "/v1/chat/completions");
}

#[test]
fn chunks_then_terminal_complete_in_order() {
    let out = normalize(vec![WireEvent::Chunk(text("A")), WireEvent::Chunk(text("B")), WireEvent::Done]);
    assert_eq!(out.len(), 3);
    assert_eq!(item_text(&out[0]), Some("A"));
    assert_eq!(item_text(&out[1]), Some("B"));
    assert!(matches!(out[2], StreamItem::Completed));
}

#[test]
fn events_after_terminal_are_dropped() {
    let out = normalize(vec![WireEvent::Chunk(text("A")), WireEvent::Done, WireEvent::Chunk(text("C"))]);
    assert_eq!(out.len(), 2);
    assert!(matches!(out[1], StreamItem::Completed));
}

#[test]
fn dropped_connection_fails() {
    let out = normalize(vec![WireEvent::Chunk(text("A")), WireEvent::Disconnected]);
    assert_eq!(out.len(), 2);
    assert_eq!(item_text(&out[0]), Some("A"));
    assert!(matches!(out[1], StreamItem::Failed(StreamError::Disconnected)));
    assert!(!out.iter().any(|i| matches!(i, StreamItem::Completed)));
}

#[test]
fn undecodable_and_provider_errors_fail() {
    let out = normalize(vec![WireEvent::Undecodable("eof".to_string())]);
    assert!(matches!(&out[0], StreamItem::Failed(StreamError::Decode(m)) if m == "eof"));
    let out = normalize(vec![
        WireEvent::Chunk(Delta::ToolCall { id: "1".to_string(), name: "f".to_string(), arguments: "{}".to_string() }),
        WireEvent::ProviderError("overloaded".to_string()),
    ]);
    assert_eq!(out.len(), 2);
    assert!(matches!(&out[0], StreamItem::Delta(Delta::ToolCall { name, .. }) if name == "f"));
    assert!(matches!(&out[1], StreamItem::Failed(StreamError::Provider(m)) if m == "overloaded"));
    assert!(normalize(vec![]).is_empty());
}

#[test]
fn normalizer_ignores_events_once_finished() {
    let mut n = StreamNormalizer::new();
    assert!(!n.is_finished());
    assert!(matches!(n.on_event(WireEvent::Chunk(text("A"))), Some(StreamItem::Delta(_))));
    assert!(matches!(n.on_event(WireEvent::Disconnected), Some(StreamItem::Failed(_))));
    assert_eq!(n.phase, StreamPhase::Failed);
    assert!(n.is_finished());
    assert!(n.on_event(WireEvent::Done).is_none());
    assert_eq!(n.phase, StreamPhase::Failed);
}

#[test]
fn sse_lines() {
    assert!(matches!(classify_sse_line("data: {\"a\":1}"), SseLine::Data(d) if d == "{\"a\":1}"));
    assert!(matches!(classify_sse_line("data:{}"), SseLine::Data(d) if d == "{}"));
    assert!(matches!(classify_sse_line("data: [DONE]"), SseLine::Done));
    assert!(matches!(classify_sse_line(""), SseLine::Skip));
    assert!(matches!(classify_sse_line(": keep-alive"), SseLine::Skip));
    assert!(matches!(classify_sse_line("event: message"), SseLine::Skip));
}

#[test]
fn chunk_event_meanings() {
    let e = chunk_event(Some("overloaded".to_string()), None, Some("x".to_string()));
    assert!(matches!(e, Some(WireEvent::ProviderError(m)) if m == "overloaded"));
    let t = chunk_event(None, Some(("1".to_string(), "f".to_string(), "{}".to_string())), Some("x".to_string()));
    assert!(matches!(t, Some(WireEvent::Chunk(Delta::ToolCall { name, .. })) if name == "f"));
    let c = chunk_event(None, None, Some("x".to_string()));
    assert!(matches!(c, Some(WireEvent::Chunk(Delta::Text(s))) if s == "x"));
    assert!(chunk_event(None, None, None).is_none());
}

use termline::{
    body_from_parts, classify_line, event_from_frame, join_with_commas, message_object,
    system_prompt, ChatRequest, Config, ConfigError, ConversationStore, ErrorKind, LineBuffer,
    Role, SseLine, StreamEvent,
};

#[test]
fn body_has_model_messages_and_stream() {
    let mut store = ConversationStore::new("sys".to_string());
    store.push_turn(Role::User, "hello".to_string());
    store.push_turn(Role::Assistant, "Hi there".to_string());
    let req = ChatRequest::from_store(&"gpt-5".to_string(), &store);
    assert!(req.stream);
    assert_eq!(
        req.to_body(),
        [
            r#"{"model":"gpt-5","messages":["#,
            r#"{"role":"system","content":"sys"},"#,
            r#"{"role":"user","content":"hello"},"#,
            r#"{"role":"assistant","content":"Hi there"}"#,
            r#"],"stream":true}"#,
        ]
        .join("")
    );
}

#[test]
fn body_escapes_special_characters() {
    let store = ConversationStore::new("say \"hi\"\n\\".to_string());
    let body = ChatRequest::from_store(&"m".to_string(), &store).to_body();
    assert_eq!(
        body,
        r#"{"model":"m","messages":[{"role":"system","content":"say \"hi\"\n\\"}],"stream":true}"#
    );
}

#[test]
fn body_parts_are_framed_exactly() {
    assert_eq!(message_object("\"r\"", "\"c\""), r#"{"role":"r","content":"c"}"#);
    assert_eq!(join_with_commas(&vec![]), "");
    assert_eq!(join_with_commas(&vec!["a".to_string()]), "a");
    assert_eq!(join_with_commas(&vec!["a".to_string(), "b".to_string(), "c".to_string()]), "a,b,c");
    assert_eq!(body_from_parts("\"m\"", "x", false), r#"{"model":"m","messages":[x],"stream":false}"#);
    assert_eq!(body_from_parts("\"m\"", "", true), r#"{"model":"m","messages":[],"stream":true}"#);
}

fn lines(v: Vec<Vec<u8>>) -> Vec<String> {
    v.into_iter().map(|l| String::from_utf8(l).unwrap()).collect()
}

#[test]
fn line_buffer_reassembles_split_chunks() {
    let mut buf = LineBuffer::new();
    assert!(buf.push(b"data: {\"a\"").is_empty());
    assert_eq!(buf.pending(), &b"data: {\"a\"".to_vec());
    assert_eq!(lines(buf.push(b":1}\n\ndata: [DO")), vec!["data: {\"a\":1}", ""]);
    assert_eq!(lines(buf.push(b"NE]\r\n")), vec!["data: [DONE]\r"]);
    assert!(buf.pending().is_empty());
    assert!(buf.push(b"").is_empty());
}

#[test]
fn lines_are_classified() {
    assert!(matches!(classify_line(b"data: [DONE]"), SseLine::Sentinel));
    assert!(matches!(classify_line(b"data:[DONE]\r"), SseLine::Sentinel));
    assert!(matches!(classify_line(b""), SseLine::Skip));
    assert!(matches!(classify_line(b"\r"), SseLine::Skip));
    assert!(matches!(classify_line(b": keep-alive"), SseLine::Skip));
    assert!(matches!(classify_line(b"event: message"), SseLine::Skip));
    assert!(matches!(classify_line(b"dat"), SseLine::Skip));
    match classify_line(b"data: {\"choices\":[]}\r") {
        SseLine::Payload(p) => assert_eq!(p, b"{\"choices\":[]}".to_vec()),
        other => panic!("unexpected {other:?}"),
    }
    match classify_line(b"data:  [DONE]") {
        SseLine::Payload(p) => assert_eq!(p, b" [DONE]".to_vec()),
        other => panic!("unexpected {other:?}"),
    }
    match classify_line(b"data:") {
        SseLine::Payload(p) => assert!(p.is_empty()),
        other => panic!("unexpected {other:?}"),
    }
}

#[test]
fn frames_become_events() {
    match event_from_frame("{oops".to_string(), None) {
        Some(StreamEvent::Error(ErrorKind::Protocol, raw)) => assert_eq!(raw, "{oops"),
        other => panic!("unexpected {other:?}"),
    }
    match event_from_frame("f".to_string(), Some(Some("Hi".to_string()))) {
        Some(StreamEvent::Delta(t)) => assert_eq!(t, "Hi"),
        other => panic!("unexpected {other:?}"),
    }
    assert!(event_from_frame("f".to_string(), Some(Some(String::new()))).is_none());
    assert!(event_from_frame("f".to_string(), Some(None)).is_none());
}

#[test]
fn config_requires_api_key() {
    assert_eq!(Config::from_values(None, Some("m".to_string())).unwrap_err(), ConfigError::MissingApiKey);
    let c = Config::from_values(Some("key-1".to_string()), None).unwrap();
    assert_eq!(c.api_key, "key-1");
    assert_eq!(c.model, "gpt-5");
    let c = Config::from_values(Some("k".to_string()), Some("other".to_string())).unwrap();
    assert_eq!(c.model, "other");
}

#[test]
fn system_prompt_opens_the_store() {
    let store = ConversationStore::new(system_prompt());
    assert_eq!(store.len(), 1);
    assert_eq!(store.get(0).role, Role::System);
    assert!(store.get(0).content.starts_with("You are a chat assistant"));
}

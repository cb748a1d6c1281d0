use inference_server::events::{completion_event, encode_event_json, frame_event};

fn serde_encoding_of(token: &str) -> Vec<u8> {
    let mut inner = serde_json::Map::new();
    inner.insert(
        "text".to_string(),
        serde_json::Value::String(token.to_string()),
    );
    let mut outer = serde_json::Map::new();
    outer.insert(
        "choices".to_string(),
        serde_json::Value::Array(vec![serde_json::Value::Object(inner)]),
    );
    serde_json::Value::Object(outer).to_string().into_bytes()
}

#[test]
fn frame_of_plain_token() {
    assert_eq!(
        frame_event(b"hi"),
        b"data: {\"choices\":[{\"text\":\"hi\"}]}\n\n".to_vec()
    );
}

#[test]
fn frame_of_empty_token() {
    assert_eq!(
        frame_event(b""),
        b"data: {\"choices\":[{\"text\":\"\"}]}\n\n".to_vec()
    );
}

#[test]
fn quotes_and_backslashes_are_escaped() {
    assert_eq!(
        encode_event_json(b"a\"b\\c"),
        b"{\"choices\":[{\"text\":\"a\\\"b\\\\c\"}]}".to_vec()
    );
}

#[test]
fn control_bytes_are_escaped() {
    assert_eq!(
        encode_event_json(b"\x08\t\n\x0c\r"),
        b"{\"choices\":[{\"text\":\"\\b\\t\\n\\f\\r\"}]}".to_vec()
    );
    assert_eq!(
        encode_event_json(b"\x00\x01\x1f"),
        b"{\"choices\":[{\"text\":\"\\u0000\\u0001\\u001f\"}]}".to_vec()
    );
}

#[test]
fn encoding_matches_reference_json_encoder() {
    for token in [
        "",
        "hello world",
        "a\"b\\c",
        "line\nbreak\ttab\rreturn",
        "control\u{1}\u{7}\u{1f}bytes",
        "unicode: héllo – 日本語 🦀",
    ] {
        assert_eq!(
            encode_event_json(token.as_bytes()),
            serde_encoding_of(token),
            "token {:?}",
            token
        );
    }
}

#[test]
fn completion_event_holds_one_choice() {
    let event = completion_event("hello".to_string());
    assert_eq!(event.choices.len(), 1);
    assert_eq!(event.choices[0].text, "hello");
}

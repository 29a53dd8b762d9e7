use devcolor_ask::wire::{answer_in_body, body_from_literals, request_body, ENDPOINT, MODEL};

#[test]
fn body_layout_around_literals() {
    assert_eq!(
        body_from_literals("\"m\"", "\"p\""),
        "{\"model\":\"m\",\"prompt\":\"p\",\"stream\":false}"
    );
}

#[test]
fn request_body_escapes_prompt() {
    let body = request_body("say \"hi\"\nnow").unwrap();
    assert_eq!(
        body,
        "{\"model\":\"llama3.3\",\"prompt\":\"say \\\"hi\\\"\\nnow\",\"stream\":false}"
    );
}

#[test]
fn request_body_matches_json_object() {
    let prompt = "Context:\n\u{2019}quote\u{2019} and \\ slash";
    let mut m = serde_json::Map::new();
    m.insert("model".to_string(), serde_json::Value::String(MODEL.to_string()));
    m.insert("prompt".to_string(), serde_json::Value::String(prompt.to_string()));
    m.insert("stream".to_string(), serde_json::Value::Bool(false));
    let expected = serde_json::to_string(&serde_json::Value::Object(m)).unwrap();
    assert_eq!(request_body(prompt).unwrap(), expected);
    let parsed: serde_json::Value = serde_json::from_str(&request_body(prompt).unwrap()).unwrap();
    assert_eq!(parsed["prompt"].as_str(), Some(prompt));
    assert_eq!(parsed["stream"].as_bool(), Some(false));
}

#[test]
fn answer_read_from_response_member() {
    assert_eq!(answer_in_body("{\"response\": \"X\"}"), Some("X".to_string()));
    assert_eq!(answer_in_body("{\"model\":\"m\",\"response\":\"a\\tb\"}"), Some("a\tb".to_string()));
}

#[test]
fn answer_absent_when_member_missing_or_not_text() {
    assert_eq!(answer_in_body("{\"foo\": \"bar\"}"), None);
    assert_eq!(answer_in_body("{\"response\": null}"), None);
    assert_eq!(answer_in_body("{\"response\": [\"x\"]}"), None);
    assert_eq!(answer_in_body("\"response\""), None);
    assert_eq!(answer_in_body("{\"response\": \"x\""), None);
    assert_eq!(answer_in_body(""), None);
}

#[test]
fn endpoint_is_local_generate() {
    assert_eq!(ENDPOINT, "http://localhost:11434/api/generate");
    assert_eq!(MODEL, "llama3.3");
}

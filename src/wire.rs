use vstd::prelude::*;
use vstd::string::*;

verus! {

/// The generation endpoint of the local inference server.
pub const ENDPOINT: &'static str = "http://localhost:11434/api/generate";

/// The model that every request asks for.
pub const MODEL: &'static str = "llama3.3";

/// The member of the server's reply that holds the generated text.
pub const RESPONSE_KEY: &'static str = "response";

/// The JSON string literal (quotes and escapes included) that encodes `s`,
/// or `None` where encoding fails.
pub uninterp spec fn json_string_literal(s: Seq<char>) -> Option<Seq<char>>;

/// The string held by member `key` of the JSON object written in `text`;
/// `None` where `text` is not JSON, is not an object, lacks that member, or
/// the member is not a string.
pub uninterp spec fn json_str_member(text: Seq<char>, key: Seq<char>) -> Option<Seq<char>>;

/// Relies on `serde_json::to_string` applied to a `str`: it writes the JSON
/// string literal for it.
#[verifier::external_body]
fn encode_str(s: &str) -> (r: Option<String>)
    ensures
        match r {
            Some(t) => json_string_literal(s@) == Some(t@),
            None => json_string_literal(s@) is None,
        },
{
    serde_json::to_string(s).ok()
}

/// Relies on `serde_json::from_str` into a `serde_json::Value`, then
/// `Value::get` with a string key and `Value::as_str`: together they read the
/// string member `key` of the JSON object in `text`.
#[verifier::external_body]
fn read_str_member(text: &str, key: &str) -> (r: Option<String>)
    ensures
        match r {
            Some(t) => json_str_member(text@, key@) == Some(t@),
            None => json_str_member(text@, key@) is None,
        },
{
    match serde_json::from_str::<serde_json::Value>(text) {
        Ok(v) => v.get(key).and_then(|m| m.as_str()).map(|t| t.to_string()),
        Err(_) => None,
    }
}

/// The request body for an already encoded model name and prompt: a JSON
/// object with `model`, `prompt`, and `stream` set to false, in that order.
pub open spec fn body_text(model_literal: Seq<char>, prompt_literal: Seq<char>) -> Seq<char> {
    "{\"model\":"@ + model_literal + ",\"prompt\":"@ + prompt_literal + ",\"stream\":false}"@
}

/// Lays out the request body around the JSON literals of the model name and
/// of the prompt.
pub fn body_from_literals(model_literal: &str, prompt_literal: &str) -> (r: String)
    ensures
        r@ == body_text(model_literal@, prompt_literal@),
{
    let mut b = String::from_str("{\"model\":");
    b.append(model_literal);
    b.append(",\"prompt\":");
    b.append(prompt_literal);
    b.append(",\"stream\":false}");
    b
}

/// Encodes the request body that asks the model for a complete, non-streamed
/// answer to `prompt`; `None` exactly where one of the two strings cannot be
/// encoded.
pub fn request_body(prompt: &str) -> (r: Option<String>)
    ensures
        r is Some <==> (json_string_literal(MODEL@) is Some && json_string_literal(prompt@) is Some),
        r matches Some(b) ==> b@ == body_text(
            json_string_literal(MODEL@)->0,
            json_string_literal(prompt@)->0,
        ),
{
    let model = encode_str(MODEL);
    let encoded = encode_str(prompt);
    match (model, encoded) {
        (Some(m), Some(p)) => Some(body_from_literals(m.as_str(), p.as_str())),
        _ => None,
    }
}

/// The generated text in a reply body, if the body is a JSON object whose
/// `response` member is a string.
pub fn answer_in_body(body: &str) -> (r: Option<String>)
    ensures
        match r {
            Some(t) => json_str_member(body@, RESPONSE_KEY@) == Some(t@),
            None => json_str_member(body@, RESPONSE_KEY@) is None,
        },
{
    read_str_member(body, RESPONSE_KEY)
}

} // verus!

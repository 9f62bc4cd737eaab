use vstd::prelude::*;

verus! {

/// The JSON value that `serde_json::from_str::<serde_json::Value>` parses from a text, or
/// `None` where the text is not JSON. It depends on the text alone.
pub uninterp spec fn json_text_value(text: Seq<char>) -> Option<serde_json::Value>;

/// The JSON string value `serde_json::Value::String` builds from a text.
pub uninterp spec fn json_string_value(text: Seq<char>) -> serde_json::Value;

/// Calls `serde_json::from_str::<serde_json::Value>` and keeps the value when the text
/// parses; the parse error is dropped. The result is named by `json_text_value`.
#[verifier::external_body]
fn parse_json_text(text: &str) -> (r: Option<serde_json::Value>)
    ensures
        r == json_text_value(text@),
{
    serde_json::from_str::<serde_json::Value>(text).ok()
}

/// Builds `serde_json::Value::String` from the text; the result is named by
/// `json_string_value`.
#[verifier::external_body]
fn string_json_value(text: String) -> (v: serde_json::Value)
    ensures
        v == json_string_value(text@),
{
    serde_json::Value::String(text)
}

/// The value of a script reply that a web view hands back as JSON text: the parsed JSON
/// value, or the text itself as a JSON string when it does not parse.
pub fn webview_reply_value(text: String) -> (v: serde_json::Value)
    ensures
        v == (match json_text_value(text@) {
            Some(j) => j,
            None => json_string_value(text@),
        }),
{
    match parse_json_text(text.as_str()) {
        Some(value) => value,
        None => string_json_value(text),
    }
}

} // verus!

use vstd::prelude::*;
use serde_json::Value;

verus! {

/// Whether `doc` parses as one JSON document.
pub uninterp spec fn json_parses(doc: Seq<u8>) -> bool;

/// The message of the parse error when `doc` does not parse as one JSON
/// document.
pub uninterp spec fn json_error_text(doc: Seq<u8>) -> Seq<char>;

/// The text under the key "response" when `doc` parses as one JSON document
/// that holds a string there; `None` when it does not parse or holds none.
pub uninterp spec fn json_response_field(doc: Seq<u8>) -> Option<Seq<char>>;

/// The boolean under the key "done" when `doc` parses as one JSON document
/// that holds a boolean there; `None` otherwise.
pub uninterp spec fn json_done_field(doc: Seq<u8>) -> Option<bool>;

/// When `doc` parses as one JSON document whose key "models" holds an array:
/// for each entry, in order, the string under its key "name", if it has one.
pub uninterp spec fn json_model_names(doc: Seq<u8>) -> Option<Seq<Option<Seq<char>>>>;

/// The text of an optional string.
pub open spec fn opt_text(o: Option<String>) -> Option<Seq<char>> {
    match o {
        Some(s) => Some(s@),
        None => None,
    }
}

/// The texts of a list of optional strings.
pub open spec fn opt_texts(v: Seq<Option<String>>) -> Seq<Option<Seq<char>>> {
    v.map_values(|o: Option<String>| opt_text(o))
}

/// The texts of an optional list of optional strings.
pub open spec fn opt_text_list(o: Option<Vec<Option<String>>>) -> Option<Seq<Option<Seq<char>>>> {
    match o {
        Some(v) => Some(opt_texts(v@)),
        None => None,
    }
}

/// The fields of a backend reply that the gateway reads.
pub struct ReplyFields {
    pub parsed: bool,
    pub error: Option<String>,
    pub response: Option<String>,
    pub done: Option<bool>,
    pub model_names: Option<Vec<Option<String>>>,
}

/// Relies on serde_json::from_slice into a serde_json::Value, and on
/// Value::get, Value::as_str, Value::as_bool and Value::as_array to read the
/// keys; the parse error's message comes from its `Display`. What it returns
/// depends on the bytes alone.
#[verifier::external_body]
pub(crate) fn parse_reply_fields(doc: &[u8]) -> (r: ReplyFields)
    ensures
        r.parsed == json_parses(doc@),
        r.parsed ==> r.error is None,
        !r.parsed ==> opt_text(r.error) == Some(json_error_text(doc@)),
        opt_text(r.response) == json_response_field(doc@),
        r.done == json_done_field(doc@),
        opt_text_list(r.model_names) == json_model_names(doc@),
        !r.parsed ==> r.response is None && r.done is None && r.model_names is None,
{
    match serde_json::from_slice::<Value>(doc) {
        Ok(v) => ReplyFields {
            parsed: true,
            error: None,
            response: v.get("response").and_then(Value::as_str).map(String::from),
            done: v.get("done").and_then(Value::as_bool),
            model_names: v.get("models").and_then(Value::as_array).map(|a| {
                a.iter().map(|m| m.get("name").and_then(Value::as_str).map(String::from)).collect()
            }),
        },
        Err(e) => ReplyFields { parsed: false, error: Some(e.to_string()), response: None, done: None, model_names: None },
    }
}

/// Reads the fields "response" and "done" of one JSON document.
pub fn reply_fields(doc: &[u8]) -> (r: ReplyFields)
    ensures
        r.parsed == json_parses(doc@),
        r.parsed ==> r.error is None,
        !r.parsed ==> opt_text(r.error) == Some(json_error_text(doc@)),
        opt_text(r.response) == json_response_field(doc@),
        r.done == json_done_field(doc@),
        opt_text_list(r.model_names) == json_model_names(doc@),
{
    parse_reply_fields(doc)
}

/// The text of a buffered reply: its "response" field, or `None` when the
/// body is malformed (does not parse, or has no string under that key).
pub fn buffered_reply_text(body: &[u8]) -> (r: Option<String>)
    ensures
        opt_text(r) == json_response_field(body@),
{
    parse_reply_fields(body).response
}

} // verus!

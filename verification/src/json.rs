//! The JSON boundary: the parse calls into `serde_json` that the library
//! makes. A parsed value is known by its compact serialization.

use vstd::prelude::*;

verus! {

/// What `serde_json::from_str::<Value>` makes of a text: the parsed value
/// written back compactly (`Value`'s `Display`, the same bytes that
/// `serde_json::to_vec` writes for a request body), or the parser's message.
pub uninterp spec fn json_text_parse(text: Seq<char>) -> Result<Seq<char>, Seq<char>>;

/// What `serde_json::from_slice::<Value>` makes of some bytes: the parsed
/// value written back compactly, or the parser's message.
pub uninterp spec fn json_bytes_parse(bytes: Seq<u8>) -> Result<Seq<char>, Seq<char>>;

/// Whether `serde_json::from_str::<Value>` accepts the text.
pub open spec fn json_text_valid(text: Seq<char>) -> bool {
    json_text_parse(text) is Ok
}

/// Whether `serde_json::from_slice::<Value>` accepts the bytes.
pub open spec fn json_bytes_valid(bytes: Seq<u8>) -> bool {
    json_bytes_parse(bytes) is Ok
}

/// A result of strings by content.
pub open spec fn text_result(r: Result<String, String>) -> Result<Seq<char>, Seq<char>> {
    match r {
        Ok(s) => Ok(s@),
        Err(e) => Err(e@),
    }
}

/// Parses JSON text with `serde_json::from_str` and writes the value back
/// compactly; on failure, the parser's message (by the name `json_text_parse`).
#[verifier::external_body]
pub(crate) fn parse_json_text(text: &str) -> (res: Result<String, String>)
    ensures
        json_text_parse(text@) == text_result(res),
{
    match serde_json::from_str::<serde_json::Value>(text) {
        Ok(v) => Ok(v.to_string()),
        Err(e) => Err(e.to_string()),
    }
}

/// Parses JSON bytes with `serde_json::from_slice` and writes the value back
/// compactly; on failure, the parser's message (by the name `json_bytes_parse`).
#[verifier::external_body]
pub(crate) fn parse_json_bytes(bytes: &[u8]) -> (res: Result<String, String>)
    ensures
        json_bytes_parse(bytes@) == text_result(res),
{
    match serde_json::from_slice::<serde_json::Value>(bytes) {
        Ok(v) => Ok(v.to_string()),
        Err(e) => Err(e.to_string()),
    }
}


/// What `serde_json` says of a JSON text and a key: `None` when the text is
/// not a JSON object, else whether the object has a member of that name
/// (`Map::contains_key`).
pub uninterp spec fn json_member_state(text: Seq<char>, key: Seq<char>) -> Option<bool>;

/// Reads whether a JSON text is an object and whether it has the member
/// `key` (by the name `json_member_state`).
#[verifier::external_body]
pub(crate) fn member_state(text: &str, key: &str) -> (r: Option<bool>)
    ensures
        r == json_member_state(text@, key@),
{
    match serde_json::from_str::<serde_json::Value>(text) {
        Ok(serde_json::Value::Object(map)) => Some(map.contains_key(key)),
        _ => None,
    }
}

/// The string member `key` of a JSON text (`Value::get`, then `as_str`):
/// present when the text is an object whose member of that name is a string.
pub uninterp spec fn json_string_member(text: Seq<char>, key: Seq<char>) -> Option<Seq<char>>;

/// Reads a string member of a JSON object (by the name `json_string_member`).
#[verifier::external_body]
pub(crate) fn string_member(text: &str, key: &str) -> (r: Option<String>)
    ensures
        r matches Some(s) ==> json_string_member(text@, key@) == Some(s@),
        r is None ==> json_string_member(text@, key@) is None,
{
    match serde_json::from_str::<serde_json::Value>(text) {
        Ok(v) => match v.get(key) {
            Some(serde_json::Value::String(s)) => Some(s.clone()),
            _ => None,
        },
        Err(_) => None,
    }
}

/// The integer member `key` of a JSON text (`Value::get`, then `as_i64`):
/// present when the text is an object whose member of that name is a number
/// that fits an `i64`.
pub uninterp spec fn json_i64_member(text: Seq<char>, key: Seq<char>) -> Option<i64>;

/// Reads an integer member of a JSON object (by the name `json_i64_member`).
#[verifier::external_body]
pub(crate) fn i64_member(text: &str, key: &str) -> (r: Option<i64>)
    ensures
        r == json_i64_member(text@, key@),
{
    match serde_json::from_str::<serde_json::Value>(text) {
        Ok(v) => match v.get(key) {
            Some(n) => n.as_i64(),
            None => None,
        },
        Err(_) => None,
    }
}

/// The JSON object `text` with the member `key` set to the string `value`
/// (`Map::insert`), written back compactly by `serde_json`.
pub uninterp spec fn json_member_set(text: Seq<char>, key: Seq<char>, value: Seq<char>) -> Seq<char>;

/// Sets a string member of a JSON object with `Map::insert` (by the name
/// `json_member_set`). As `Map::insert` does, the result has the member
/// holding the string and every other member as it was.
#[verifier::external_body]
pub(crate) fn set_member(text: &str, key: &str, value: &str) -> (r: String)
    requires
        json_member_state(text@, key@) is Some,
    ensures
        r@ == json_member_set(text@, key@, value@),
        json_member_state(r@, key@) == Some(true),
        json_string_member(r@, key@) == Some(value@),
        forall|k: Seq<char>| k != key@ ==> #[trigger] json_string_member(r@, k) == json_string_member(text@, k)
            && json_member_state(r@, k) == json_member_state(text@, k),
{
    match serde_json::from_str::<serde_json::Value>(text) {
        Ok(serde_json::Value::Object(mut map)) => {
            map.insert(key.to_owned(), serde_json::Value::String(value.to_owned()));
            serde_json::Value::Object(map).to_string()
        },
        _ => text.to_owned(),
    }
}

} // verus!

//! Reading JSON response bodies. Parsing is `serde_json`'s; each reader below
//! parses a body and picks one field out of it, giving plain values back.

use vstd::prelude::*;

verus! {

/// The view of an optional string.
pub open spec fn opt_str_view(o: Option<String>) -> Option<Seq<char>> {
    match o {
        Some(s) => Some(s@),
        None => None,
    }
}

/// Whether `serde_json` parses `bytes` as one JSON value.
pub uninterp spec fn json_valid(bytes: Seq<u8>) -> bool;

/// The text of `serde_json`'s error for `bytes`, where it does not parse.
pub uninterp spec fn json_error_message(bytes: Seq<u8>) -> Seq<char>;

/// The integer (`as_i64`) under `key` of the object that `bytes` holds.
pub uninterp spec fn json_i64_at(bytes: Seq<u8>, key: Seq<char>) -> Option<i64>;

/// The string (`as_str`) under `key` of the object that `bytes` holds.
pub uninterp spec fn json_str_at(bytes: Seq<u8>, key: Seq<char>) -> Option<Seq<char>>;

/// The boolean (`as_bool`) under `key` of the object that `bytes` holds.
pub uninterp spec fn json_bool_at(bytes: Seq<u8>, key: Seq<char>) -> Option<bool>;

/// The unsigned integer (`as_u64`) under `outer`, then `inner`.
pub uninterp spec fn json_u64_at2(bytes: Seq<u8>, outer: Seq<char>, inner: Seq<char>) -> Option<u64>;

/// The text of `String::from_utf8_lossy(bytes)`.
pub uninterp spec fn lossy_utf8(bytes: Seq<u8>) -> Seq<char>;

/// `serde_json::from_slice::<Value>`: whether `bytes` parses. The result
/// is named `json_valid`.
#[verifier::external_body]
pub fn json_is_valid(bytes: &[u8]) -> (b: bool)
    ensures
        b == json_valid(bytes@),
{
    serde_json::from_slice::<serde_json::Value>(bytes).is_ok()
}

/// `serde_json::from_slice::<Value>`: the displayed parse error, `None`
/// exactly when `bytes` parses.
#[verifier::external_body]
pub fn json_parse_error(bytes: &[u8]) -> (r: Option<String>)
    ensures
        r is None <==> json_valid(bytes@),
        r matches Some(e) ==> e@ == json_error_message(bytes@),
{
    match serde_json::from_slice::<serde_json::Value>(bytes) {
        Ok(_) => None,
        Err(e) => Some(format!("{}", e)),
    }
}

/// `serde_json::from_slice::<Value>`, then `get(key)` and `as_i64`. Nothing
/// is found in a body that does not parse.
#[verifier::external_body]
pub fn json_i64_field(bytes: &[u8], key: &str) -> (r: Option<i64>)
    ensures
        r == json_i64_at(bytes@, key@),
        !json_valid(bytes@) ==> r is None,
{
    serde_json::from_slice::<serde_json::Value>(bytes).ok().and_then(|v| v.get(key).and_then(|x| x.as_i64()))
}

/// `serde_json::from_slice::<Value>`, then `get(key)` and `as_str`. Nothing
/// is found in a body that does not parse.
#[verifier::external_body]
pub fn json_str_field(bytes: &[u8], key: &str) -> (r: Option<String>)
    ensures
        opt_str_view(r) == json_str_at(bytes@, key@),
        !json_valid(bytes@) ==> r is None,
{
    serde_json::from_slice::<serde_json::Value>(bytes).ok().and_then(|v| v.get(key).and_then(|x| x.as_str().map(|s| s.to_owned())))
}

/// `serde_json::from_slice::<Value>`, then `get(key)` and `as_bool`.
/// Nothing is found in a body that does not parse.
#[verifier::external_body]
pub fn json_bool_field(bytes: &[u8], key: &str) -> (r: Option<bool>)
    ensures
        r == json_bool_at(bytes@, key@),
        !json_valid(bytes@) ==> r is None,
{
    serde_json::from_slice::<serde_json::Value>(bytes).ok().and_then(|v| v.get(key).and_then(|x| x.as_bool()))
}

/// `serde_json::from_slice::<Value>`, then `get(outer)`, `get(inner)` and
/// `as_u64`. Nothing is found in a body that does not parse.
#[verifier::external_body]
pub fn json_u64_field2(bytes: &[u8], outer: &str, inner: &str) -> (r: Option<u64>)
    ensures
        r == json_u64_at2(bytes@, outer@, inner@),
        !json_valid(bytes@) ==> r is None,
{
    serde_json::from_slice::<serde_json::Value>(bytes).ok().and_then(|v| v.get(outer).and_then(|d| d.get(inner)).and_then(|x| x.as_u64()))
}

/// `String::from_utf8_lossy`: the text of `bytes`, with each invalid
/// sequence replaced; valid UTF-8 is decoded as it is.
#[verifier::external_body]
pub fn utf8_lossy(bytes: &[u8]) -> (s: String)
    ensures
        s@ == lossy_utf8(bytes@),
        vstd::utf8::valid_utf8(bytes@) ==> s@ == vstd::utf8::decode_utf8(bytes@),
{
    String::from_utf8_lossy(bytes).into_owned()
}

} // verus!

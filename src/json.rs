use vstd::prelude::*;

use serde_json::Value;

verus! {

#[verifier::external_type_specification]
#[verifier::external_body]
pub struct ExValue(serde_json::Value);

/// The JSON document that `b` holds, if `b` is one.
pub uninterp spec fn json_document(b: Seq<u8>) -> Option<serde_json::Value>;

/// The member named `key` of `v`, if `v` is an object that has one.
pub uninterp spec fn json_member(v: serde_json::Value, key: Seq<char>) -> Option<serde_json::Value>;

/// The text of `v`, if `v` is a JSON string.
pub uninterp spec fn json_text(v: serde_json::Value) -> Option<Seq<char>>;

/// The text of `b` decoded as UTF-8, each invalid sequence replaced.
pub uninterp spec fn lossy_utf8(b: Seq<u8>) -> Seq<char>;

/// Relies on `serde_json::from_slice::<Value>`: it parses a whole JSON
/// document and fails on anything else; the outcome depends on the bytes alone.
#[verifier::external_body]
pub(crate) fn parse_document(b: &[u8]) -> (r: Option<Value>)
    ensures
        match r {
            Some(v) => json_document(b@) == Some(v),
            None => json_document(b@) is None,
        },
{
    serde_json::from_slice::<Value>(b).ok()
}

/// Relies on `serde_json::Value::get` with a string key: the member of that
/// name of an object, `None` for another key or another kind of value.
#[verifier::external_body]
pub(crate) fn member<'a>(v: &'a Value, key: &str) -> (r: Option<&'a Value>)
    ensures
        match r {
            Some(m) => json_member(*v, key@) == Some(*m),
            None => json_member(*v, key@) is None,
        },
{
    v.get(key)
}

/// Relies on `serde_json::Value::as_str`: the text of a JSON string, `None`
/// for every other kind of value.
#[verifier::external_body]
pub(crate) fn text_of(v: &Value) -> (r: Option<String>)
    ensures
        match r {
            Some(s) => json_text(*v) == Some(s@),
            None => json_text(*v) is None,
        },
{
    v.as_str().map(String::from)
}

/// Relies on `String::from_utf8_lossy`: the bytes decoded as UTF-8, with a
/// replacement character for each invalid sequence.
#[verifier::external_body]
pub(crate) fn decode_lossy(b: &[u8]) -> (r: String)
    ensures
        r@ == lossy_utf8(b@),
{
    String::from_utf8_lossy(b).into_owned()
}

} // verus!

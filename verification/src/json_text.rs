//! JSON text: reading it and writing it.

use vstd::prelude::*;

use crate::json::{Number, Object, Tree, Json};

verus! {

/// `serde_json::Value`, a JSON value as the parser and the writer hold it.
#[verifier::external_type_specification]
#[verifier::external_body]
pub struct ExJsonValue(serde_json::Value);

/// What `serde_json::from_str` makes of a text: the value, or its message.
pub uninterp spec fn json_of(raw: Seq<char>) -> Result<Tree, Seq<char>>;

/// What `serde_json::from_slice` makes of bytes: the value, or its message.
pub uninterp spec fn json_of_bytes(raw: Seq<u8>) -> Result<Tree, Seq<char>>;

/// The text that `String::from_utf8_lossy` makes of bytes.
pub uninterp spec fn lossy_of(raw: Seq<u8>) -> Seq<char>;

/// What `serde_json::to_string` writes for a value.
pub uninterp spec fn json_text(tree: Tree) -> Seq<char>;

/// The variants of a `serde_json::Value`, one for one; a number that is no whole number
/// is held by the text that its `Display` writes. Nothing is stated of it here: the
/// contract of the parser speaks of its result.
#[verifier::external_body]
fn from_outside(value: serde_json::Value) -> (r: Json) {
    match value {
        serde_json::Value::Null => Json::Null,
        serde_json::Value::Bool(b) => Json::Bool(b),
        serde_json::Value::Number(n) => Json::Number(match (n.as_u64(), n.as_i64()) {
            (Some(whole), _) => Number::Unsigned(whole),
            (None, Some(whole)) => Number::Negative(whole),
            _ => Number::Real(n.to_string()),
        }),
        serde_json::Value::String(s) => Json::Text(s),
        serde_json::Value::Array(items) => Json::Array(items.into_iter().map(from_outside).collect()),
        serde_json::Value::Object(map) => Json::Object(Object {
            entries: map.into_iter().map(|(k, v)| (k, from_outside(v))).collect()
        }),
    }
}

/// The variants of a [`Json`] as a `serde_json::Value`, one for one. Nothing is stated
/// of it here: the contract of the writer speaks of its argument.
#[verifier::external_body]
fn to_outside(value: &Json) -> (r: serde_json::Value) {
    match value {
        Json::Null => serde_json::Value::Null,
        Json::Bool(b) => serde_json::Value::Bool(*b),
        Json::Number(Number::Unsigned(n)) => serde_json::Value::from(*n),
        Json::Number(Number::Negative(n)) => serde_json::Value::from(*n),
        Json::Number(Number::Real(shown)) => serde_json::from_str(shown).unwrap_or_default(),
        Json::Text(s) => serde_json::Value::from(s.as_str()),
        Json::Array(items) => serde_json::Value::Array(items.iter().map(to_outside).collect()),
        Json::Object(object) => serde_json::Value::Object(
            object.entries.iter().map(|entry| (entry.0.clone(), to_outside(&entry.1))).collect(),
        ),
    }
}

/// What a reading of JSON text says.
pub open spec fn json_result(r: Result<Json, String>) -> Result<Tree, Seq<char>> {
    match r {
        Ok(value) => Ok(value@),
        Err(message) => Err(message@),
    }
}

/// `serde_json::from_str` into a `serde_json::Value`, with the `Display` text of its
/// error. The outcome depends on the text alone.
#[verifier::external_body]
pub(crate) fn parse_json(raw: &str) -> (r: Result<Json, String>)
    ensures
        json_result(r) == json_of(raw@),
{
    match serde_json::from_str::<serde_json::Value>(raw) {
        Ok(value) => Ok(from_outside(value)),
        Err(err) => Err(err.to_string()),
    }
}

/// `serde_json::from_slice` into a `serde_json::Value`, with the `Display` text of its
/// error. The outcome depends on the bytes alone.
#[verifier::external_body]
pub(crate) fn parse_json_bytes(raw: &[u8]) -> (r: Result<Json, String>)
    ensures
        json_result(r) == json_of_bytes(raw@),
{
    match serde_json::from_slice::<serde_json::Value>(raw) {
        Ok(value) => Ok(from_outside(value)),
        Err(err) => Err(err.to_string()),
    }
}

/// `String::from_utf8_lossy`: the text that the bytes encode, with a replacement character
/// for what is no UTF-8. Where the replacement characters stand is not said here; the text
/// depends on the bytes alone, and bytes that are UTF-8 are decoded as they are.
#[verifier::external_body]
pub(crate) fn lossy_text(raw: &[u8]) -> (r: String)
    ensures
        r@ == lossy_of(raw@),
        vstd::utf8::valid_utf8(raw@) ==> r@ == vstd::utf8::decode_utf8(raw@),
{
    String::from_utf8_lossy(raw).into_owned()
}

/// `serde_json::to_string` of a `serde_json::Value`, with the `Display` text of its error.
/// What is written depends on the value alone. A `serde_json::Value` has text keys only and
/// is written to memory, which are the two things that writing could fail on, so there is
/// always something written.
#[verifier::external_body]
pub(crate) fn write_json(value: &Json) -> (r: Result<String, String>)
    ensures
        r is Ok,
        r matches Ok(written) ==> written@ == json_text(value@),
{
    serde_json::to_string(&to_outside(value)).map_err(|err| err.to_string())
}

} // verus!

//! JSON documents, and the calls into `serde_json` that read them. Verus
//! reads none of that crate: what the items below state of it is taken on
//! trust.

use vstd::prelude::*;

verus! {

/// A JSON value. A number stands here as the double that `serde_json` makes
/// of it, held by its bits.
pub enum Json {
    Null,
    Bool(bool),
    Number(u64),
    Text(Seq<char>),
    Array(Seq<Json>),
    Object(Map<Seq<char>, Json>),
}

impl Json {
    /// The member `key` of an object; `None` for a value that is no object
    /// or has no such member.
    pub open spec fn member(self, key: Seq<char>) -> Option<Json> {
        match self {
            Json::Object(members) => if members.dom().contains(key) {
                Some(members[key])
            } else {
                None
            },
            _ => None,
        }
    }

    /// The bits of a number; `None` for a value that is no number.
    pub open spec fn number(self) -> Option<u64> {
        match self {
            Json::Number(bits) => Some(bits),
            _ => None,
        }
    }

    /// The number that an object holds under `key`, if it holds one there.
    pub open spec fn member_number(self, key: Seq<char>) -> Option<u64> {
        match self.member(key) {
            Some(member) => member.number(),
            None => None,
        }
    }
}

/// A JSON document as `serde_json` holds it.
#[verifier::external_type_specification]
#[verifier::external_body]
pub struct ExValue(serde_json::Value);

/// The JSON value that a `serde_json::Value` holds.
pub uninterp spec fn json_view(doc: serde_json::Value) -> Json;

/// What `serde_json::from_slice` makes of `text`: the value that it reads,
/// or, where the text is not JSON, the description of what is wrong with it.
pub uninterp spec fn json_parsed(text: Seq<u8>) -> Result<Json, Seq<char>>;

/// What `serde_json::Value::pointer` finds in `doc` at the JSON pointer
/// `pointer`.
pub uninterp spec fn json_at(doc: Json, pointer: Seq<char>) -> Option<Json>;

/// Calls `serde_json::from_slice` for a `serde_json::Value`; the error, if
/// there is one, is handed on as the text that it displays. The outcome
/// depends on the bytes alone.
#[verifier::external_body]
pub(crate) fn from_slice(text: &[u8]) -> (r: Result<serde_json::Value, String>)
    ensures
        r matches Ok(doc) ==> (json_parsed(text@) matches Ok(value) && value == json_view(doc)),
        r matches Err(why) ==> (json_parsed(text@) matches Err(reason) && reason == why@),
{
    serde_json::from_slice::<serde_json::Value>(text).map_err(|e| e.to_string())
}

/// Calls `serde_json::Value::pointer`, which resolves a JSON pointer inside
/// the document that it is called on.
#[verifier::external_body]
pub(crate) fn pointer<'a>(doc: &'a serde_json::Value, path: &str) -> (r: Option<
    &'a serde_json::Value,
>)
    ensures
        r matches Some(found) ==> json_at(json_view(*doc), path@) == Some(json_view(*found)),
        r is None ==> json_at(json_view(*doc), path@) is None,
{
    doc.pointer(path)
}

/// Calls `serde_json::Value::get` with a string as index: it gives the
/// member of that name where `doc` is an object that has one, and `None`
/// for every other value.
#[verifier::external_body]
pub(crate) fn get<'a>(doc: &'a serde_json::Value, key: &str) -> (r: Option<&'a serde_json::Value>)
    ensures
        r matches Some(found) ==> json_view(*doc).member(key@) == Some(json_view(*found)),
        r is None ==> json_view(*doc).member(key@) is None,
{
    doc.get(key)
}

/// Calls `serde_json::Value::as_f64`, which gives every number as a double
/// and `None` for every other value, and hands the double on as its bits.
#[verifier::external_body]
pub(crate) fn number(doc: &serde_json::Value) -> (r: Option<u64>)
    ensures
        r == json_view(*doc).number(),
{
    doc.as_f64().map(|x| x.to_bits())
}

/// The number that `doc` holds under `key`.
pub(crate) fn member_number(doc: &serde_json::Value, key: &str) -> (r: Option<u64>)
    ensures
        r == json_view(*doc).member_number(key@),
{
    match get(doc, key) {
        Some(member) => number(member),
        None => None,
    }
}

} // verus!

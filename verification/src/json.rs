//! JSON documents, as `serde_json` reads them.
use vstd::prelude::*;

verus! {

/// What a JSON value holds, as far as this library reads it. Numbers, booleans
/// and nulls are never read, so they are not told apart.
pub enum Json {
    Scalar,
    Text(Seq<char>),
    List(Seq<Json>),
    Object(Map<Seq<char>, Json>),
}

impl Json {
    /// The member of an object under `key`.
    pub open spec fn member(self, key: Seq<char>) -> Option<Json> {
        match self {
            Json::Object(members) => if members.dom().contains(key) {
                Some(members[key])
            } else {
                None
            },
            _ => None,
        }
    }
}

/// The type of a parsed document.
#[verifier::external_type_specification]
#[verifier::external_body]
pub struct ExValue(serde_json::Value);

/// The contents of a `serde_json::Value`.
pub uninterp spec fn json_contents(value: serde_json::Value) -> Json;

/// What `serde_json::from_slice` makes of a byte string: the contents of the
/// value, or the text of the error.
pub uninterp spec fn json_document(bytes: Seq<u8>) -> Result<Json, Seq<char>>;

/// The contents of a value, where there is one.
pub open spec fn contents_of(value: Option<&serde_json::Value>) -> Option<Json> {
    match value {
        Some(v) => Some(json_contents(*v)),
        None => None,
    }
}

/// `serde_json::from_slice`. Whether the bytes are a JSON document, what it
/// holds, and the text of the error where they are not, depend on the bytes
/// alone; the grammar is left to the crate.
#[verifier::external_body]
pub(crate) fn parse_json(bytes: &[u8]) -> (parsed: Result<serde_json::Value, String>)
    ensures
        match parsed {
            Ok(value) => json_document(bytes@) == Ok::<Json, Seq<char>>(json_contents(value)),
            Err(text) => json_document(bytes@) == Err::<Json, Seq<char>>(text@),
        },
{
    serde_json::from_slice::<serde_json::Value>(bytes).map_err(|e| e.to_string())
}

/// `serde_json::Value::get` with a string: the member of an object under that
/// key, and nothing of what is no object.
#[verifier::external_body]
pub(crate) fn json_member<'a>(value: &'a serde_json::Value, key: &str) -> (found: Option<
    &'a serde_json::Value,
>)
    ensures
        contents_of(found) == json_contents(*value).member(key@),
{
    value.get(key)
}

/// `serde_json::Value::as_array`: the items of a list, in their order, and
/// nothing of what is no list.
#[verifier::external_body]
pub(crate) fn json_list(value: &serde_json::Value) -> (found: Option<&Vec<serde_json::Value>>)
    ensures
        match found {
            Some(items) => json_contents(*value) == Json::List(
                items@.map_values(|item: serde_json::Value| json_contents(item)),
            ),
            None => !(json_contents(*value) is List),
        },
{
    value.as_array()
}

/// `serde_json::Value::as_str`: the text of a string, and nothing of what is no
/// string.
#[verifier::external_body]
pub(crate) fn json_text(value: &serde_json::Value) -> (found: Option<&str>)
    ensures
        match found {
            Some(text) => json_contents(*value) == Json::Text(text@),
            None => !(json_contents(*value) is Text),
        },
{
    value.as_str()
}

} // verus!

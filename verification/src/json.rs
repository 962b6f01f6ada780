//! The JSON documents the library writes, rendered by `serde_json`.
//!
//! Trusted items: `serde_json::Map`, `Value` and `Error` are declared opaque; the
//! content of a map is named by [`json_object_entries`] and the text that
//! `serde_json::to_string_pretty` produces for it by [`json_pretty_text`].

use vstd::prelude::*;

verus! {

#[verifier::external_type_specification]
#[verifier::external_body]
#[verifier::reject_recursive_types(K)]
#[verifier::reject_recursive_types(V)]
pub struct ExJsonMap<K, V>(serde_json::Map<K, V>);

#[verifier::external_type_specification]
#[verifier::external_body]
pub struct ExJsonValue(serde_json::Value);

#[verifier::external_type_specification]
#[verifier::external_body]
pub struct ExJsonError(serde_json::Error);

/// A JSON object with string keys.
pub type JsonObject = serde_json::Map<String, serde_json::Value>;

/// The JSON values this library stores in an object: a string or an array of strings.
pub enum JsonEntry {
    Text(Seq<char>),
    TextList(Seq<Seq<char>>),
}

/// Name for the key/value content of a `serde_json::Map<String, Value>` built by this module.
pub uninterp spec fn json_object_entries(m: JsonObject) -> Map<Seq<char>, JsonEntry>;

/// The content of an empty object.
pub open spec fn no_json_entries() -> Map<Seq<char>, JsonEntry> {
    Map::empty()
}

/// Name for the text `serde_json::to_string_pretty` renders for an object with these entries.
pub uninterp spec fn json_pretty_text(entries: Map<Seq<char>, JsonEntry>) -> Seq<char>;

/// Calls `serde_json::Map::new`: an empty object.
#[verifier::external_body]
pub fn json_object_new() -> (obj: JsonObject)
    ensures
        json_object_entries(obj) == no_json_entries(),
{
    serde_json::Map::new()
}

/// Calls `serde_json::Map::insert` with a string value; the key then maps to that
/// string and every other key is unchanged (the source replaces an existing value).
#[verifier::external_body]
pub fn json_object_insert_text(m: &mut JsonObject, key: String, value: String)
    ensures
        json_object_entries(*final(m)) == json_object_entries(*old(m)).insert(key@, JsonEntry::Text(value@)),
{
    m.insert(key, serde_json::Value::String(value));
}

/// Calls `serde_json::Map::insert` with an array of strings, kept in order.
#[verifier::external_body]
pub fn json_object_insert_text_list(
    m: &mut JsonObject,
    key: String,
    values: Vec<String>,
)
    ensures
        json_object_entries(*final(m)) == json_object_entries(*old(m)).insert(
            key@,
            JsonEntry::TextList(values.deep_view()),
        ),
{
    m.insert(key, serde_json::Value::Array(values.into_iter().map(serde_json::Value::String).collect()));
}

/// Calls `serde_json::to_string_pretty` on the object: it succeeds, with the text
/// named by [`json_pretty_text`] for the object's entries. The source shows no
/// failure for this type: `Map<String, Value>` serializes its string keys and
/// its values without error, and the writer is a `Vec<u8>`, whose writes cannot fail.
#[verifier::external_body]
pub fn json_object_to_string_pretty(m: &JsonObject) -> (r: Result<
    String,
    serde_json::Error,
>)
    ensures
        r is Ok,
        r matches Ok(s) ==> s@ == json_pretty_text(json_object_entries(*m)),
{
    serde_json::to_string_pretty(m)
}

/// Name for what `serde_json::from_str::<Vec<Value>>` and a field lookup give: `None`
/// when `text` is not a JSON array; otherwise, element by element, the string held
/// under `key` (`None` for an element that is not an object with a string there).
pub uninterp spec fn json_array_string_fields(text: Seq<char>, key: Seq<char>) -> Option<Seq<Option<Seq<char>>>>;

/// Calls `serde_json::from_str::<Vec<serde_json::Value>>` on `text` and, for each
/// element, `Value::get(key)` and `Value::as_str`; the result is the one named by
/// [`json_array_string_fields`].
#[verifier::external_body]
pub fn json_array_string_field_values(text: &str, key: &str) -> (r: Option<Vec<Option<String>>>)
    ensures
        r.deep_view() == json_array_string_fields(text@, key@),
{
    match serde_json::from_str::<Vec<serde_json::Value>>(text) {
        Ok(items) => Some(items.iter().map(|v| v.get(key).and_then(|n| n.as_str()).map(String::from)).collect()),
        Err(_) => None,
    }
}

} // verus!

//! JSON objects of the control channel.
//!
//! The objects are `serde_json` maps and `serde_json` renders them. Only the
//! items of this file are taken on trust; each says which function of
//! `serde_json` it stands for and what is claimed of it.

use vstd::prelude::*;

verus! {

/// A value that a control-channel field can carry.
#[derive(Clone, Debug, PartialEq, Eq)]
pub enum FieldValue {
    /// A JSON string.
    Text(String),
    /// A JSON unsigned integer.
    Number(u32),
}

/// What a `FieldValue` stands for.
pub ghost enum WireValue {
    Text(Seq<char>),
    Number(u32),
}

impl View for FieldValue {
    type V = WireValue;

    open spec fn view(&self) -> WireValue {
        match self {
            FieldValue::Text(s) => WireValue::Text(s@),
            FieldValue::Number(n) => WireValue::Number(*n),
        }
    }
}

/// `serde_json::Value`, carried through opaquely.
#[verifier::external_type_specification]
#[verifier::external_body]
pub struct ExJsonValue(serde_json::Value);

/// `serde_json::Map`, the object under construction.
#[verifier::external_type_specification]
#[verifier::external_body]
#[verifier::reject_recursive_types(K)]
#[verifier::reject_recursive_types(V)]
pub struct ExJsonObject<K, V>(serde_json::Map<K, V>);

/// The entries that an object holds, by key.
pub uninterp spec fn object_fields(
    object: serde_json::Map<String, serde_json::Value>,
) -> Map<Seq<char>, WireValue>;

/// The compact JSON text of an object with the given entries, as
/// `serde_json` prints it: keys in the order of the map, no white space.
pub uninterp spec fn json_object_text(fields: Map<Seq<char>, WireValue>) -> Seq<char>;

/// `serde_json::Map::new`. Trusted: the new object has no entries.
#[verifier::external_body]
pub(crate) fn object_new() -> (object: serde_json::Map<String, serde_json::Value>)
    ensures
        object_fields(object) == (Map::<Seq<char>, WireValue>::empty()),
{
    serde_json::Map::new()
}

/// `serde_json::Map::insert`. Trusted: afterwards the object maps `key` to
/// `value` and every other key to what it held before. The value that an
/// existing key held is dropped.
#[verifier::external_body]
pub(crate) fn object_insert(
    object: &mut serde_json::Map<String, serde_json::Value>,
    key: &str,
    value: FieldValue,
)
    ensures
        object_fields(*final(object)) == object_fields(*old(object)).insert(key@, value@),
{
    let json = match value {
        FieldValue::Text(s) => serde_json::Value::String(s),
        FieldValue::Number(n) => serde_json::Value::Number(n.into()),
    };
    object.insert(key.to_string(), json);
}

/// `to_string` of `serde_json::Value::Object`, that is its `Display`.
/// Trusted: the text depends on the entries alone. With the sorted map that
/// `serde_json` uses unless built with `preserve_order`, two objects with the
/// same entries print alike, whatever the order of the insertions was.
/// Trusted too: the text holds no line feed. The compact form has no white
/// space between tokens, and inside a string a line feed is written as the
/// escape `\n`, a backslash and the letter.
#[verifier::external_body]
pub(crate) fn object_text(object: serde_json::Map<String, serde_json::Value>) -> (text: String)
    ensures
        text@ == json_object_text(object_fields(object)),
        !text@.contains('\n'),
{
    serde_json::Value::Object(object).to_string()
}

} // verus!

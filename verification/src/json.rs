//! The boundary to `serde_json`: a mathematical model of a JSON document and
//! the few operations of `serde_json::Value` that the pipeline relies on.
//!
//! Nothing in this module is proved. Each function below makes one call into
//! `serde_json`, and its contract restates what that crate's source shows.

use vstd::prelude::*;

verus! {

/// A JSON document as a mathematical value.
pub enum JsonModel {
    Null,
    Bool(bool),
    /// A number held as an integer.
    Integer(int),
    /// Any other number.
    Decimal,
    Text(Seq<char>),
    Array(Seq<JsonModel>),
    /// An object; the order of its members plays no part.
    Object(Map<Seq<char>, JsonModel>),
}

/// The member of `document` under `key`, if `document` is an object that has one.
pub open spec fn member(document: JsonModel, key: Seq<char>) -> Option<JsonModel> {
    match document {
        JsonModel::Object(members) => if members.contains_key(key) {
            Some(members[key])
        } else {
            None
        },
        _ => None,
    }
}

/// The element of `document` at `index`, if `document` is an array that long.
pub open spec fn element(document: JsonModel, index: int) -> Option<JsonModel> {
    match document {
        JsonModel::Array(items) => if 0 <= index < items.len() {
            Some(items[index])
        } else {
            None
        },
        _ => None,
    }
}

/// The text of `document`, if `document` is a string.
pub open spec fn text_of(document: JsonModel) -> Option<Seq<char>> {
    match document {
        JsonModel::Text(text) => Some(text),
        _ => None,
    }
}

/// The documents held by a sequence of values, one for one.
pub open spec fn models_of(values: Seq<serde_json::Value>) -> Seq<JsonModel> {
    Seq::new(values.len(), |i: int| json_view(values[i]))
}

/// The members that a list of keyed values makes up.
pub open spec fn members_of(entries: Seq<(String, serde_json::Value)>) -> Map<
    Seq<char>,
    JsonModel,
>
    decreases entries.len(),
{
    if entries.len() == 0 {
        Map::empty()
    } else {
        members_of(entries.drop_last()).insert(entries.last().0@, json_view(entries.last().1))
    }
}

/// Whether no key occurs twice in `entries`.
pub open spec fn keys_distinct(entries: Seq<(String, serde_json::Value)>) -> bool {
    forall|i: int, j: int|
        0 <= i < j < entries.len() ==> (#[trigger] entries[i]).0@ != (#[trigger] entries[j]).0@
}

/// `serde_json::Value`, carried as it is: what it holds is known only
/// through `json_view`.
#[verifier::external_type_specification]
#[verifier::external_body]
pub struct ExValue(serde_json::Value);

/// `serde_json::Error`, carried as it is: nothing is read from it.
#[verifier::external_type_specification]
#[verifier::external_body]
pub struct ExError(serde_json::Error);

/// The document that a `serde_json::Value` holds.
pub uninterp spec fn json_view(value: serde_json::Value) -> JsonModel;

/// The document that `serde_json::from_str` reads from `text`, if it reads one.
pub uninterp spec fn json_parse(text: Seq<char>) -> Option<JsonModel>;

/// `serde_json::from_str::<serde_json::Value>`: whether a document is read,
/// and which, depends on the text alone; a value that comes back holds the
/// document read.
#[verifier::external_body]
pub(crate) fn parse_document(text: &str) -> (parsed: Result<serde_json::Value, serde_json::Error>)
    ensures
        match parsed {
            Ok(value) => json_parse(text@) == Some(json_view(value)),
            Err(_) => json_parse(text@).is_none(),
        },
{
    serde_json::from_str::<serde_json::Value>(text)
}

/// `serde_json::Value::get` with a string key: the member under that key when
/// the value is an object that has it, nothing otherwise.
#[verifier::external_body]
pub(crate) fn member_of<'a>(value: &'a serde_json::Value, key: &str) -> (found: Option<
    &'a serde_json::Value,
>)
    ensures
        match found {
            Some(inner) => member(json_view(*value), key@) == Some(json_view(*inner)),
            None => member(json_view(*value), key@).is_none(),
        },
{
    value.get(key)
}

/// `serde_json::Value::get` with a position: the element there when the value
/// is an array that long, nothing otherwise.
#[verifier::external_body]
pub(crate) fn element_of<'a>(value: &'a serde_json::Value, index: usize) -> (found: Option<
    &'a serde_json::Value,
>)
    ensures
        match found {
            Some(inner) => element(json_view(*value), index as int) == Some(json_view(*inner)),
            None => element(json_view(*value), index as int).is_none(),
        },
{
    value.get(index)
}

/// `serde_json::Value::as_str`: the text when the value is a string, nothing
/// otherwise.
#[verifier::external_body]
pub(crate) fn text_in<'a>(value: &'a serde_json::Value) -> (found: Option<&'a str>)
    ensures
        match found {
            Some(text) => text_of(json_view(*value)) == Some(text@),
            None => text_of(json_view(*value)).is_none(),
        },
{
    value.as_str()
}

/// `serde_json::Value::String`: the string value with this text.
#[verifier::external_body]
pub(crate) fn text_value(text: String) -> (value: serde_json::Value)
    ensures
        json_view(value) == JsonModel::Text(text@),
{
    serde_json::Value::String(text)
}

/// `From<u64> for serde_json::Value`: the number value of this integer.
#[verifier::external_body]
pub(crate) fn integer_value(number: u64) -> (value: serde_json::Value)
    ensures
        json_view(value) == JsonModel::Integer(number as int),
{
    serde_json::Value::from(number)
}

/// `serde_json::Value::Array`: the array value with these elements, in order.
#[verifier::external_body]
pub(crate) fn array_value(items: Vec<serde_json::Value>) -> (value: serde_json::Value)
    ensures
        json_view(value) == JsonModel::Array(models_of(items@)),
{
    serde_json::Value::Array(items)
}

/// `serde_json::Value::Object` over `FromIterator for serde_json::Map`: the
/// object value whose members are these entries. Keys must not repeat: which
/// of two entries with one key would stay is not documented.
#[verifier::external_body]
pub(crate) fn object_value(entries: Vec<(String, serde_json::Value)>) -> (value: serde_json::Value)
    requires
        keys_distinct(entries@),
    ensures
        json_view(value) == JsonModel::Object(members_of(entries@)),
{
    serde_json::Value::Object(entries.into_iter().collect())
}

} // verus!

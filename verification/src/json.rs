//! JSON tool payloads. Each read parses the payload with `serde_json` and
//! follows one path of object keys and array indices; what it finds is
//! named by a function of the payload text and the path. Objects the
//! library writes are lists of keys and values that `serde_json` renders.
use crate::text::opt_view;
use vstd::prelude::*;

verus! {

/// The string at `key` of the JSON object `content`, when `content`
/// parses as JSON and holds a string there.
pub uninterp spec fn json_str_field(content: Seq<char>, key: Seq<char>) -> Option<Seq<char>>;

/// The unsigned integer at `key` of the JSON object `content`, as
/// `Value::as_u64` reads it.
pub uninterp spec fn json_u64_field(content: Seq<char>, key: Seq<char>) -> Option<u64>;

/// The signed integer at `key` of the JSON object `content`, as
/// `Value::as_i64` reads it.
pub uninterp spec fn json_i64_field(content: Seq<char>, key: Seq<char>) -> Option<i64>;

/// The boolean at `key` of the JSON object `content`.
pub uninterp spec fn json_bool_field(content: Seq<char>, key: Seq<char>) -> Option<bool>;

/// The length of the array at `key` of the JSON object `content`.
pub uninterp spec fn json_array_len(content: Seq<char>, key: Seq<char>) -> Option<usize>;

/// The string at `item_key` of element `index` of the array at `key`.
pub uninterp spec fn json_item_str_field(
    content: Seq<char>,
    key: Seq<char>,
    index: usize,
    item_key: Seq<char>,
) -> Option<Seq<char>>;

/// The unsigned integer at `item_key` of element `index` of the array at `key`.
pub uninterp spec fn json_item_u64_field(
    content: Seq<char>,
    key: Seq<char>,
    index: usize,
    item_key: Seq<char>,
) -> Option<u64>;

/// Parses `content` with `serde_json::from_str` and reads a string with
/// `Value::get` and `Value::as_str`; the result is named by `json_str_field`.
#[verifier::external_body]
pub(crate) fn json_str_field_of(content: &str, key: &str) -> (r: Option<String>)
    ensures
        opt_view(r) == json_str_field(content@, key@),
{
    let value = serde_json::from_str::<serde_json::Value>(content).ok()?;
    value.get(key)?.as_str().map(str::to_owned)
}

/// Parses `content` and reads an integer with `Value::as_u64`; the result
/// is named by `json_u64_field`.
#[verifier::external_body]
pub(crate) fn json_u64_field_of(content: &str, key: &str) -> (r: Option<u64>)
    ensures
        r == json_u64_field(content@, key@),
{
    let value = serde_json::from_str::<serde_json::Value>(content).ok()?;
    value.get(key)?.as_u64()
}

/// Parses `content` and reads an integer with `Value::as_i64`; the result
/// is named by `json_i64_field`.
#[verifier::external_body]
pub(crate) fn json_i64_field_of(content: &str, key: &str) -> (r: Option<i64>)
    ensures
        r == json_i64_field(content@, key@),
{
    let value = serde_json::from_str::<serde_json::Value>(content).ok()?;
    value.get(key)?.as_i64()
}

/// Parses `content` and reads a boolean with `Value::as_bool`; the result
/// is named by `json_bool_field`.
#[verifier::external_body]
pub(crate) fn json_bool_field_of(content: &str, key: &str) -> (r: Option<bool>)
    ensures
        r == json_bool_field(content@, key@),
{
    let value = serde_json::from_str::<serde_json::Value>(content).ok()?;
    value.get(key)?.as_bool()
}

/// Parses `content` and reads an array's length with `Value::as_array`;
/// the result is named by `json_array_len`.
#[verifier::external_body]
pub(crate) fn json_array_len_of(content: &str, key: &str) -> (r: Option<usize>)
    ensures
        r == json_array_len(content@, key@),
{
    let value = serde_json::from_str::<serde_json::Value>(content).ok()?;
    value.get(key)?.as_array().map(Vec::len)
}

/// Parses `content` and reads a string field of an array element; the
/// result is named by `json_item_str_field`.
#[verifier::external_body]
pub(crate) fn json_item_str_field_of(content: &str, key: &str, index: usize, item_key: &str) -> (r:
    Option<String>)
    ensures
        opt_view(r) == json_item_str_field(content@, key@, index, item_key@),
{
    let value = serde_json::from_str::<serde_json::Value>(content).ok()?;
    let item = value.get(key)?.as_array()?.get(index)?;
    item.get(item_key)?.as_str().map(str::to_owned)
}

/// Parses `content` and reads an integer field of an array element; the
/// result is named by `json_item_u64_field`.
#[verifier::external_body]
pub(crate) fn json_item_u64_field_of(content: &str, key: &str, index: usize, item_key: &str) -> (r:
    Option<u64>)
    ensures
        r == json_item_u64_field(content@, key@, index, item_key@),
{
    let value = serde_json::from_str::<serde_json::Value>(content).ok()?;
    value.get(key)?.as_array()?.get(index)?.get(item_key)?.as_u64()
}

/// A value of a JSON object the library writes.
#[derive(Debug, Clone, PartialEq, Eq)]
pub enum JsonValue {
    Text(String),
    Unsigned(u64),
    Signed(i64),
    Bool(bool),
    Null,
    /// The JSON a text parses to; only for texts that parse.
    Parsed(String),
}

/// A `JsonValue` with its texts as character sequences.
pub enum JsonValueView {
    Text(Seq<char>),
    Unsigned(u64),
    Signed(i64),
    Bool(bool),
    Null,
    Parsed(Seq<char>),
}

impl View for JsonValue {
    type V = JsonValueView;

    open spec fn view(&self) -> JsonValueView {
        match self {
            JsonValue::Text(t) => JsonValueView::Text(t@),
            JsonValue::Unsigned(n) => JsonValueView::Unsigned(*n),
            JsonValue::Signed(n) => JsonValueView::Signed(*n),
            JsonValue::Bool(b) => JsonValueView::Bool(*b),
            JsonValue::Null => JsonValueView::Null,
            JsonValue::Parsed(t) => JsonValueView::Parsed(t@),
        }
    }
}

/// The keys and values of an object, as views.
pub open spec fn field_views(fields: Seq<(String, JsonValue)>) -> Seq<(Seq<char>, JsonValueView)> {
    fields.map_values(|f: (String, JsonValue)| (f.0@, f.1@))
}

/// Whether `serde_json::from_str` parses `text` as a JSON value.
pub uninterp spec fn json_valid(text: Seq<char>) -> bool;

/// The text `serde_json` renders (`Value::to_string`) for the object whose
/// `Map` received the fields in order, each value converted to a `Value`
/// (a later key replaces an earlier one).
pub uninterp spec fn json_object_text(fields: Seq<(Seq<char>, JsonValueView)>) -> Seq<char>;

/// Every `Parsed` value of the fields is a text that parses.
pub open spec fn fields_parse(fields: Seq<(Seq<char>, JsonValueView)>) -> bool {
    forall|i: int|
        0 <= i < fields.len() ==> match #[trigger] fields[i].1 {
            JsonValueView::Parsed(t) => json_valid(t),
            _ => true,
        }
}

/// Calls `serde_json::from_str::<Value>`; whether it succeeds is named by
/// `json_valid`.
#[verifier::external_body]
pub(crate) fn json_parses(text: &str) -> (b: bool)
    ensures
        b == json_valid(text@),
{
    serde_json::from_str::<serde_json::Value>(text).is_ok()
}

/// Converts the fields to `serde_json` values (`Parsed` through `from_str`),
/// inserts them into a `Map` in order and renders it with
/// `Value::to_string`; the text is named by `json_object_text`.
#[verifier::external_body]
pub(crate) fn render_json_object(fields: &Vec<(String, JsonValue)>) -> (r: String)
    requires
        fields_parse(field_views(fields@)),
    ensures
        r@ == json_object_text(field_views(fields@)),
{
    let mut object = serde_json::Map::new();
    for (key, value) in fields {
        let value = match value {
            JsonValue::Text(t) => serde_json::Value::String(t.clone()),
            JsonValue::Unsigned(n) => serde_json::Value::from(*n),
            JsonValue::Signed(n) => serde_json::Value::from(*n),
            JsonValue::Bool(b) => serde_json::Value::Bool(*b),
            JsonValue::Null => serde_json::Value::Null,
            JsonValue::Parsed(t) => serde_json::from_str(t).unwrap_or(serde_json::Value::Null),
        };
        object.insert(key.clone(), value);
    }
    serde_json::Value::Object(object).to_string()
}

} // verus!

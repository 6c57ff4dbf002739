//! JSON documents, held in `serde_json` values.
//!
//! The document itself is an opaque value of `serde_json`. `json_model` says what it holds, and
//! `json_text` what it looks like on the wire; the functions below are the only places where the
//! crate is called.

use vstd::prelude::*;

verus! {

/// What a JSON value holds. An object lists its entries in the order in which they are written.
pub enum JsonModel {
    Null,
    Bool(bool),
    /// A number without a fraction.
    Integer(int),
    /// Any other number, by the bits of its IEEE 754 double.
    Fraction(u64),
    Text(Seq<char>),
    Array(Seq<JsonModel>),
    Object(Seq<(Seq<char>, JsonModel)>),
}

/// `serde_json::Value`.
#[verifier::external_type_specification]
#[verifier::external_body]
pub struct ExValue(serde_json::Value);

/// What a `serde_json::Value` holds, with the entries of every object in the order in which the
/// map behind it keeps them. `serde_json` is built with `preserve_order`, so that is the order of
/// insertion.
pub uninterp spec fn json_model(value: serde_json::Value) -> JsonModel;

/// The compact text that `serde_json` writes for a value.
pub uninterp spec fn json_text(model: JsonModel) -> Seq<char>;

/// The entries that a list of keys and values stands for.
pub open spec fn entries_model(entries: Seq<(String, serde_json::Value)>) -> Seq<
    (Seq<char>, JsonModel),
> {
    entries.map_values(|e: (String, serde_json::Value)| (e.0@, json_model(e.1)))
}

/// No key stands in the list twice.
pub open spec fn distinct_keys(entries: Seq<(Seq<char>, JsonModel)>) -> bool {
    forall|i: int, j: int|
        0 <= i < j < entries.len() ==> (#[trigger] entries[i]).0 != (#[trigger] entries[j]).0
}

/// An object whose entries hold neither objects nor arrays.
pub open spec fn is_flat(model: JsonModel) -> bool {
    model matches JsonModel::Object(entries) && forall|i: int|
        0 <= i < entries.len() ==> !((#[trigger] entries[i]).1 is Object) && !(entries[i].1 is Array)
}

/// Calls `serde_json::Value::from` on `()`, which gives `null`.
#[verifier::external_body]
pub(crate) fn json_null() -> (r: serde_json::Value)
    ensures
        json_model(r) == JsonModel::Null,
{
    serde_json::Value::from(())
}

/// Calls `serde_json::Value::from` on a `bool`, which gives that boolean.
#[verifier::external_body]
pub(crate) fn json_bool(b: bool) -> (r: serde_json::Value)
    ensures
        json_model(r) == JsonModel::Bool(b),
{
    serde_json::Value::from(b)
}

/// Calls `serde_json::Value::from` on a `u32`, which gives that number.
#[verifier::external_body]
pub(crate) fn json_number(n: u32) -> (r: serde_json::Value)
    ensures
        json_model(r) == JsonModel::Integer(n as int),
{
    serde_json::Value::from(n)
}

/// Calls `serde_json::Value::from` on a `&str`, which gives a JSON string with that text.
#[verifier::external_body]
pub(crate) fn json_string(s: &str) -> (r: serde_json::Value)
    ensures
        json_model(r) == JsonModel::Text(s@),
{
    serde_json::Value::from(s)
}

/// Calls `serde_json::Value::from_iter` on pairs of a key and a value, which gives an object. Where
/// no key is repeated, the object holds exactly these entries, in this order.
#[verifier::external_body]
pub(crate) fn json_object(entries: Vec<(String, serde_json::Value)>) -> (r: serde_json::Value)
    requires
        distinct_keys(entries_model(entries@)),
    ensures
        json_model(r) == JsonModel::Object(entries_model(entries@)),
{
    serde_json::Value::from_iter(entries)
}

/// Calls `to_string` on a `serde_json::Value`, which writes it in compact form. The text depends on
/// what the value holds and on nothing else, and it has no character below U+0020: the format puts
/// no line break between tokens, and strings have theirs escaped. The writer recurses into nested
/// values, so only flat objects are handed to it.
#[verifier::external_body]
pub(crate) fn json_to_string(value: &serde_json::Value) -> (r: String)
    requires
        is_flat(json_model(*value)),
    ensures
        r@ == json_text(json_model(*value)),
        forall|i: int| 0 <= i < r@.len() ==> #[trigger] r@[i] >= '\u{20}',
{
    value.to_string()
}

/// An entry whose value is a string.
pub open spec fn text_entry(key: Seq<char>, value: Seq<char>) -> (Seq<char>, JsonModel) {
    (key, JsonModel::Text(value))
}

/// Makes an entry whose value is a string.
pub(crate) fn string_entry(key: &str, value: &str) -> (r: (String, serde_json::Value))
    ensures
        r.0@ == key@,
        json_model(r.1) == JsonModel::Text(value@),
{
    (key.to_owned(), json_string(value))
}

} // verus!

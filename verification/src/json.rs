//! The JSON object that holds a record.
//!
//! The object is a `serde_json::Value`, filled and written out by the
//! `serde_json` crate. The items below that are marked `external_body` call
//! it; their contracts are taken on trust.

use vstd::prelude::*;
use crate::text::option_text;

verus! {

/// `serde_json::Value`, any JSON value. Nothing inside it is visible to a
/// proof; what it holds is named by [`json_model`].
#[verifier::external_type_specification]
#[verifier::external_body]
pub struct ExJsonValue(serde_json::Value);

/// What a JSON value holds.
pub enum JsonModel {
    /// `null`.
    Null,
    /// `true` or `false`.
    Bool(bool),
    /// An unsigned integer.
    Number(u64),
    /// An integer below zero.
    Negative(i64),
    /// A number with a fraction or an exponent, by the bits of its double.
    Fraction(u64),
    /// A string.
    Text(Seq<char>),
    /// An array of values.
    Array(Seq<JsonModel>),
    /// An object: its members by key.
    Object(Map<Seq<char>, JsonModel>),
}

/// What a JSON value holds.
pub uninterp spec fn json_model(json: serde_json::Value) -> JsonModel;

/// The compact JSON text of a value, as `serde_json::to_vec` writes it.
pub uninterp spec fn json_text(model: JsonModel) -> Seq<u8>;

/// Whether a JSON value is an object.
pub open spec fn json_is_object(json: serde_json::Value) -> bool {
    json_model(json) is Object
}

/// The members of an object, by key; none for any other value.
pub open spec fn json_members(json: serde_json::Value) -> Map<Seq<char>, JsonModel> {
    match json_model(json) {
        JsonModel::Object(members) => members,
        _ => Map::empty(),
    }
}

/// A string member, `null` where the string is absent.
pub open spec fn text_member(text: Option<Seq<char>>) -> JsonModel {
    match text {
        Some(t) => JsonModel::Text(t),
        None => JsonModel::Null,
    }
}

/// A number member, `null` where the number is absent.
pub open spec fn number_member(number: Option<u64>) -> JsonModel {
    match number {
        Some(n) => JsonModel::Number(n),
        None => JsonModel::Null,
    }
}

/// Makes `serde_json::Value::Object` of `serde_json::Map::new()`: an object
/// without members.
#[verifier::external_body]
pub(crate) fn new_object() -> (json: serde_json::Value)
    ensures
        json_model(json) == JsonModel::Object(Map::empty()),
{
    serde_json::Value::Object(serde_json::Map::new())
}

/// Assigns through `serde_json::Value`'s `IndexMut` for a string key, which
/// inserts the key into an object or replaces what the key held. The member
/// is `Value::from` of the option: `null` for `None`, a string otherwise.
/// `IndexMut` panics on a value that is neither an object nor `null`, which
/// the precondition excludes.
#[verifier::external_body]
pub(crate) fn set_text(json: &mut serde_json::Value, key: &str, text: Option<String>)
    requires
        json_model(*old(json)) is Object,
    ensures
        json_model(*final(json)) == JsonModel::Object(
            json_members(*old(json)).insert(key@, text_member(option_text(text))),
        ),
{
    json[key] = serde_json::Value::from(text);
}

/// As [`set_text`], for a member that is `null` for `None` and an unsigned
/// integer otherwise.
#[verifier::external_body]
pub(crate) fn set_number(json: &mut serde_json::Value, key: &str, number: Option<u64>)
    requires
        json_model(*old(json)) is Object,
    ensures
        json_model(*final(json)) == JsonModel::Object(
            json_members(*old(json)).insert(key@, number_member(number)),
        ),
{
    json[key] = serde_json::Value::from(number);
}

/// Calls `serde_json::to_vec`. With the crate's default map an object keeps
/// its members sorted by key, so the text is a function of what the value
/// holds, named [`json_text`]; a build that makes the map keep the order of
/// insertion is not what this contract describes. Writing a value cannot
/// fail: the keys of its objects are strings, and the only error of the
/// serializer on `null`, booleans, numbers, strings, arrays and objects is
/// one of the writer, which is a `Vec` here.
#[verifier::external_body]
pub(crate) fn to_vec(json: &serde_json::Value) -> (bytes: Option<Vec<u8>>)
    ensures
        bytes is Some,
        bytes matches Some(written) ==> written@ == json_text(json_model(*json)),
{
    serde_json::to_vec(json).ok()
}

} // verus!

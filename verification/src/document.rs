//! The JSON document of one language, built on `json::JsonValue`.

use vstd::prelude::*;
use vstd::string::*;
use json::JsonValue;
use crate::assoc::upsert;

verus! {

/// `json::JsonValue`, a JSON value of any kind.
#[verifier::external_type_specification]
#[verifier::external_body]
pub struct ExJsonValue(JsonValue);

/// The members of a JSON object, in their order.
pub type Members = Seq<(Seq<char>, JsonModel)>;

/// What a JSON value holds, as far as this crate builds such values.
pub enum JsonModel {
    /// A string.
    Text(Seq<char>),
    /// An object and its members in their order.
    Object(Members),
    /// Any other value.
    Other,
}

/// What a JSON value holds.
pub uninterp spec fn json_model(value: JsonValue) -> JsonModel;

/// The text of a JSON value made of objects and strings alone, printed with
/// one member per line and `spaces` spaces for each level of nesting.
pub uninterp spec fn pretty_text(model: JsonModel, spaces: u16) -> Seq<char>;

/// The members of an object; a value of another kind has none.
pub open spec fn members_of(model: JsonModel) -> Members {
    match model {
        JsonModel::Object(members) => members,
        _ => Seq::empty(),
    }
}

/// Whether a value is made of objects and strings alone.
pub open spec fn plain(model: JsonModel) -> bool
    decreases model,
{
    match model {
        JsonModel::Text(_) => true,
        JsonModel::Object(members) => forall|i: int|
            0 <= i < members.len() ==> plain(#[trigger] members[i].1),
        JsonModel::Other => false,
    }
}

/// Calls `JsonValue::new_object`.
///
/// Trusted: the result is an object without members.
#[verifier::external_body]
pub(crate) fn json_new_object() -> (value: JsonValue)
    ensures
        json_model(value) == JsonModel::Object(Seq::empty()),
{
    JsonValue::new_object()
}

/// Calls `JsonValue::from` on a `String`.
///
/// Trusted: the result is the string with the same characters.
#[verifier::external_body]
pub(crate) fn json_text(text: String) -> (value: JsonValue)
    ensures
        json_model(value) == JsonModel::Text(text@),
{
    JsonValue::from(text)
}

/// Assigns through `JsonValue::index_mut` with a string key.
///
/// Trusted: in an object, a member with that key keeps its place and takes
/// the new value, otherwise the pair becomes the last member; a value of
/// another kind first becomes an object without members.
#[verifier::external_body]
pub(crate) fn json_set(target: &mut JsonValue, key: &str, member: JsonValue)
    ensures
        json_model(*final(target)) == JsonModel::Object(
            upsert(members_of(json_model(*old(target))), key@, json_model(member)),
        ),
{
    target[key] = member;
}

/// Calls `JsonValue::pretty`.
///
/// Trusted: of a value made of objects and strings alone, the result is the
/// named text [`pretty_text`] of what the value holds.
#[verifier::external_body]
pub(crate) fn json_pretty(value: &JsonValue, spaces: u16) -> (text: String)
    ensures
        plain(json_model(*value)) ==> text@ == pretty_text(json_model(*value), spaces),
{
    value.pretty(spaces)
}

} // verus!

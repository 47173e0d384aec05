//! JSON documents as the bot reads them: a mathematical model of a document
//! and the few `serde_json` operations the handlers rely on.

use vstd::prelude::*;

verus! {

/// A JSON document as a mathematical value.
///
/// Numbers are kept as the text `serde_json` writes for them; the bot never
/// computes with them.
pub enum JsonModel {
    Null,
    Bool(bool),
    Number(Seq<char>),
    Text(Seq<char>),
    Array(Seq<JsonModel>),
    Object(Map<Seq<char>, JsonModel>),
}

/// `serde_json::Value`, carried through unopened: what it holds is known
/// through [`json_model`] alone.
#[verifier::external_type_specification]
#[verifier::external_body]
pub struct ExValue(serde_json::Value);

/// `serde_json::Error`, carried through unopened.
#[verifier::external_type_specification]
#[verifier::external_body]
pub struct ExJsonError(serde_json::Error);

/// The document a `serde_json::Value` holds.
pub uninterp spec fn json_model(v: serde_json::Value) -> JsonModel;

/// The document `serde_json::from_str` reads from a text, or `None` where it
/// reports an error.
pub uninterp spec fn json_parsed(text: Seq<char>) -> Option<JsonModel>;

/// The compact text `serde_json` writes for a document.
pub uninterp spec fn json_rendered(doc: JsonModel) -> Seq<char>;

/// The member of an object under `key`; `Null` where `doc` is no object or has
/// no such member.
pub open spec fn member_of(doc: JsonModel, key: Seq<char>) -> JsonModel {
    match doc {
        JsonModel::Object(members) => if members.dom().contains(key) {
            members[key]
        } else {
            JsonModel::Null
        },
        _ => JsonModel::Null,
    }
}

/// The element of an array at `index`; `Null` where `doc` is no array or is
/// too short.
pub open spec fn element_of(doc: JsonModel, index: int) -> JsonModel {
    match doc {
        JsonModel::Array(items) => if 0 <= index < items.len() {
            items[index]
        } else {
            JsonModel::Null
        },
        _ => JsonModel::Null,
    }
}

/// The text of a JSON string; `None` for every other kind of document.
pub open spec fn text_of(doc: JsonModel) -> Option<Seq<char>> {
    match doc {
        JsonModel::Text(s) => Some(s),
        _ => None,
    }
}

/// Calls `serde_json::from_str` for a `Value`. Trusted: the outcome is the
/// one named by `json_parsed`, an error exactly where that is `None`.
#[verifier::external_body]
pub(crate) fn parse_json(text: &str) -> (r: Result<serde_json::Value, serde_json::Error>)
    ensures
        match r {
            Ok(v) => json_parsed(text@) == Some(json_model(v)),
            Err(_) => json_parsed(text@) is None,
        },
{
    serde_json::from_str::<serde_json::Value>(text)
}

/// Indexes a `Value` by a string key (`Index<&str>`). Trusted: an object
/// yields the member under the key, anything else and a missing key yield
/// null.
#[verifier::external_body]
pub(crate) fn json_member<'a>(v: &'a serde_json::Value, key: &str) -> (r: &'a serde_json::Value)
    ensures
        json_model(*r) == member_of(json_model(*v), key@),
{
    &v[key]
}

/// Indexes a `Value` by position (`Index<usize>`). Trusted: an array yields
/// the element at the position, anything else and a position past the end
/// yield null.
#[verifier::external_body]
pub(crate) fn json_element<'a>(v: &'a serde_json::Value, index: usize) -> (r: &'a serde_json::Value)
    ensures
        json_model(*r) == element_of(json_model(*v), index as int),
{
    &v[index]
}

/// Calls `Value::is_null`. Trusted: it tells the null document from every
/// other.
#[verifier::external_body]
pub(crate) fn json_is_null(v: &serde_json::Value) -> (r: bool)
    ensures
        r == (json_model(*v) is Null),
{
    v.is_null()
}

/// Calls `Value::as_str`. Trusted: a JSON string yields its text, every other
/// value yields `None`.
#[verifier::external_body]
pub(crate) fn json_text<'a>(v: &'a serde_json::Value) -> (r: Option<&'a str>)
    ensures
        match r {
            Some(s) => text_of(json_model(*v)) == Some(s@),
            None => text_of(json_model(*v)) is None,
        },
{
    v.as_str()
}

/// Formats a `Value` with its `Display` impl. Trusted: the text is the
/// compact rendering named by `json_rendered`.
#[verifier::external_body]
pub(crate) fn render_json(v: &serde_json::Value) -> (r: String)
    ensures
        r@ == json_rendered(json_model(*v)),
{
    v.to_string()
}

} // verus!

//! JSON documents as the Open Graph service sends them, read through
//! `serde_json`.

use vstd::prelude::*;

verus! {

#[verifier::external_type_specification]
#[verifier::external_body]
pub struct ExJsonValue(serde_json::Value);

/// What a JSON value holds, as far as reading it needs.
pub enum JsonModel {
    Null,
    Bool(bool),
    Number,
    Text(Seq<char>),
    List(Seq<JsonModel>),
    Object(Map<Seq<char>, JsonModel>),
}

/// What the JSON value `v` holds.
pub uninterp spec fn json_tree(v: serde_json::Value) -> JsonModel;

/// The value that the JSON text `text` denotes; `None` where it is no valid JSON.
pub uninterp spec fn json_parse(text: Seq<char>) -> Option<JsonModel>;

/// The member `key` of `j`; `None` where `j` is no object or has no such member.
pub open spec fn member(j: Option<JsonModel>, key: Seq<char>) -> Option<JsonModel> {
    match j {
        Some(JsonModel::Object(m)) => if m.contains_key(key) {
            Some(m[key])
        } else {
            None
        },
        _ => None,
    }
}

/// The text that `j` holds; `None` where `j` is no string.
pub open spec fn text_of(j: Option<JsonModel>) -> Option<Seq<char>> {
    match j {
        Some(JsonModel::Text(s)) => Some(s),
        _ => None,
    }
}

/// Relies on `serde_json::from_str` into a `Value`: the document that the text
/// denotes, or an error where it is no valid JSON.
#[verifier::external_body]
pub(crate) fn parse_json(text: &str) -> (r: Option<serde_json::Value>)
    ensures
        r is Some <==> json_parse(text@) is Some,
        r is Some ==> Some(json_tree(r->Some_0)) == json_parse(text@),
{
    serde_json::from_str::<serde_json::Value>(text).ok()
}

/// Relies on `serde_json::Value::get` with a string key: the member of an
/// object of that name, `None` for a value of another kind or a missing key.
#[verifier::external_body]
pub(crate) fn json_member(v: &serde_json::Value, key: &str) -> (r: Option<serde_json::Value>)
    ensures
        r is Some <==> member(Some(json_tree(*v)), key@) is Some,
        r is Some ==> member(Some(json_tree(*v)), key@) == Some(json_tree(r->Some_0)),
{
    v.get(key).cloned()
}

/// Relies on `serde_json::Value::as_str`: the text of a string value, `None`
/// for a value of another kind.
#[verifier::external_body]
pub(crate) fn json_text(v: &serde_json::Value) -> (r: Option<String>)
    ensures
        r is Some <==> text_of(Some(json_tree(*v))) is Some,
        r is Some ==> text_of(Some(json_tree(*v))) == Some(r->Some_0@),
{
    v.as_str().map(String::from)
}

} // verus!

//! What the client reads out of JSON, and how it is read.
use vstd::prelude::*;

verus! {

/// A JSON value.
pub enum Json {
    Null,
    Bool(bool),
    /// A number, as it is written.
    Number(Seq<char>),
    Text(Seq<char>),
    Array(Seq<Json>),
    Object(Map<Seq<char>, Json>),
}

/// The member `key` of an object. Nothing else has members.
pub open spec fn json_member(value: Json, key: Seq<char>) -> Option<Json> {
    match value {
        Json::Object(members) => if members.contains_key(key) {
            Some(members[key])
        } else {
            None
        },
        _ => None,
    }
}

/// The characters of a string. Nothing else is one.
pub open spec fn json_string(value: Json) -> Option<Seq<char>> {
    match value {
        Json::Text(text) => Some(text),
        _ => None,
    }
}

/// The member `key` of an object, where it is a string.
pub open spec fn json_string_member(value: Json, key: Seq<char>) -> Option<Seq<char>> {
    match json_member(value, key) {
        Some(found) => json_string(found),
        None => None,
    }
}

/// The member `key` of an object, as JSON text.
pub open spec fn json_text_member(value: Json, key: Seq<char>) -> Option<Seq<char>> {
    match json_member(value, key) {
        Some(found) => Some(json_text(found)),
        None => None,
    }
}

/// Whether no two entries have the same key.
pub open spec fn distinct_keys(entries: Seq<(String, serde_json::Value)>) -> bool {
    forall|i: int, j: int|
        0 <= i < j < entries.len() ==> #[trigger] entries[i].0@ != #[trigger] entries[j].0@
}

/// The members that entries with distinct keys make up.
pub open spec fn json_members(entries: Seq<(String, serde_json::Value)>) -> Map<Seq<char>, Json>
    decreases entries.len(),
{
    if entries.len() == 0 {
        Map::empty()
    } else {
        json_members(entries.drop_last()).insert(entries.last().0@, json_of(entries.last().1))
    }
}

/// The members have the keys of the entries and no other.
pub(crate) proof fn lemma_member_keys(entries: Seq<(String, serde_json::Value)>, key: Seq<char>)
    ensures
        json_members(entries).contains_key(key) <==> exists|i: int|
            0 <= i < entries.len() && #[trigger] entries[i].0@ == key,
    decreases entries.len(),
{
    if entries.len() > 0 {
        let earlier = entries.drop_last();
        lemma_member_keys(earlier, key);
        if json_members(earlier).contains_key(key) {
            let i = choose|i: int| 0 <= i < earlier.len() && #[trigger] earlier[i].0@ == key;
            assert(entries[i].0@ == key);
        }
        if exists|i: int| 0 <= i < entries.len() && #[trigger] entries[i].0@ == key {
            let i = choose|i: int| 0 <= i < entries.len() && #[trigger] entries[i].0@ == key;
            if i < earlier.len() {
                assert(earlier[i].0@ == key);
            }
        }
        assert(entries[entries.len() - 1].0@ == entries.last().0@);
    }
}

/// `serde_json::Value`: any JSON value.
#[verifier::external_type_specification]
#[verifier::external_body]
pub struct ExJsonValue(serde_json::Value);

/// What a `serde_json::Value` holds.
pub uninterp spec fn json_of(value: serde_json::Value) -> Json;

/// What `serde_json::from_str` reads `text` as, if it is JSON that is not nested too deeply.
pub uninterp spec fn parsed_json(text: Seq<char>) -> Option<Json>;

/// The compact text of a JSON value, as `serde_json::Value::to_string` writes it.
pub uninterp spec fn json_text(value: Json) -> Seq<char>;

/// Calls `serde_json::from_str::<Value>`: it either yields what the text is read as, or fails
/// because the text is not JSON or is nested too deeply (128 levels and more).
#[verifier::external_body]
pub(crate) fn from_str(text: &str) -> (result: Option<serde_json::Value>)
    ensures
        match result {
            Some(value) => parsed_json(text@) == Some(json_of(value)),
            None => parsed_json(text@) is None,
        },
{
    serde_json::from_str(text).ok()
}

/// Calls `serde_json::Value::get` with a string: the member of that name if the value is an
/// object that has one, and nothing otherwise.
#[verifier::external_body]
pub(crate) fn get<'a>(value: &'a serde_json::Value, key: &str) -> (result: Option<&'a serde_json::Value>)
    ensures
        match result {
            Some(found) => json_member(json_of(*value), key@) == Some(json_of(*found)),
            None => json_member(json_of(*value), key@) is None,
        },
{
    value.get(key)
}

/// `serde_json::Value::as_str`: the characters of a JSON string, and nothing for other values.
pub assume_specification[ serde_json::Value::as_str ](value: &serde_json::Value) -> (result: Option<
    &str,
>)
    ensures
        match result {
            Some(text) => json_string(json_of(*value)) == Some(text@),
            None => json_string(json_of(*value)) is None,
        },
;

/// `serde_json::Value` as `Clone`: the copy holds what the original holds.
pub assume_specification[ <serde_json::Value as Clone>::clone ](value: &serde_json::Value) -> (copy:
    serde_json::Value)
    ensures
        json_of(copy) == json_of(*value),
;

/// Calls `serde_json::Value::to_string`: the compact text of the value.
#[verifier::external_body]
pub(crate) fn to_text(value: &serde_json::Value) -> (text: String)
    ensures
        text@ == json_text(json_of(*value)),
{
    value.to_string()
}

/// Names `serde_json::Value::Null`: the value that JSON writes as null.
#[verifier::external_body]
pub(crate) fn null() -> (value: serde_json::Value)
    ensures
        json_of(value) == Json::Null,
{
    serde_json::Value::Null
}

/// Calls `serde_json::Value::from` on a string: the JSON string with these characters.
#[verifier::external_body]
pub(crate) fn string_value(text: String) -> (value: serde_json::Value)
    ensures
        json_of(value) == Json::Text(text@),
{
    serde_json::Value::from(text)
}

/// Calls `serde_json::Value::from` on a boolean: that JSON boolean.
#[verifier::external_body]
pub(crate) fn bool_value(flag: bool) -> (value: serde_json::Value)
    ensures
        json_of(value) == Json::Bool(flag),
{
    serde_json::Value::from(flag)
}

/// Calls `serde_json::Value::from_iter` on entries with distinct keys: the JSON object that they
/// make up.
#[verifier::external_body]
pub(crate) fn object_value(entries: Vec<(String, serde_json::Value)>) -> (value: serde_json::Value)
    requires
        distinct_keys(entries@),
    ensures
        json_of(value) == Json::Object(json_members(entries@)),
{
    serde_json::Value::from_iter(entries)
}

} // verus!

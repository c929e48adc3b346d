//! The boundary with `serde_json`: the two types the record passes through,
//! what they hold, and the calls made on them.
//!
//! Nothing in this module is proved. Each contract restates what the named
//! `serde_json` item does; everything else in the crate is verified against
//! these statements.

use vstd::prelude::*;

verus! {

/// The mathematical content of a JSON value.
///
/// Numbers are not told apart: no rule of this crate reads one.
pub enum Json {
    Null,
    Bool(bool),
    Number,
    Text(Seq<char>),
    Array(Seq<Json>),
    Object(Map<Seq<char>, Json>),
}

#[verifier::external_type_specification]
#[verifier::external_body]
pub struct ExValue(serde_json::Value);

#[verifier::external_type_specification]
#[verifier::external_body]
#[verifier::reject_recursive_types(K)]
#[verifier::reject_recursive_types(V)]
pub struct ExMap<K, V>(serde_json::Map<K, V>);

/// What a `serde_json::Value` holds.
pub uninterp spec fn json_of(value: serde_json::Value) -> Json;

/// The members that a `serde_json::Map` holds, each by what it holds.
pub uninterp spec fn members_of(map: serde_json::Map<String, serde_json::Value>) -> Map<
    Seq<char>,
    Json,
>;

/// `Value::as_object` hands out the map of an object and `None` for every
/// other kind of value.
pub assume_specification[ serde_json::Value::as_object ](value: &serde_json::Value) -> (found:
    Option<&serde_json::Map<String, serde_json::Value>>)
    ensures
        match json_of(*value) {
            Json::Object(members) => found matches Some(map) && members_of(*map) == members,
            _ => found is None,
        },
;

/// `Value::as_str` hands out the text of a string and `None` for every other
/// kind of value.
pub assume_specification[ serde_json::Value::as_str ](value: &serde_json::Value) -> (found:
    Option<&str>)
    ensures
        match json_of(*value) {
            Json::Text(text) => found matches Some(s) && s@ == text,
            _ => found is None,
        },
;

/// `Map::new` makes a map without members.
pub assume_specification[ serde_json::Map::<String, serde_json::Value>::new ]() -> (made:
    serde_json::Map<String, serde_json::Value>)
    ensures
        (members_of(made) == Map::<Seq<char>, Json>::empty()),
;

/// `Map::insert` puts the value under the key, replacing what was there, and
/// returns the value it replaced, if any.
pub assume_specification[ serde_json::Map::<String, serde_json::Value>::insert ](
    map: &mut serde_json::Map<String, serde_json::Value>,
    k: String,
    v: serde_json::Value,
) -> (replaced: Option<serde_json::Value>)
    ensures
        members_of(*final(map)) == members_of(*old(map)).insert(k@, json_of(v)),
        match replaced {
            Some(previous) => members_of(*old(map)).contains_key(k@) && json_of(previous)
                == members_of(*old(map))[k@],
            None => !members_of(*old(map)).contains_key(k@),
        },
;

/// `Map::get` with a string key: the member stored under that key, if any.
#[verifier::external_body]
pub(crate) fn member<'a>(
    map: &'a serde_json::Map<String, serde_json::Value>,
    key: &str,
) -> (found: Option<&'a serde_json::Value>)
    ensures
        match found {
            Some(value) => members_of(*map).contains_key(key@) && json_of(*value) == members_of(
                *map,
            )[key@],
            None => !members_of(*map).contains_key(key@),
        },
{
    map.get(key)
}

/// `Map::remove` with a string key: the member under that key leaves the map
/// and is returned; a map without it stays as it is.
#[verifier::external_body]
pub(crate) fn remove_member(
    map: &mut serde_json::Map<String, serde_json::Value>,
    key: &str,
) -> (removed: Option<serde_json::Value>)
    ensures
        members_of(*final(map)) == members_of(*old(map)).remove(key@),
        match removed {
            Some(previous) => members_of(*old(map)).contains_key(key@) && json_of(previous)
                == members_of(*old(map))[key@],
            None => !members_of(*old(map)).contains_key(key@),
        },
{
    map.remove(key)
}

/// The variant `Value::String`: a string value with the given text.
#[verifier::external_body]
pub(crate) fn text_value(text: String) -> (value: serde_json::Value)
    ensures
        json_of(value) == Json::Text(text@),
{
    serde_json::Value::String(text)
}

/// The variant `Value::Object`: an object value with the members of the map.
#[verifier::external_body]
pub(crate) fn object_value(map: serde_json::Map<String, serde_json::Value>) -> (value:
    serde_json::Value)
    ensures
        json_of(value) == Json::Object(members_of(map)),
{
    serde_json::Value::Object(map)
}

} // verus!

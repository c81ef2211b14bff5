//! JSON values of `serde_json`, built by calls and described by a model.

use serde_json::Value;
use vstd::prelude::*;

verus! {

/// What a JSON value without numbers is to the contracts.
pub enum Json {
    Null,
    Bool(bool),
    Text(Seq<char>),
    Array(Seq<Json>),
    Object(Map<Seq<char>, Json>),
}

/// `serde_json::Value`. The proofs see it through `json_of` alone.
#[verifier::external_type_specification]
#[verifier::external_body]
pub struct ExValue(Value);

/// `serde_json::Map`, the members of a JSON object. The proofs see it through
/// `members_of` alone.
#[verifier::external_type_specification]
#[verifier::external_body]
#[verifier::reject_recursive_types(K)]
#[verifier::reject_recursive_types(V)]
pub struct ExMap<K, V>(serde_json::Map<K, V>);

/// The JSON document that a value holds.
pub uninterp spec fn json_of(value: Value) -> Json;

/// The members that a JSON object map holds, by key.
pub uninterp spec fn members_of(map: serde_json::Map<String, Value>) -> Map<Seq<char>, Json>;

/// The members of an empty JSON object.
pub open spec fn no_members() -> Map<Seq<char>, Json> {
    Map::empty()
}

/// The JSON documents that a list of values holds.
pub open spec fn jsons_of(values: Seq<Value>) -> Seq<Json> {
    values.map_values(|v: Value| json_of(v))
}

/// Builds `Value::Bool`. Nothing is proved of it: the contract says that the
/// value holds the boolean.
#[verifier::external_body]
pub(crate) fn json_bool(b: bool) -> (r: Value)
    ensures
        json_of(r) == Json::Bool(b),
{
    Value::Bool(b)
}

/// Builds `Value::String`. Nothing is proved of it: the contract says that the
/// value holds the text.
#[verifier::external_body]
pub(crate) fn json_text(s: String) -> (r: Value)
    ensures
        json_of(r) == Json::Text(s@),
{
    Value::String(s)
}

/// Builds `Value::Array`. Nothing is proved of it: the contract says that the
/// value holds the items in their order.
#[verifier::external_body]
pub(crate) fn json_array(items: Vec<Value>) -> (r: Value)
    ensures
        json_of(r) == Json::Array(jsons_of(items@)),
{
    Value::Array(items)
}

/// Builds `Value::Object`. Nothing is proved of it: the contract says that the
/// value holds the members of the map.
#[verifier::external_body]
pub(crate) fn json_object(members: serde_json::Map<String, Value>) -> (r: Value)
    ensures
        json_of(r) == Json::Object(members_of(members)),
{
    Value::Object(members)
}

/// Calls `serde_json::Map::with_capacity`. Nothing is proved of it: the contract
/// says that the new map has no members.
#[verifier::external_body]
pub(crate) fn new_members(capacity: usize) -> (r: serde_json::Map<String, Value>)
    ensures
        members_of(r) == no_members(),
{
    serde_json::Map::with_capacity(capacity)
}

/// Calls `serde_json::Map::insert` and drops the value that it replaced, if
/// any. Nothing is proved of it: the contract says that the map then holds the
/// value under the key, and its other members as before.
#[verifier::external_body]
pub(crate) fn insert_member(
    members: &mut serde_json::Map<String, Value>,
    key: String,
    value: Value,
)
    ensures
        members_of(*final(members)) == members_of(*old(members)).insert(key@, json_of(value)),
{
    members.insert(key, value);
}

} // verus!

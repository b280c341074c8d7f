use vstd::prelude::*;
use crate::wire::WireValue;

verus! {

#[verifier::external_type_specification]
#[verifier::external_body]
pub struct ExValue(serde_json::Value);

#[verifier::external_type_specification]
#[verifier::external_body]
pub struct ExNumber(serde_json::Number);

#[verifier::external_type_specification]
#[verifier::external_body]
#[verifier::reject_recursive_types(K)]
#[verifier::reject_recursive_types(V)]
pub struct ExMap<K, V>(serde_json::Map<K, V>);

/// A JSON object under construction: string keys, JSON values.
pub type JsonMap = serde_json::Map<String, serde_json::Value>;

/// The wire value that a `serde_json::Value` denotes.
pub uninterp spec fn value_rep(v: serde_json::Value) -> WireValue;

/// The wire value that a `serde_json::Number` denotes.
pub uninterp spec fn num_rep(n: serde_json::Number) -> WireValue;

/// The entries that a `serde_json::Map` holds, each value by what it denotes.
pub uninterp spec fn obj_rep(m: JsonMap) -> Map<Seq<char>, WireValue>;

/// The entries of an object with nothing in it.
pub open spec fn empty_object() -> Map<Seq<char>, WireValue> {
    Map::empty()
}

/// What each element of a sequence of JSON values denotes, in order.
pub open spec fn reps_of(items: Seq<serde_json::Value>) -> Seq<WireValue> {
    items.map_values(|it: serde_json::Value| value_rep(it))
}

/// Relies on serde_json::Number's derived Clone, which copies the stored
/// number exactly.
pub assume_specification[ <serde_json::Number as Clone>::clone ](n: &serde_json::Number) -> (r:
    serde_json::Number)
    ensures
        r == *n,
;

/// Relies on serde_json::Map::new: the new map holds no entries.
#[verifier::external_body]
pub(crate) fn json_map_new() -> (m: JsonMap)
    ensures
        obj_rep(m) == empty_object(),
{
    serde_json::Map::new()
}

/// Relies on serde_json::Map::insert: afterwards the key maps to the given
/// value, replacing any earlier entry under the same key; no other entry
/// changes.
#[verifier::external_body]
pub(crate) fn json_map_insert(m: &mut JsonMap, k: String, v: serde_json::Value)
    ensures
        obj_rep(*old(m)).insert(k@, value_rep(v)) == obj_rep(*final(m)),
{
    m.insert(k, v);
}

/// Relies on serde_json::Value::Bool: the value holds exactly the given boolean.
#[verifier::external_body]
pub(crate) fn json_bool(b: bool) -> (r: serde_json::Value)
    ensures
        value_rep(r) == WireValue::Bool(b),
{
    serde_json::Value::Bool(b)
}

/// Relies on serde_json::Value::String: the value holds exactly the given text.
#[verifier::external_body]
pub(crate) fn json_string(s: String) -> (r: serde_json::Value)
    ensures
        value_rep(r) == WireValue::Str(s@),
{
    serde_json::Value::String(s)
}

/// Relies on serde_json::Number::from for i64 and serde_json::Value::Number:
/// the value is the given integer. serde_json stores a non-negative integer
/// the same way whichever of the two integer constructors made it, so equal
/// integers denote equal wire values here and in `json_u64`.
#[verifier::external_body]
pub(crate) fn json_i64(n: i64) -> (r: serde_json::Value)
    ensures
        value_rep(r) == WireValue::Num(n as int),
{
    serde_json::Value::Number(serde_json::Number::from(n))
}

/// Relies on serde_json::Number::from for u64 and serde_json::Value::Number:
/// the value is the given integer.
#[verifier::external_body]
pub(crate) fn json_u64(n: u64) -> (r: serde_json::Value)
    ensures
        value_rep(r) == WireValue::Num(n as int),
{
    serde_json::Value::Number(serde_json::Number::from(n))
}

/// Relies on serde_json::Value::Number and serde_json::Number's Clone, which
/// copies the stored number exactly: the value denotes whatever the given
/// number denotes.
#[verifier::external_body]
pub(crate) fn json_number(n: &serde_json::Number) -> (r: serde_json::Value)
    ensures
        value_rep(r) == num_rep(*n),
{
    serde_json::Value::Number(n.clone())
}

/// Relies on serde_json::Value::Array: the value holds exactly the given
/// elements, in order.
#[verifier::external_body]
pub(crate) fn json_array(items: Vec<serde_json::Value>) -> (r: serde_json::Value)
    ensures
        value_rep(r) == WireValue::Arr(reps_of(items@)),
{
    serde_json::Value::Array(items)
}

/// Relies on serde_json::Value::Object: the value holds exactly the given map.
#[verifier::external_body]
pub(crate) fn json_object(m: JsonMap) -> (r: serde_json::Value)
    ensures
        value_rep(r) == WireValue::Obj(obj_rep(m)),
{
    serde_json::Value::Object(m)
}

} // verus!

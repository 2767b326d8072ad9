//! The JSON documents that travel to and from the service, as the verified
//! code sees them: the `serde_json` containers stay what they are, and their
//! contents are read through a mathematical model.
use vstd::prelude::*;

verus! {

/// String-indexed map of JSON values: the sparse document of business fields.
pub type JsonMap = serde_json::Map<String, serde_json::Value>;

/// `serde_json::Map`, carried through verified code as an opaque value.
#[verifier::external_type_specification]
#[verifier::external_body]
#[verifier::reject_recursive_types(K)]
#[verifier::reject_recursive_types(V)]
pub struct ExJsonMap<K, V>(serde_json::Map<K, V>);

/// `serde_json::Value`, carried through verified code as an opaque value.
#[verifier::external_type_specification]
#[verifier::external_body]
pub struct ExJsonValue(serde_json::Value);

/// `serde_json::Number`, carried through verified code as an opaque value.
#[verifier::external_type_specification]
#[verifier::external_body]
pub struct ExJsonNumber(serde_json::Number);

/// Mathematical model of a JSON value.
pub ghost enum Json {
    /// `null`
    Null,
    /// `true` or `false`
    Bool(bool),
    /// A number without fraction or exponent.
    Int(int),
    /// Any other number; the model does not say which.
    Real,
    /// A string.
    Str(Seq<char>),
    /// An array.
    Arr(Seq<Json>),
    /// An object.
    Obj(Map<Seq<char>, Json>),
}

/// What a JSON object holds: its members by key.
pub uninterp spec fn members(m: serde_json::Map<String, serde_json::Value>) -> Map<Seq<char>, Json>;

/// What a JSON value holds.
pub uninterp spec fn json_of(v: serde_json::Value) -> Json;

/// The models of the elements of a vector of values.
pub open spec fn jsons_of(items: Seq<serde_json::Value>) -> Seq<Json> {
    items.map_values(|v: serde_json::Value| json_of(v))
}

/// The members of an object that has none.
pub open spec fn empty_object() -> Map<Seq<char>, Json> {
    Map::empty()
}

/// `Map::new` makes an object without members.
pub assume_specification[ serde_json::Map::<String, serde_json::Value>::new ]() -> (m: serde_json::Map<String, serde_json::Value>)
    ensures
        members(m) == empty_object(),
;

/// `Map::insert` binds the key to the value, replacing an earlier member of
/// that key, which it hands back.
pub assume_specification[ serde_json::Map::<String, serde_json::Value>::insert ](
    m: &mut serde_json::Map<String, serde_json::Value>,
    k: String,
    v: serde_json::Value,
) -> (r: Option<serde_json::Value>)
    ensures
        members(*final(m)) == members(*old(m)).insert(k@, json_of(v)),
        match r {
            Some(prev) => members(*old(m)).contains_key(k@) && json_of(prev) == members(
                *old(m),
            )[k@],
            None => !members(*old(m)).contains_key(k@),
        },
;

/// `Map::clone` makes an object with the same members.
pub assume_specification[ <serde_json::Map<String, serde_json::Value> as Clone>::clone ](m: &serde_json::Map<String, serde_json::Value>) -> (r: serde_json::Map<String, serde_json::Value>)
    ensures
        members(r) == members(*m),
;

/// `Value::clone` makes a value that holds the same.
pub assume_specification[ <serde_json::Value as Clone>::clone ](v: &serde_json::Value) -> (r: serde_json::Value)
    ensures
        json_of(r) == json_of(*v),
;

/// `Map::get` looks the key up: the member bound to it, if there is one.
#[verifier::external_body]
pub(crate) fn object_get<'a>(m: &'a serde_json::Map<String, serde_json::Value>, key: &str) -> (r: Option<&'a serde_json::Value>)
    ensures
        match r {
            Some(v) => members(*m).contains_key(key@) && json_of(*v) == members(*m)[key@],
            None => !members(*m).contains_key(key@),
        },
{
    m.get(key)
}

/// Whether the text `a` comes before the text `b` in the order of strings:
/// character by character, a beginning before what continues it.
pub open spec fn text_before(a: Seq<char>, b: Seq<char>) -> bool
    decreases a.len(),
{
    if b.len() == 0 {
        false
    } else if a.len() == 0 {
        true
    } else if a[0] != b[0] {
        a[0] < b[0]
    } else {
        text_before(a.drop_first(), b.drop_first())
    }
}

/// Whether `key` is the first key of an object: a key of it that none of its
/// keys comes before.
pub open spec fn is_first_key(m: Map<Seq<char>, Json>, key: Seq<char>) -> bool {
    m.contains_key(key) && forall|other: Seq<char>| #[trigger]
        m.contains_key(other) ==> !text_before(other, key)
}

/// `Map::values`, at its first step: the member under the first key, as the
/// object walks its members in the order of their keys; nothing for an
/// object without members.
#[verifier::external_body]
pub(crate) fn first_member<'a>(m: &'a serde_json::Map<String, serde_json::Value>) -> (r: Option<&'a serde_json::Value>)
    ensures
        match r {
            Some(v) => exists|key: Seq<char>| #[trigger]
                is_first_key(members(*m), key) && json_of(*v) == members(*m)[key],
            None => members(*m) == empty_object(),
        },
{
    m.values().next()
}

/// `Value::is_null` tells `null` from any other value.
pub assume_specification[ serde_json::Value::is_null ](v: &serde_json::Value) -> (r: bool)
    ensures
        r == (json_of(*v) is Null),
;

/// `Value::as_str` hands out the text of a string value and nothing for any other value.
pub assume_specification<'a>[ serde_json::Value::as_str ](v: &'a serde_json::Value) -> (r: Option<&'a str>)
    ensures
        match r {
            Some(s) => json_of(*v) == Json::Str(s@),
            None => !(json_of(*v) is Str),
        },
;

/// `Value::as_i64` hands out an integer number that fits in `i64` and nothing
/// for any other value.
pub assume_specification[ serde_json::Value::as_i64 ](v: &serde_json::Value) -> (r: Option<i64>)
    ensures
        r == (match json_of(*v) {
            Json::Int(i) => if i64::MIN <= i <= i64::MAX {
                Some(i as i64)
            } else {
                None
            },
            _ => None,
        }),
;

/// `Value::as_u64` hands out an integer number that fits in `u64` and nothing
/// for any other value.
pub assume_specification[ serde_json::Value::as_u64 ](v: &serde_json::Value) -> (r: Option<u64>)
    ensures
        r == (match json_of(*v) {
            Json::Int(i) => if 0 <= i <= u64::MAX {
                Some(i as u64)
            } else {
                None
            },
            _ => None,
        }),
;

/// `Value::as_array` hands out the elements of an array and nothing for any
/// other value.
pub assume_specification<'a>[ serde_json::Value::as_array ](v: &'a serde_json::Value) -> (r: Option<&'a Vec<serde_json::Value>>)
    ensures
        match r {
            Some(items) => json_of(*v) == Json::Arr(jsons_of(items@)),
            None => !(json_of(*v) is Arr),
        },
;

/// `Value::as_object` hands out the members of an object and nothing for any
/// other value.
pub assume_specification<'a>[ serde_json::Value::as_object ](v: &'a serde_json::Value) -> (r: Option<&'a serde_json::Map<String, serde_json::Value>>)
    ensures
        match r {
            Some(m) => json_of(*v) == Json::Obj(members(*m)),
            None => !(json_of(*v) is Obj),
        },
;

/// The variant `Value::String` holds the text it is given.
#[verifier::external_body]
pub(crate) fn string_value(s: String) -> (v: serde_json::Value)
    ensures
        json_of(v) == Json::Str(s@),
{
    serde_json::Value::String(s)
}

/// `Number::from` an `i64`, as a `Value::Number`, is that integer.
#[verifier::external_body]
pub(crate) fn int_value(n: i64) -> (v: serde_json::Value)
    ensures
        json_of(v) == Json::Int(n as int),
{
    serde_json::Value::Number(serde_json::Number::from(n))
}

/// `Number::from` a `u64`, as a `Value::Number`, is that integer.
#[verifier::external_body]
pub(crate) fn id_value(n: u64) -> (v: serde_json::Value)
    ensures
        json_of(v) == Json::Int(n as int),
{
    serde_json::Value::Number(serde_json::Number::from(n))
}

/// The variant `Value::Object` holds the members it is given.
#[verifier::external_body]
pub(crate) fn object_value(m: serde_json::Map<String, serde_json::Value>) -> (v: serde_json::Value)
    ensures
        json_of(v) == Json::Obj(members(m)),
{
    serde_json::Value::Object(m)
}

/// The variant `Value::Array` holds the elements it is given, in their order.
#[verifier::external_body]
pub(crate) fn array_value(items: Vec<serde_json::Value>) -> (v: serde_json::Value)
    ensures
        json_of(v) == Json::Arr(jsons_of(items@)),
{
    serde_json::Value::Array(items)
}

} // verus!

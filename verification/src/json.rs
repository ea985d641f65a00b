//! The mathematical model of JSON values, and the boundary to `serde_json`.
//!
//! Values of `serde_json::Value` and `serde_json::Map` are opaque to the
//! verifier. Everything the rest of the crate knows about them is stated in
//! this file, over the model [`Json`]. Each function below marked
//! `external_body` makes one call into `serde_json`, and each
//! `assume_specification` speaks of one of its functions: these contracts
//! are believed, not proved. They describe `serde_json` with its default
//! features, where an object is a sorted map and a number is an `i64`, a
//! `u64` or an `f64`.

use vstd::prelude::*;

verus! {

/// `serde_json::Value`, carried through verified code as an opaque value.
#[verifier::external_type_specification]
#[verifier::external_body]
pub struct ExValue(serde_json::Value);

/// `serde_json::Map`, the object type of `serde_json`.
#[verifier::external_type_specification]
#[verifier::external_body]
#[verifier::reject_recursive_types(K)]
#[verifier::reject_recursive_types(V)]
pub struct ExObject<K, V>(serde_json::Map<K, V>);

/// `serde_json::Error`, which the parser returns for text that is not JSON.
#[verifier::external_type_specification]
#[verifier::external_body]
pub struct ExSyntaxError(serde_json::Error);

/// A JSON object as `serde_json` holds it.
pub type JsonObject = serde_json::Map<String, serde_json::Value>;

/// A JSON value.
///
/// Numbers come in the two forms in which `serde_json` stores them: as a
/// 64-bit integer, signed or unsigned, or as a finite 64-bit float. A number
/// written with a fraction or an exponent, or too large for 64 bits, is a
/// float, so `1.0` and `1` are different values.
pub enum Json {
    Null,
    Bool(bool),
    /// A number stored as an integer.
    Integer(int),
    /// A number stored as a float, given by its IEEE 754 bit pattern.
    Float(u64),
    String(Seq<char>),
    Array(Seq<Json>),
    /// An object: its members by key. No key occurs twice.
    Object(Map<Seq<char>, Json>),
}

/// The members of an object that has none.
pub open spec fn no_members() -> Map<Seq<char>, Json> {
    Map::empty()
}

/// The JSON value that a `serde_json::Value` holds: `null`, a boolean, a
/// number, a string, the elements of an array in their order, or the members
/// of an object.
pub uninterp spec fn value_model(v: serde_json::Value) -> Json;

/// The members that a `serde_json::Map` holds: each key with the JSON value
/// stored under it.
pub uninterp spec fn object_model(m: serde_json::Map<String, serde_json::Value>) -> Map<
    Seq<char>,
    Json,
>;

/// What `serde_json::from_str` reads from a text: the value, or `None`
/// where the text is not exactly one JSON value.
pub uninterp spec fn parsed(text: Seq<char>) -> Option<Json>;

/// The compact text that `serde_json` writes for a value: no white space,
/// and the members of an object in the order of their keys.
pub uninterp spec fn rendered(j: Json) -> Seq<char>;

/// `Value::as_str`: the text of a JSON string, and `None` for every other
/// kind of value.
#[verifier::external_body]
pub(crate) fn value_as_str(v: &serde_json::Value) -> (r: Option<&str>)
    ensures
        match r {
            Some(s) => value_model(*v) == Json::String(s@),
            None => !(value_model(*v) is String),
        },
{
    v.as_str()
}

/// `Value::as_i64`: the number, where the value is a number stored as an
/// integer that fits in `i64`, and `None` for every other value.
#[verifier::external_body]
pub(crate) fn value_as_i64(v: &serde_json::Value) -> (r: Option<i64>)
    ensures
        match r {
            Some(i) => value_model(*v) == Json::Integer(i as int),
            None => !(value_model(*v) matches Json::Integer(n) && i64::MIN <= n <= i64::MAX),
        },
{
    v.as_i64()
}

/// `Value::as_bool`: the truth value of a JSON boolean, and `None` for every
/// other kind of value.
#[verifier::external_body]
pub(crate) fn value_as_bool(v: &serde_json::Value) -> (r: Option<bool>)
    ensures
        match r {
            Some(b) => value_model(*v) == Json::Bool(b),
            None => !(value_model(*v) is Bool),
        },
{
    v.as_bool()
}

/// `Value::as_object`: the map of a JSON object, and `None` for every other
/// kind of value.
#[verifier::external_body]
pub(crate) fn value_as_object(v: &serde_json::Value) -> (r: Option<
    &serde_json::Map<String, serde_json::Value>,
>)
    ensures
        match r {
            Some(m) => value_model(*v) == Json::Object(object_model(*m)),
            None => !(value_model(*v) is Object),
        },
{
    v.as_object()
}

/// `Value::from(String)`: the JSON string with that text.
#[verifier::external_body]
pub(crate) fn value_from_string(s: String) -> (v: serde_json::Value)
    ensures
        value_model(v) == Json::String(s@),
{
    serde_json::Value::from(s)
}

/// `Value::from(i64)`: the JSON number stored as that integer.
#[verifier::external_body]
pub(crate) fn value_from_i64(i: i64) -> (v: serde_json::Value)
    ensures
        value_model(v) == Json::Integer(i as int),
{
    serde_json::Value::from(i)
}

/// `Value::from(bool)`: the JSON boolean with that truth value.
#[verifier::external_body]
pub(crate) fn value_from_bool(b: bool) -> (v: serde_json::Value)
    ensures
        value_model(v) == Json::Bool(b),
{
    serde_json::Value::from(b)
}

/// `Value::from(Map)`: the JSON object with the members of the map.
#[verifier::external_body]
pub(crate) fn value_from_object(m: serde_json::Map<String, serde_json::Value>) -> (v:
    serde_json::Value)
    ensures
        value_model(v) == Json::Object(object_model(m)),
{
    serde_json::Value::from(m)
}

/// `Value::clone`: a copy that holds the same JSON value.
pub assume_specification[ <serde_json::Value as Clone>::clone ](v: &serde_json::Value) -> (c:
    serde_json::Value)
    ensures
        value_model(c) == value_model(*v),
;

/// `Map::new`: a map without members.
#[verifier::external_body]
pub(crate) fn object_new() -> (m: serde_json::Map<String, serde_json::Value>)
    ensures
        object_model(m) == no_members(),
{
    serde_json::Map::new()
}

/// `Map::clone`: a copy that holds the same members.
pub assume_specification[ <serde_json::Map<String, serde_json::Value> as Clone>::clone ](
    m: &serde_json::Map<String, serde_json::Value>,
) -> (c: serde_json::Map<String, serde_json::Value>)
    ensures
        object_model(c) == object_model(*m),
;

/// `Map::get`: the member stored under the key, and `None` where the map has
/// no such key.
#[verifier::external_body]
pub(crate) fn object_get<'a>(
    m: &'a serde_json::Map<String, serde_json::Value>,
    key: &str,
) -> (r: Option<&'a serde_json::Value>)
    ensures
        match r {
            Some(v) => object_model(*m).contains_key(key@) && object_model(*m)[key@]
                == value_model(*v),
            None => !object_model(*m).contains_key(key@),
        },
{
    m.get(key)
}

/// `Map::insert`: stores the value under the key, in place of the member
/// that the key had, and leaves every other member as it was. Returns the
/// member that was replaced, if there was one.
#[verifier::external_body]
pub(crate) fn object_insert(
    m: &mut serde_json::Map<String, serde_json::Value>,
    key: String,
    v: serde_json::Value,
) -> (r: Option<serde_json::Value>)
    ensures
        object_model(*final(m)) == object_model(*old(m)).insert(key@, value_model(v)),
        match r {
            Some(p) => object_model(*old(m)).contains_key(key@) && object_model(*old(m))[key@]
                == value_model(p),
            None => !object_model(*old(m)).contains_key(key@),
        },
{
    m.insert(key, v)
}

/// `Map::remove`: takes the member stored under the key out of the map and
/// returns it, and leaves every other member as it was. Where the map has no
/// such key it is unchanged and `None` is returned.
#[verifier::external_body]
pub(crate) fn object_remove(m: &mut serde_json::Map<String, serde_json::Value>, key: &str) -> (r:
    Option<serde_json::Value>)
    ensures
        object_model(*final(m)) == object_model(*old(m)).remove(key@),
        match r {
            Some(p) => object_model(*old(m)).contains_key(key@) && object_model(*old(m))[key@]
                == value_model(p),
            None => !object_model(*old(m)).contains_key(key@),
        },
{
    m.remove(key)
}

/// `serde_json::from_str`, reading a `Value`: the value that the text
/// denotes, or the parser's error where the text is not exactly one JSON
/// value. The result depends on the text alone.
#[verifier::external_body]
pub(crate) fn value_from_text(text: &str) -> (r: Result<serde_json::Value, serde_json::Error>)
    ensures
        match r {
            Ok(v) => parsed(text@) == Some(value_model(v)),
            Err(_) => parsed(text@) is None,
        },
{
    serde_json::from_str::<serde_json::Value>(text)
}

/// `Value::to_string`: the compact JSON text of the value. The result
/// depends on the value alone.
#[verifier::external_body]
pub(crate) fn value_to_text(v: &serde_json::Value) -> (s: String)
    ensures
        s@ == rendered(value_model(*v)),
{
    v.to_string()
}

} // verus!

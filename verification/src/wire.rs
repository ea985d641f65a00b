//! What the message types have in common: the trait [`Message`], which
//! writes a message to JSON and reads it back, the errors that a decoder
//! reports, and the readers that every message type is decoded with.
//!
//! Each reader exists twice: as a spec function on the model [`Json`], which
//! the contracts of the message types are written with, and as an executable
//! function on `serde_json` values that is proved to compute it.

use crate::json::{
    object_get, object_model, parsed, rendered, value_as_bool, value_as_i64, value_as_object,
    value_as_str, value_from_text, value_model, value_to_text, Json, JsonObject,
};
use vstd::prelude::*;

verus! {

/// The kind of JSON value that a decoder asked for.
#[derive(Clone, Copy, Debug, PartialEq, Eq, Structural)]
pub enum Expected {
    Object,
    String,
    Boolean,
    /// An integer that fits in 32 bits, signed.
    Int32,
    /// A string, or an integer that fits in 64 bits, signed.
    StringOrInteger,
}

/// The place in a message at which a decoder rejected it.
///
/// `Root` is the value handed to the decoder. The other places are named by
/// their keys; where one object is nested in another, by both.
#[derive(Clone, Copy, Debug, PartialEq, Eq, Structural)]
pub enum FieldPath {
    Root,
    Code,
    Message,
    Method,
    Params,
    Jsonrpc,
    Id,
    /// `error`, in a response.
    Error,
    /// `error.code`, in a response.
    ErrorCode,
    /// `error.message`, in a response.
    ErrorMessage,
    Name,
    Version,
    ListChanged,
    Experimental,
    Sampling,
    Roots,
    /// `roots.listChanged`, in the capabilities of a client.
    RootsListChanged,
    ProgressToken,
}

/// Why a value was not decoded.
#[derive(Clone, Copy, Debug, PartialEq, Eq, Structural)]
pub enum DecodeError {
    /// The text is not JSON.
    Malformed,
    /// The value at `path` is not of the kind that belongs there.
    TypeMismatch { expected: Expected, path: FieldPath },
    /// The object has no member at `path`, and needs one.
    MissingField { path: FieldPath },
    /// The member `jsonrpc` is not the string `"2.0"`.
    InvalidEnvelope,
    /// A response that carries both a result and an error, or neither.
    InvalidResponse,
}

impl FieldPath {
    /// The place of `self` as seen from outside the object stored at `outer`.
    /// The root of that object is `outer` itself. The places inside it have
    /// a name of their own for each nesting that a message type has, and
    /// keep their name otherwise.
    pub open spec fn spec_within(self, outer: FieldPath) -> FieldPath {
        match (outer, self) {
            (_, FieldPath::Root) => outer,
            (FieldPath::Error, FieldPath::Code) => FieldPath::ErrorCode,
            (FieldPath::Error, FieldPath::Message) => FieldPath::ErrorMessage,
            (FieldPath::Roots, FieldPath::ListChanged) => FieldPath::RootsListChanged,
            _ => self,
        }
    }

    /// The place of `self` as seen from outside the object stored at `outer`.
    #[verifier::when_used_as_spec(spec_within)]
    pub fn within(self, outer: FieldPath) -> (p: FieldPath)
        ensures
            p == self.spec_within(outer),
    {
        match (outer, self) {
            (_, FieldPath::Root) => outer,
            (FieldPath::Error, FieldPath::Code) => FieldPath::ErrorCode,
            (FieldPath::Error, FieldPath::Message) => FieldPath::ErrorMessage,
            (FieldPath::Roots, FieldPath::ListChanged) => FieldPath::RootsListChanged,
            _ => self,
        }
    }
}

impl DecodeError {
    /// The error to report for the enclosing object, where `self` was found
    /// in the member stored at `outer`.
    pub open spec fn spec_within(self, outer: FieldPath) -> DecodeError {
        match self {
            DecodeError::TypeMismatch { expected, path } => DecodeError::TypeMismatch {
                expected,
                path: path.spec_within(outer),
            },
            DecodeError::MissingField { path } => DecodeError::MissingField {
                path: path.spec_within(outer),
            },
            _ => self,
        }
    }

    /// The error to report for the enclosing object, where `self` was found
    /// in the member stored at `outer`.
    #[verifier::when_used_as_spec(spec_within)]
    pub fn within(self, outer: FieldPath) -> (e: DecodeError)
        ensures
            e == self.spec_within(outer),
    {
        match self {
            DecodeError::TypeMismatch { expected, path } => DecodeError::TypeMismatch {
                expected,
                path: path.within(outer),
            },
            DecodeError::MissingField { path } => DecodeError::MissingField {
                path: path.within(outer),
            },
            _ => self,
        }
    }
}

/// The outcome of a decoder, with the decoded value replaced by its view.
pub open spec fn decoded<T: View>(r: Result<T, DecodeError>) -> Result<T::V, DecodeError> {
    match r {
        Ok(x) => Ok(x@),
        Err(e) => Err(e),
    }
}

/// The members of an object that may be absent.
pub open spec fn optional_members(o: Option<JsonObject>) -> Option<Map<Seq<char>, Json>> {
    match o {
        Some(m) => Some(object_model(m)),
        None => None,
    }
}

/// The JSON value of a value that may be absent.
pub open spec fn optional_value(o: Option<serde_json::Value>) -> Option<Json> {
    match o {
        Some(v) => Some(value_model(v)),
        None => None,
    }
}

/// The member of an object under a key, if it has one.
pub open spec fn member(obj: Map<Seq<char>, Json>, key: Seq<char>) -> Option<Json> {
    if obj.contains_key(key) {
        Some(obj[key])
    } else {
        None
    }
}

/// The members of `j`, which has to be an object.
pub open spec fn expect_object(j: Json, path: FieldPath) -> Result<
    Map<Seq<char>, Json>,
    DecodeError,
> {
    match j {
        Json::Object(obj) => Ok(obj),
        _ => Err(DecodeError::TypeMismatch { expected: Expected::Object, path }),
    }
}

/// The text of `j`, which has to be a string.
pub open spec fn expect_string(j: Json, path: FieldPath) -> Result<Seq<char>, DecodeError> {
    match j {
        Json::String(s) => Ok(s),
        _ => Err(DecodeError::TypeMismatch { expected: Expected::String, path }),
    }
}

/// The truth value of `j`, which has to be a boolean.
pub open spec fn expect_bool(j: Json, path: FieldPath) -> Result<bool, DecodeError> {
    match j {
        Json::Bool(b) => Ok(b),
        _ => Err(DecodeError::TypeMismatch { expected: Expected::Boolean, path }),
    }
}

/// The number `j`, which has to be an integer of 32 bits.
pub open spec fn expect_int32(j: Json, path: FieldPath) -> Result<i32, DecodeError> {
    match j {
        Json::Integer(n) if i32::MIN <= n <= i32::MAX => Ok(n as i32),
        _ => Err(DecodeError::TypeMismatch { expected: Expected::Int32, path }),
    }
}

/// The member under `key`, which the object has to have.
pub open spec fn required(obj: Map<Seq<char>, Json>, key: Seq<char>, path: FieldPath) -> Result<
    Json,
    DecodeError,
> {
    match member(obj, key) {
        Some(j) => Ok(j),
        None => Err(DecodeError::MissingField { path }),
    }
}

/// The text of the member under `key`, which has to be there and be a string.
pub open spec fn required_string(
    obj: Map<Seq<char>, Json>,
    key: Seq<char>,
    path: FieldPath,
) -> Result<Seq<char>, DecodeError> {
    match member(obj, key) {
        Some(j) => expect_string(j, path),
        None => Err(DecodeError::MissingField { path }),
    }
}

/// The members of the member under `key`, which has to be an object where it
/// is there at all.
pub open spec fn optional_object(
    obj: Map<Seq<char>, Json>,
    key: Seq<char>,
    path: FieldPath,
) -> Result<Option<Map<Seq<char>, Json>>, DecodeError> {
    match member(obj, key) {
        Some(j) => match expect_object(j, path) {
            Ok(inner) => Ok(Some(inner)),
            Err(e) => Err(e),
        },
        None => Ok(None),
    }
}

/// The truth value of the member under `key`, which has to be a boolean
/// where it is there at all.
pub open spec fn optional_bool(
    obj: Map<Seq<char>, Json>,
    key: Seq<char>,
    path: FieldPath,
) -> Result<Option<bool>, DecodeError> {
    match member(obj, key) {
        Some(j) => match expect_bool(j, path) {
            Ok(b) => Ok(Some(b)),
            Err(e) => Err(e),
        },
        None => Ok(None),
    }
}

/// A message type: one that is written to JSON and read back from it.
///
/// `to_json` and `from_json` say on mathematical values what the two
/// directions compute. `encode` never fails. `decode` accepts exactly the
/// JSON values that denote a message of the type, and says of every other
/// why it does not.
pub trait Message: Sized + View {
    /// The wire form of a message.
    spec fn to_json(x: Self::V) -> Json;

    /// The message that a JSON value denotes, or what is wrong with it.
    spec fn from_json(j: Json) -> Result<Self::V, DecodeError>;

    /// Writes the message as a JSON value.
    fn encode(&self) -> (v: serde_json::Value)
        ensures
            value_model(v) == Self::to_json(self@),
    ;

    /// Reads a message from a JSON value.
    fn decode(v: &serde_json::Value) -> (r: Result<Self, DecodeError>)
        ensures
            decoded(r) == Self::from_json(value_model(*v)),
    ;
}

/// The message that a text denotes: what its JSON value denotes, where the
/// text is JSON at all.
pub open spec fn from_json_text<T: Message>(text: Seq<char>) -> Result<T::V, DecodeError> {
    match parsed(text) {
        Some(j) => T::from_json(j),
        None => Err(DecodeError::Malformed),
    }
}

/// Reads a message from JSON text. Text that is not exactly one JSON value
/// is malformed.
pub fn from_text<T: Message>(text: &str) -> (r: Result<T, DecodeError>)
    ensures
        decoded(r) == from_json_text::<T>(text@),
{
    match value_from_text(text) {
        Ok(v) => T::decode(&v),
        Err(_) => Err(DecodeError::Malformed),
    }
}

/// Writes a message as compact JSON text.
pub fn to_text<T: Message>(x: &T) -> (s: String)
    ensures
        s@ == rendered(T::to_json(x@)),
{
    let v = x.encode();
    value_to_text(&v)
}

/// Reads `v` as an object.
pub(crate) fn read_object(v: &serde_json::Value, path: FieldPath) -> (r: Result<
    &JsonObject,
    DecodeError,
>)
    ensures
        match r {
            Ok(m) => expect_object(value_model(*v), path) == Ok::<_, DecodeError>(object_model(*m)),
            Err(e) => expect_object(value_model(*v), path) == Err::<Map<Seq<char>, Json>, _>(e),
        },
{
    match value_as_object(v) {
        Some(m) => Ok(m),
        None => Err(DecodeError::TypeMismatch { expected: Expected::Object, path }),
    }
}

/// Reads `v` as a string.
pub(crate) fn read_string(v: &serde_json::Value, path: FieldPath) -> (r: Result<
    String,
    DecodeError,
>)
    ensures
        decoded(r) == expect_string(value_model(*v), path),
{
    match value_as_str(v) {
        Some(s) => Ok(s.to_owned()),
        None => Err(DecodeError::TypeMismatch { expected: Expected::String, path }),
    }
}

/// Reads `v` as a boolean.
pub(crate) fn read_bool(v: &serde_json::Value, path: FieldPath) -> (r: Result<bool, DecodeError>)
    ensures
        r == expect_bool(value_model(*v), path),
{
    match value_as_bool(v) {
        Some(b) => Ok(b),
        None => Err(DecodeError::TypeMismatch { expected: Expected::Boolean, path }),
    }
}

/// Reads `v` as an integer of 32 bits.
pub(crate) fn read_int32(v: &serde_json::Value, path: FieldPath) -> (r: Result<i32, DecodeError>)
    ensures
        r == expect_int32(value_model(*v), path),
{
    match value_as_i64(v) {
        Some(n) => {
            if -2147483648 <= n && n <= 2147483647 {
                Ok(n as i32)
            } else {
                Err(DecodeError::TypeMismatch { expected: Expected::Int32, path })
            }
        },
        None => Err(DecodeError::TypeMismatch { expected: Expected::Int32, path }),
    }
}

/// Reads the member under `key`, which the object has to have.
pub(crate) fn read_required<'a>(obj: &'a JsonObject, key: &str, path: FieldPath) -> (r: Result<
    &'a serde_json::Value,
    DecodeError,
>)
    ensures
        match r {
            Ok(v) => required(object_model(*obj), key@, path) == Ok::<_, DecodeError>(
                value_model(*v),
            ),
            Err(e) => required(object_model(*obj), key@, path) == Err::<Json, _>(e),
        },
{
    match object_get(obj, key) {
        Some(v) => Ok(v),
        None => Err(DecodeError::MissingField { path }),
    }
}

/// Reads the member under `key` as a string.
pub(crate) fn read_required_string(obj: &JsonObject, key: &str, path: FieldPath) -> (r: Result<
    String,
    DecodeError,
>)
    ensures
        decoded(r) == required_string(object_model(*obj), key@, path),
{
    match object_get(obj, key) {
        Some(v) => read_string(v, path),
        None => Err(DecodeError::MissingField { path }),
    }
}

/// Reads the member under `key` as an object, if there is such a member.
pub(crate) fn read_optional_object(obj: &JsonObject, key: &str, path: FieldPath) -> (r: Result<
    Option<JsonObject>,
    DecodeError,
>)
    ensures
        match r {
            Ok(o) => optional_object(object_model(*obj), key@, path) == Ok::<_, DecodeError>(
                optional_members(o),
            ),
            Err(e) => optional_object(object_model(*obj), key@, path) == Err::<
                Option<Map<Seq<char>, Json>>,
                _,
            >(e),
        },
{
    match object_get(obj, key) {
        Some(v) => {
            let inner = read_object(v, path)?;
            Ok(Some(inner.clone()))
        },
        None => Ok(None),
    }
}

/// Reads the member under `key` as a boolean, if there is such a member.
pub(crate) fn read_optional_bool(obj: &JsonObject, key: &str, path: FieldPath) -> (r: Result<
    Option<bool>,
    DecodeError,
>)
    ensures
        r == optional_bool(object_model(*obj), key@, path),
{
    match object_get(obj, key) {
        Some(v) => {
            let b = read_bool(v, path)?;
            Ok(Some(b))
        },
        None => Ok(None),
    }
}

} // verus!

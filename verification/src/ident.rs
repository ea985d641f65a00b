//! Identifiers: the keys and handles that messages carry.
//!
//! A request id and a progress token have the same shape, a string or a
//! 64-bit integer, and the same wire form, the bare string or number. They
//! are two types all the same, so that one is never passed for the other.

use crate::json::{value_as_i64, value_as_str, value_from_i64, value_from_string, Json};
use crate::wire::{expect_string, read_string, DecodeError, Expected, FieldPath, Message};
use vstd::prelude::*;

verus! {

/// Identifies a request, so that its response can be matched to it.
#[derive(Debug, Clone)]
pub enum RequestId {
    String(String),
    Integer(i64),
}

/// Associates progress notifications with the request they report on.
#[derive(Debug, Clone)]
pub enum ProgressToken {
    String(String),
    Integer(i64),
}

/// An opaque position in a paginated listing. Only the peer that issued a
/// cursor reads anything into its text.
#[derive(Debug, Clone)]
pub struct Cursor(String);

/// A request id as a mathematical value.
pub enum RequestIdView {
    String(Seq<char>),
    Integer(i64),
}

/// A progress token as a mathematical value.
pub enum ProgressTokenView {
    String(Seq<char>),
    Integer(i64),
}

impl View for RequestId {
    type V = RequestIdView;

    open spec fn view(&self) -> RequestIdView {
        match self {
            RequestId::String(s) => RequestIdView::String(s@),
            RequestId::Integer(i) => RequestIdView::Integer(*i),
        }
    }
}

impl View for ProgressToken {
    type V = ProgressTokenView;

    open spec fn view(&self) -> ProgressTokenView {
        match self {
            ProgressToken::String(s) => ProgressTokenView::String(s@),
            ProgressToken::Integer(i) => ProgressTokenView::Integer(*i),
        }
    }
}

impl View for Cursor {
    type V = Seq<char>;

    closed spec fn view(&self) -> Seq<char> {
        self.0@
    }
}

impl PartialEq for RequestId {
    /// Two ids are equal where they are the same string or the same integer.
    /// A string is never equal to an integer.
    fn eq(&self, other: &RequestId) -> (r: bool) {
        match (self, other) {
            (RequestId::String(a), RequestId::String(b)) => *a == *b,
            (RequestId::Integer(a), RequestId::Integer(b)) => *a == *b,
            _ => false,
        }
    }
}

impl vstd::std_specs::cmp::PartialEqSpecImpl for RequestId {
    open spec fn obeys_eq_spec() -> bool {
        true
    }

    open spec fn eq_spec(&self, other: &RequestId) -> bool {
        self@ == other@
    }
}

impl PartialEq for ProgressToken {
    /// Two tokens are equal where they are the same string or the same
    /// integer. A string is never equal to an integer.
    fn eq(&self, other: &ProgressToken) -> (r: bool) {
        match (self, other) {
            (ProgressToken::String(a), ProgressToken::String(b)) => *a == *b,
            (ProgressToken::Integer(a), ProgressToken::Integer(b)) => *a == *b,
            _ => false,
        }
    }
}

impl vstd::std_specs::cmp::PartialEqSpecImpl for ProgressToken {
    open spec fn obeys_eq_spec() -> bool {
        true
    }

    open spec fn eq_spec(&self, other: &ProgressToken) -> bool {
        self@ == other@
    }
}

impl PartialEq for Cursor {
    /// Two cursors are equal where they have the same text.
    fn eq(&self, other: &Cursor) -> (r: bool) {
        self.0 == other.0
    }
}

impl vstd::std_specs::cmp::PartialEqSpecImpl for Cursor {
    open spec fn obeys_eq_spec() -> bool {
        true
    }

    open spec fn eq_spec(&self, other: &Cursor) -> bool {
        self@ == other@
    }
}

/// What a decoder reports for a value that is neither a string nor an
/// integer of 64 bits.
pub open spec fn not_an_identifier() -> DecodeError {
    DecodeError::TypeMismatch { expected: Expected::StringOrInteger, path: FieldPath::Root }
}

impl Message for RequestId {
    /// The bare string, or the bare number.
    open spec fn to_json(x: RequestIdView) -> Json {
        match x {
            RequestIdView::String(s) => Json::String(s),
            RequestIdView::Integer(i) => Json::Integer(i as int),
        }
    }

    /// A string is tried first, then an integer of 64 bits. Nothing else is
    /// an id.
    open spec fn from_json(j: Json) -> Result<RequestIdView, DecodeError> {
        match j {
            Json::String(s) => Ok(RequestIdView::String(s)),
            Json::Integer(n) if i64::MIN <= n <= i64::MAX => Ok(RequestIdView::Integer(n as i64)),
            _ => Err(not_an_identifier()),
        }
    }

    fn encode(&self) -> (v: serde_json::Value) {
        match self {
            RequestId::String(s) => value_from_string(s.clone()),
            RequestId::Integer(i) => value_from_i64(*i),
        }
    }

    fn decode(v: &serde_json::Value) -> (r: Result<RequestId, DecodeError>) {
        if let Some(s) = value_as_str(v) {
            Ok(RequestId::String(s.to_owned()))
        } else if let Some(i) = value_as_i64(v) {
            Ok(RequestId::Integer(i))
        } else {
            Err(
                DecodeError::TypeMismatch {
                    expected: Expected::StringOrInteger,
                    path: FieldPath::Root,
                },
            )
        }
    }
}

impl Message for ProgressToken {
    /// The bare string, or the bare number.
    open spec fn to_json(x: ProgressTokenView) -> Json {
        match x {
            ProgressTokenView::String(s) => Json::String(s),
            ProgressTokenView::Integer(i) => Json::Integer(i as int),
        }
    }

    /// A string is tried first, then an integer of 64 bits. Nothing else is
    /// a token.
    open spec fn from_json(j: Json) -> Result<ProgressTokenView, DecodeError> {
        match j {
            Json::String(s) => Ok(ProgressTokenView::String(s)),
            Json::Integer(n) if i64::MIN <= n <= i64::MAX => Ok(
                ProgressTokenView::Integer(n as i64),
            ),
            _ => Err(not_an_identifier()),
        }
    }

    fn encode(&self) -> (v: serde_json::Value) {
        match self {
            ProgressToken::String(s) => value_from_string(s.clone()),
            ProgressToken::Integer(i) => value_from_i64(*i),
        }
    }

    fn decode(v: &serde_json::Value) -> (r: Result<ProgressToken, DecodeError>) {
        if let Some(s) = value_as_str(v) {
            Ok(ProgressToken::String(s.to_owned()))
        } else if let Some(i) = value_as_i64(v) {
            Ok(ProgressToken::Integer(i))
        } else {
            Err(
                DecodeError::TypeMismatch {
                    expected: Expected::StringOrInteger,
                    path: FieldPath::Root,
                },
            )
        }
    }
}

impl Cursor {
    /// A cursor with the given text.
    pub fn new(text: String) -> (c: Cursor)
        ensures
            c@ == text@,
    {
        Cursor(text)
    }

    /// The text of the cursor.
    pub fn as_str(&self) -> (s: &str)
        ensures
            s@ == self@,
    {
        self.0.as_str()
    }
}

impl Message for Cursor {
    /// The bare string.
    open spec fn to_json(x: Seq<char>) -> Json {
        Json::String(x)
    }

    /// Only a string is a cursor.
    open spec fn from_json(j: Json) -> Result<Seq<char>, DecodeError> {
        expect_string(j, FieldPath::Root)
    }

    fn encode(&self) -> (v: serde_json::Value) {
        value_from_string(self.0.clone())
    }

    fn decode(v: &serde_json::Value) -> (r: Result<Cursor, DecodeError>) {
        match read_string(v, FieldPath::Root) {
            Ok(s) => Ok(Cursor(s)),
            Err(e) => Err(e),
        }
    }
}

/// Decoding what was encoded gives the id back, be it a string or an
/// integer.
pub proof fn request_id_round_trip(id: RequestIdView)
    ensures
        RequestId::from_json(RequestId::to_json(id)) == Ok::<_, DecodeError>(id),
{
}

/// An id is encoded as the very value it was decoded from.
pub proof fn request_id_decode_is_exact(j: Json, id: RequestIdView)
    requires
        RequestId::from_json(j) == Ok::<_, DecodeError>(id),
    ensures
        RequestId::to_json(id) == j,
{
}

/// `null`, a boolean, an array and an object are no request id, and neither
/// is a number stored as a float: each is rejected as a type mismatch.
pub proof fn request_id_rejects_other_kinds(j: Json)
    requires
        j is Null || j is Bool || j is Array || j is Object || j is Float,
    ensures
        RequestId::from_json(j) == Err::<RequestIdView, _>(not_an_identifier()),
{
}

/// A JSON value is a request id exactly where it is a string or an integer
/// from the least to the greatest `i64`.
pub proof fn request_id_accepts(j: Json)
    ensures
        RequestId::from_json(j) is Ok <==> (j is String || (j matches Json::Integer(n) && i64::MIN
            <= n <= i64::MAX)),
        RequestId::from_json(j) is Err ==> RequestId::from_json(j) == Err::<RequestIdView, _>(
            not_an_identifier(),
        ),
{
}

/// Decoding what was encoded gives the token back, be it a string or an
/// integer.
pub proof fn progress_token_round_trip(token: ProgressTokenView)
    ensures
        ProgressToken::from_json(ProgressToken::to_json(token)) == Ok::<_, DecodeError>(token),
{
}

/// A token is encoded as the very value it was decoded from.
pub proof fn progress_token_decode_is_exact(j: Json, token: ProgressTokenView)
    requires
        ProgressToken::from_json(j) == Ok::<_, DecodeError>(token),
    ensures
        ProgressToken::to_json(token) == j,
{
}

/// `null`, a boolean, an array and an object are no progress token, and
/// neither is a number stored as a float: each is rejected as a type
/// mismatch.
pub proof fn progress_token_rejects_other_kinds(j: Json)
    requires
        j is Null || j is Bool || j is Array || j is Object || j is Float,
    ensures
        ProgressToken::from_json(j) == Err::<ProgressTokenView, _>(not_an_identifier()),
{
}

/// Decoding what was encoded gives the cursor back, and a cursor is encoded
/// as the very value it was decoded from.
pub proof fn cursor_round_trip(text: Seq<char>, j: Json)
    ensures
        Cursor::from_json(Cursor::to_json(text)) == Ok::<_, DecodeError>(text),
        Cursor::from_json(j) == Ok::<_, DecodeError>(text) ==> Cursor::to_json(text) == j,
{
}

} // verus!

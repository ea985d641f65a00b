//! The error model: the codes with a name, and the error value that a peer
//! reports.

use crate::json::{
    no_members, object_get, object_insert, object_new, value_from_i64, value_from_object,
    value_from_string, Json,
};
use crate::text::{decimal, push_decimal};
use crate::wire::{
    expect_int32, expect_object, member, optional_value, read_int32, read_object, read_required,
    read_required_string, required, required_string, DecodeError, FieldPath, Message,
};
use vstd::prelude::*;

verus! {

/// The error codes that have a name: two of this protocol, and the five that
/// JSON-RPC defines.
#[derive(Debug, Clone, Copy, PartialEq, Eq, Structural)]
pub enum ErrorCode {
    ConnectionClosed,
    RequestTimeout,
    ParseError,
    InvalidRequest,
    MethodNotFound,
    InvalidParams,
    InternalError,
}

impl ErrorCode {
    /// The number that stands for the code on the wire.
    pub open spec fn spec_code(self) -> i32 {
        match self {
            ErrorCode::ConnectionClosed => -1i32,
            ErrorCode::RequestTimeout => -2i32,
            ErrorCode::ParseError => -32700i32,
            ErrorCode::InvalidRequest => -32600i32,
            ErrorCode::MethodNotFound => -32601i32,
            ErrorCode::InvalidParams => -32602i32,
            ErrorCode::InternalError => -32603i32,
        }
    }

    /// The number that stands for the code on the wire.
    #[verifier::when_used_as_spec(spec_code)]
    pub fn code(self) -> (c: i32)
        ensures
            c == self.spec_code(),
    {
        match self {
            ErrorCode::ConnectionClosed => -1,
            ErrorCode::RequestTimeout => -2,
            ErrorCode::ParseError => -32700,
            ErrorCode::InvalidRequest => -32600,
            ErrorCode::MethodNotFound => -32601,
            ErrorCode::InvalidParams => -32602,
            ErrorCode::InternalError => -32603,
        }
    }

    /// The name of a number, where it has one. The set of names is closed:
    /// every other number is refused.
    pub fn from_code(code: i32) -> (r: Option<ErrorCode>)
        ensures
            match r {
                Some(c) => c.spec_code() == code,
                None => forall|c: ErrorCode| c.spec_code() != code,
            },
    {
        if code == -1 {
            Some(ErrorCode::ConnectionClosed)
        } else if code == -2 {
            Some(ErrorCode::RequestTimeout)
        } else if code == -32700 {
            Some(ErrorCode::ParseError)
        } else if code == -32600 {
            Some(ErrorCode::InvalidRequest)
        } else if code == -32601 {
            Some(ErrorCode::MethodNotFound)
        } else if code == -32602 {
            Some(ErrorCode::InvalidParams)
        } else if code == -32603 {
            Some(ErrorCode::InternalError)
        } else {
            None
        }
    }
}

/// No two names stand for the same number.
pub proof fn error_codes_are_distinct(a: ErrorCode, b: ErrorCode)
    requires
        a.spec_code() == b.spec_code(),
    ensures
        a == b,
{
}

/// An error that a peer reports. `data` is carried as it is and never read.
#[derive(Debug, Clone, PartialEq)]
pub struct McpError {
    pub code: i32,
    pub message: String,
    pub data: Option<serde_json::Value>,
}

/// An error as a mathematical value.
pub struct McpErrorView {
    pub code: i32,
    pub message: Seq<char>,
    pub data: Option<Json>,
}

impl View for McpError {
    type V = McpErrorView;

    open spec fn view(&self) -> McpErrorView {
        McpErrorView {
            code: self.code,
            message: self.message@,
            data: optional_value(self.data),
        }
    }
}

impl McpErrorView {
    /// The members of the wire form: `code` and `message` always, `data`
    /// only where there is one.
    pub open spec fn members(self) -> Map<Seq<char>, Json> {
        let fixed = no_members().insert("code"@, Json::Integer(self.code as int)).insert(
            "message"@,
            Json::String(self.message),
        );
        match self.data {
            Some(d) => fixed.insert("data"@, d),
            None => fixed,
        }
    }

    /// The text that shows the error to a reader.
    pub open spec fn display(self) -> Seq<char> {
        "MCP error "@ + decimal(self.code as int) + ": "@ + self.message
    }
}

impl McpError {
    /// An error with a named code and no data.
    pub fn new(code: ErrorCode, message: String) -> (e: McpError)
        ensures
            e@ == (McpErrorView { code: code.spec_code(), message: message@, data: None }),
    {
        McpError { code: code.code(), message, data: None }
    }

    /// The name of the error's code, where it has one.
    pub fn error_code(&self) -> (r: Option<ErrorCode>)
        ensures
            match r {
                Some(c) => c.spec_code() == self.code,
                None => forall|c: ErrorCode| c.spec_code() != self.code,
            },
    {
        ErrorCode::from_code(self.code)
    }

    /// The error in the form `MCP error <code>: <message>`.
    pub fn to_string(&self) -> (s: String)
        ensures
            s@ == self@.display(),
    {
        let mut s = String::from_str("MCP error ");
        push_decimal(&mut s, self.code);
        s.append(": ");
        s.append(self.message.as_str());
        s
    }
}

impl Message for McpError {
    /// An object with the members `code` and `message`, and with `data`
    /// where there is one.
    open spec fn to_json(x: McpErrorView) -> Json {
        Json::Object(x.members())
    }

    /// An object with an integer `code` of 32 bits and a string `message`,
    /// examined in this order. The member `data`, where the object has one,
    /// is taken as it is, `null` included. Other members are passed over.
    open spec fn from_json(j: Json) -> Result<McpErrorView, DecodeError> {
        match expect_object(j, FieldPath::Root) {
            Err(e) => Err(e),
            Ok(obj) => match required(obj, "code"@, FieldPath::Code) {
                Err(e) => Err(e),
                Ok(c) => match expect_int32(c, FieldPath::Code) {
                    Err(e) => Err(e),
                    Ok(code) => match required_string(obj, "message"@, FieldPath::Message) {
                        Err(e) => Err(e),
                        Ok(message) => Ok(
                            McpErrorView { code, message, data: member(obj, "data"@) },
                        ),
                    },
                },
            },
        }
    }

    fn encode(&self) -> (v: serde_json::Value) {
        let mut m = object_new();
        object_insert(&mut m, "code".to_owned(), value_from_i64(self.code as i64));
        object_insert(&mut m, "message".to_owned(), value_from_string(self.message.clone()));
        if let Some(d) = &self.data {
            object_insert(&mut m, "data".to_owned(), d.clone());
        }
        value_from_object(m)
    }

    fn decode(v: &serde_json::Value) -> (r: Result<McpError, DecodeError>) {
        let obj = read_object(v, FieldPath::Root)?;
        let code = read_int32(read_required(obj, "code", FieldPath::Code)?, FieldPath::Code)?;
        let message = read_required_string(obj, "message", FieldPath::Message)?;
        let data = match object_get(obj, "data") {
            Some(d) => Some(d.clone()),
            None => None,
        };
        Ok(McpError { code, message, data })
    }
}

/// The three keys of an error are different strings.
proof fn keys_differ()
    ensures
        "code"@ != "message"@,
        "code"@ != "data"@,
        "message"@ != "data"@,
{
    reveal_strlit("code");
    reveal_strlit("message");
    reveal_strlit("data");
    assert("code"@[0] == 'c' && "message"@[0] == 'm' && "data"@[0] == 'd');
}

/// Decoding what was encoded gives the error back: code, message and data.
pub proof fn error_round_trip(e: McpErrorView)
    ensures
        McpError::from_json(McpError::to_json(e)) == Ok::<_, DecodeError>(e),
{
    keys_differ();
}

/// The wire form has a `data` member exactly where the error has data, and
/// then it is that data.
pub proof fn error_data_is_omitted_when_absent(e: McpErrorView)
    ensures
        e.members().contains_key("data"@) <==> e.data is Some,
        e.data is Some ==> e.members()["data"@] == e.data->0,
{
    keys_differ();
}

/// An object decodes to an error without data exactly where it has no `data`
/// member. A member that is there is the data, whatever it is: `null` gives
/// an error whose data is `null`, not one without data.
pub proof fn error_data_is_absent_when_omitted(obj: Map<Seq<char>, Json>, e: McpErrorView)
    requires
        McpError::from_json(Json::Object(obj)) == Ok::<_, DecodeError>(e),
    ensures
        e.data is None <==> !obj.contains_key("data"@),
        obj.contains_key("data"@) ==> e.data == Some(obj["data"@]),
{
}

/// Code and message of a decoded error are those of the object, and encoding
/// the error gives back the object's members `code`, `message` and `data`
/// as they were, and no others.
pub proof fn error_decode_keeps_members(obj: Map<Seq<char>, Json>, e: McpErrorView)
    requires
        McpError::from_json(Json::Object(obj)) == Ok::<_, DecodeError>(e),
    ensures
        obj["code"@] == Json::Integer(e.code as int),
        obj["message"@] == Json::String(e.message),
        e.members() == obj.restrict(set!["code"@, "message"@, "data"@]),
{
}

/// An object is an error exactly where its `code` is an integer of 32 bits
/// and its `message` is a string.
pub proof fn error_accepts(obj: Map<Seq<char>, Json>)
    ensures
        McpError::from_json(Json::Object(obj)) is Ok <==> {
            &&& obj.contains_key("code"@)
            &&& obj["code"@] matches Json::Integer(n)
            &&& i32::MIN <= n <= i32::MAX
            &&& obj.contains_key("message"@)
            &&& obj["message"@] is String
        },
{
}

} // verus!

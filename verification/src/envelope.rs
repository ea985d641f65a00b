//! The JSON-RPC frames: the envelope that a request travels in, and the one
//! that carries its answer.

use crate::error::{McpError, McpErrorView};
use crate::ident::{RequestId, RequestIdView};
use crate::json::{
    no_members, object_get, object_insert, object_model, object_new, value_as_str,
    value_from_object, value_from_string, value_model, Json, JsonObject,
};
use crate::version::JSONRPC_VERSION;
use crate::wire::{
    decoded, expect_object, member, optional_value, read_object, read_required,
    read_required_string, required_string, DecodeError, FieldPath, Message,
};
use vstd::prelude::*;

verus! {

/// The JSON-RPC frame of a request. A frame is well formed where `jsonrpc`
/// is `"2.0"`: every frame that `new` makes or a decoder returns is.
#[derive(Debug, Clone, PartialEq)]
pub struct JsonRpcRequest {
    pub jsonrpc: String,
    pub id: RequestId,
    pub method: String,
    pub params: Option<serde_json::Value>,
}

/// What a response answers with: the result of the call, or the error that
/// kept it from having one. There is no third case and no mixture.
#[derive(Debug, Clone, PartialEq)]
pub enum ResponsePayload {
    Success(serde_json::Value),
    Error(McpError),
}

/// The JSON-RPC frame of a response. A frame is well formed where `jsonrpc`
/// is `"2.0"`: every frame that `success` or `failure` makes or a decoder
/// returns is.
#[derive(Debug, Clone, PartialEq)]
pub struct JsonRpcResponse {
    pub jsonrpc: String,
    pub id: RequestId,
    pub result: ResponsePayload,
}

/// A request frame as a mathematical value.
pub struct JsonRpcRequestView {
    pub jsonrpc: Seq<char>,
    pub id: RequestIdView,
    pub method: Seq<char>,
    pub params: Option<Json>,
}

/// The payload of a response as a mathematical value.
pub enum ResponsePayloadView {
    Success(Json),
    Error(McpErrorView),
}

/// A response frame as a mathematical value.
pub struct JsonRpcResponseView {
    pub jsonrpc: Seq<char>,
    pub id: RequestIdView,
    pub result: ResponsePayloadView,
}

impl View for JsonRpcRequest {
    type V = JsonRpcRequestView;

    open spec fn view(&self) -> JsonRpcRequestView {
        JsonRpcRequestView {
            jsonrpc: self.jsonrpc@,
            id: self.id@,
            method: self.method@,
            params: optional_value(self.params),
        }
    }
}

impl View for ResponsePayload {
    type V = ResponsePayloadView;

    open spec fn view(&self) -> ResponsePayloadView {
        match self {
            ResponsePayload::Success(v) => ResponsePayloadView::Success(value_model(*v)),
            ResponsePayload::Error(e) => ResponsePayloadView::Error(e@),
        }
    }
}

impl View for JsonRpcResponse {
    type V = JsonRpcResponseView;

    open spec fn view(&self) -> JsonRpcResponseView {
        JsonRpcResponseView { jsonrpc: self.jsonrpc@, id: self.id@, result: self.result@ }
    }
}

/// The version named by the member `jsonrpc`, which has to be there and has
/// to be the string `"2.0"`.
pub open spec fn version_of(obj: Map<Seq<char>, Json>) -> Result<Seq<char>, DecodeError> {
    match member(obj, "jsonrpc"@) {
        Some(j) => if j == Json::String(JSONRPC_VERSION@) {
            Ok(JSONRPC_VERSION@)
        } else {
            Err(DecodeError::InvalidEnvelope)
        },
        None => Err(DecodeError::MissingField { path: FieldPath::Jsonrpc }),
    }
}

/// The id under the key `id`, which has to be there.
pub open spec fn id_of(obj: Map<Seq<char>, Json>) -> Result<RequestIdView, DecodeError> {
    match member(obj, "id"@) {
        Some(j) => match RequestId::from_json(j) {
            Ok(id) => Ok(id),
            Err(e) => Err(e.spec_within(FieldPath::Id)),
        },
        None => Err(DecodeError::MissingField { path: FieldPath::Id }),
    }
}

/// The payload of a response: the member `result`, or the error under
/// `error`. Exactly one of the two has to be there.
pub open spec fn payload_of(obj: Map<Seq<char>, Json>) -> Result<ResponsePayloadView, DecodeError> {
    match (member(obj, "result"@), member(obj, "error"@)) {
        (Some(r), None) => Ok(ResponsePayloadView::Success(r)),
        (None, Some(e)) => match McpError::from_json(e) {
            Ok(err) => Ok(ResponsePayloadView::Error(err)),
            Err(bad) => Err(bad.spec_within(FieldPath::Error)),
        },
        _ => Err(DecodeError::InvalidResponse),
    }
}

impl JsonRpcRequestView {
    /// The frame names the one version of JSON-RPC there is.
    pub open spec fn wf(self) -> bool {
        self.jsonrpc == JSONRPC_VERSION@
    }

    /// The members of the wire form: `jsonrpc`, `id` and `method`, and
    /// `params` where there are parameters.
    pub open spec fn members(self) -> Map<Seq<char>, Json> {
        let fixed = no_members().insert("jsonrpc"@, Json::String(self.jsonrpc)).insert(
            "id"@,
            RequestId::to_json(self.id),
        ).insert("method"@, Json::String(self.method));
        match self.params {
            Some(p) => fixed.insert("params"@, p),
            None => fixed,
        }
    }
}

impl ResponsePayloadView {
    /// The key under which the payload travels.
    pub open spec fn key(self) -> Seq<char> {
        match self {
            ResponsePayloadView::Success(_) => "result"@,
            ResponsePayloadView::Error(_) => "error"@,
        }
    }

    /// The value that travels under that key.
    pub open spec fn value(self) -> Json {
        match self {
            ResponsePayloadView::Success(r) => r,
            ResponsePayloadView::Error(e) => McpError::to_json(e),
        }
    }
}

impl JsonRpcResponseView {
    /// The frame names the one version of JSON-RPC there is.
    pub open spec fn wf(self) -> bool {
        self.jsonrpc == JSONRPC_VERSION@
    }

    /// The members of the wire form: `jsonrpc` and `id`, and then either
    /// `result` or `error`, never both.
    pub open spec fn members(self) -> Map<Seq<char>, Json> {
        no_members().insert("jsonrpc"@, Json::String(self.jsonrpc)).insert(
            "id"@,
            RequestId::to_json(self.id),
        ).insert(self.result.key(), self.result.value())
    }
}

/// Reads the member `jsonrpc` and holds it to the one version there is.
fn read_version(obj: &JsonObject) -> (r: Result<String, DecodeError>)
    ensures
        decoded(r) == version_of(object_model(*obj)),
{
    let v = read_required(obj, "jsonrpc", FieldPath::Jsonrpc)?;
    match value_as_str(v) {
        Some(s) => {
            let named = s.to_owned();
            if named == JSONRPC_VERSION.to_owned() {
                Ok(named)
            } else {
                Err(DecodeError::InvalidEnvelope)
            }
        },
        None => Err(DecodeError::InvalidEnvelope),
    }
}

/// Reads the member `id`.
fn read_id(obj: &JsonObject) -> (r: Result<RequestId, DecodeError>)
    ensures
        decoded(r) == id_of(object_model(*obj)),
{
    let v = read_required(obj, "id", FieldPath::Id)?;
    match RequestId::decode(v) {
        Ok(id) => Ok(id),
        Err(e) => Err(e.within(FieldPath::Id)),
    }
}

/// Reads the payload of a response, from `result` or from `error`.
fn read_payload(obj: &JsonObject) -> (r: Result<ResponsePayload, DecodeError>)
    ensures
        decoded(r) == payload_of(object_model(*obj)),
{
    match (object_get(obj, "result"), object_get(obj, "error")) {
        (Some(r), None) => Ok(ResponsePayload::Success(r.clone())),
        (None, Some(e)) => match McpError::decode(e) {
            Ok(err) => Ok(ResponsePayload::Error(err)),
            Err(bad) => Err(bad.within(FieldPath::Error)),
        },
        _ => Err(DecodeError::InvalidResponse),
    }
}

impl JsonRpcRequest {
    /// A frame for the given request, under the one version there is.
    pub fn new(id: RequestId, method: String, params: Option<serde_json::Value>) -> (f:
        JsonRpcRequest)
        ensures
            f@ == (JsonRpcRequestView {
                jsonrpc: JSONRPC_VERSION@,
                id: id@,
                method: method@,
                params: optional_value(params),
            }),
            f@.wf(),
    {
        JsonRpcRequest { jsonrpc: JSONRPC_VERSION.to_owned(), id, method, params }
    }
}

impl Message for JsonRpcRequest {
    /// An object with the members `jsonrpc`, `id` and `method`, and with
    /// `params` where there are parameters.
    open spec fn to_json(x: JsonRpcRequestView) -> Json {
        Json::Object(x.members())
    }

    /// An object whose `jsonrpc` is `"2.0"`, with an `id` and a string
    /// `method`, examined in this order. The member `params`, where the
    /// object has one, is taken as it is, `null` included. Other members are
    /// passed over.
    open spec fn from_json(j: Json) -> Result<JsonRpcRequestView, DecodeError> {
        match expect_object(j, FieldPath::Root) {
            Err(e) => Err(e),
            Ok(obj) => match version_of(obj) {
                Err(e) => Err(e),
                Ok(jsonrpc) => match id_of(obj) {
                    Err(e) => Err(e),
                    Ok(id) => match required_string(obj, "method"@, FieldPath::Method) {
                        Err(e) => Err(e),
                        Ok(method) => Ok(
                            JsonRpcRequestView {
                                jsonrpc,
                                id,
                                method,
                                params: member(obj, "params"@),
                            },
                        ),
                    },
                },
            },
        }
    }

    fn encode(&self) -> (v: serde_json::Value) {
        let mut m = object_new();
        object_insert(&mut m, "jsonrpc".to_owned(), value_from_string(self.jsonrpc.clone()));
        object_insert(&mut m, "id".to_owned(), self.id.encode());
        object_insert(&mut m, "method".to_owned(), value_from_string(self.method.clone()));
        if let Some(p) = &self.params {
            object_insert(&mut m, "params".to_owned(), p.clone());
        }
        value_from_object(m)
    }

    fn decode(v: &serde_json::Value) -> (r: Result<JsonRpcRequest, DecodeError>) {
        let obj = read_object(v, FieldPath::Root)?;
        let jsonrpc = read_version(obj)?;
        let id = read_id(obj)?;
        let method = read_required_string(obj, "method", FieldPath::Method)?;
        let params = match object_get(obj, "params") {
            Some(p) => Some(p.clone()),
            None => None,
        };
        Ok(JsonRpcRequest { jsonrpc, id, method, params })
    }
}

impl JsonRpcResponse {
    /// A frame that answers the request `id` with a result.
    pub fn success(id: RequestId, result: serde_json::Value) -> (f: JsonRpcResponse)
        ensures
            f@ == (JsonRpcResponseView {
                jsonrpc: JSONRPC_VERSION@,
                id: id@,
                result: ResponsePayloadView::Success(value_model(result)),
            }),
            f@.wf(),
    {
        JsonRpcResponse {
            jsonrpc: JSONRPC_VERSION.to_owned(),
            id,
            result: ResponsePayload::Success(result),
        }
    }

    /// A frame that answers the request `id` with an error.
    pub fn failure(id: RequestId, error: McpError) -> (f: JsonRpcResponse)
        ensures
            f@ == (JsonRpcResponseView {
                jsonrpc: JSONRPC_VERSION@,
                id: id@,
                result: ResponsePayloadView::Error(error@),
            }),
            f@.wf(),
    {
        JsonRpcResponse {
            jsonrpc: JSONRPC_VERSION.to_owned(),
            id,
            result: ResponsePayload::Error(error),
        }
    }
}

impl Message for JsonRpcResponse {
    /// An object with the members `jsonrpc` and `id`, and with the result
    /// under `result` or the error under `error`.
    open spec fn to_json(x: JsonRpcResponseView) -> Json {
        Json::Object(x.members())
    }

    /// An object with either a `result` or an `error`, whose `jsonrpc` is
    /// `"2.0"`, with an `id`. An object with both a `result` and an `error`,
    /// or with neither, is an invalid response whatever else it holds. After
    /// that the members `jsonrpc`, `id` and `error` are examined in this
    /// order. Other members are passed over.
    open spec fn from_json(j: Json) -> Result<JsonRpcResponseView, DecodeError> {
        match expect_object(j, FieldPath::Root) {
            Err(e) => Err(e),
            Ok(obj) => if obj.contains_key("result"@) == obj.contains_key("error"@) {
                Err(DecodeError::InvalidResponse)
            } else {
                match version_of(obj) {
                    Err(e) => Err(e),
                    Ok(jsonrpc) => match id_of(obj) {
                        Err(e) => Err(e),
                        Ok(id) => match payload_of(obj) {
                            Err(e) => Err(e),
                            Ok(result) => Ok(JsonRpcResponseView { jsonrpc, id, result }),
                        },
                    },
                }
            },
        }
    }

    fn encode(&self) -> (v: serde_json::Value) {
        let mut m = object_new();
        object_insert(&mut m, "jsonrpc".to_owned(), value_from_string(self.jsonrpc.clone()));
        object_insert(&mut m, "id".to_owned(), self.id.encode());
        match &self.result {
            ResponsePayload::Success(r) => {
                object_insert(&mut m, "result".to_owned(), r.clone());
            },
            ResponsePayload::Error(e) => {
                object_insert(&mut m, "error".to_owned(), e.encode());
            },
        }
        value_from_object(m)
    }

    fn decode(v: &serde_json::Value) -> (r: Result<JsonRpcResponse, DecodeError>) {
        let obj = read_object(v, FieldPath::Root)?;
        if object_get(obj, "result").is_some() == object_get(obj, "error").is_some() {
            return Err(DecodeError::InvalidResponse);
        }
        let jsonrpc = read_version(obj)?;
        let id = read_id(obj)?;
        let result = read_payload(obj)?;
        Ok(JsonRpcResponse { jsonrpc, id, result })
    }
}

/// The keys of the frames are different strings.
proof fn keys_differ()
    ensures
        "method"@ != "params"@,
        "jsonrpc"@ != "id"@,
        "jsonrpc"@ != "method"@,
        "jsonrpc"@ != "params"@,
        "jsonrpc"@ != "result"@,
        "jsonrpc"@ != "error"@,
        "id"@ != "method"@,
        "id"@ != "params"@,
        "id"@ != "result"@,
        "id"@ != "error"@,
        "result"@ != "error"@,
{
    reveal_strlit("method");
    reveal_strlit("params");
    reveal_strlit("jsonrpc");
    reveal_strlit("id");
    reveal_strlit("result");
    reveal_strlit("error");
    assert("method"@[0] == 'm' && "params"@[0] == 'p' && "jsonrpc"@[0] == 'j');
    assert("id"@[0] == 'i' && "result"@[0] == 'r' && "error"@[0] == 'e');
}

/// Decoding what was encoded gives the request frame back.
pub proof fn jsonrpc_request_round_trip(x: JsonRpcRequestView)
    requires
        x.wf(),
    ensures
        JsonRpcRequest::from_json(JsonRpcRequest::to_json(x)) == Ok::<_, DecodeError>(x),
{
    keys_differ();
}

/// Encoding a decoded request frame gives back the object's members
/// `jsonrpc`, `id`, `method` and `params` as they were, with everything
/// inside the parameters, and no other members.
pub proof fn jsonrpc_request_decode_keeps_members(obj: Map<Seq<char>, Json>, x: JsonRpcRequestView)
    requires
        JsonRpcRequest::from_json(Json::Object(obj)) == Ok::<_, DecodeError>(x),
    ensures
        x.members() == obj.restrict(set!["jsonrpc"@, "id"@, "method"@, "params"@]),
{
}

/// An object is a request frame exactly where its `jsonrpc` is `"2.0"`, its
/// `id` is an id and its `method` is a string. The frame read from it names
/// that version.
pub proof fn jsonrpc_request_accepts(obj: Map<Seq<char>, Json>)
    ensures
        JsonRpcRequest::from_json(Json::Object(obj)) is Ok <==> {
            &&& obj.contains_key("jsonrpc"@)
            &&& obj["jsonrpc"@] == Json::String(JSONRPC_VERSION@)
            &&& obj.contains_key("id"@)
            &&& RequestId::from_json(obj["id"@]) is Ok
            &&& obj.contains_key("method"@)
            &&& obj["method"@] is String
        },
        JsonRpcRequest::from_json(Json::Object(obj)) matches Ok(x) ==> x.wf(),
{
}

/// A `jsonrpc` member that is anything but the string `"2.0"` makes sure
/// that the object is rejected: as a request frame it is an invalid
/// envelope whatever else it holds, and as a response frame it is one where
/// it has one of `result` and `error`.
pub proof fn jsonrpc_version_is_checked(obj: Map<Seq<char>, Json>)
    requires
        obj.contains_key("jsonrpc"@),
        obj["jsonrpc"@] != Json::String(JSONRPC_VERSION@),
    ensures
        JsonRpcRequest::from_json(Json::Object(obj)) == Err::<JsonRpcRequestView, _>(
            DecodeError::InvalidEnvelope,
        ),
        JsonRpcResponse::from_json(Json::Object(obj)) is Err,
        obj.contains_key("result"@) != obj.contains_key("error"@) ==> JsonRpcResponse::from_json(
            Json::Object(obj),
        ) == Err::<JsonRpcResponseView, _>(DecodeError::InvalidEnvelope),
{
}

/// A `params` member of a request frame is taken as it is: where it is
/// `null`, the frame has the parameters `null`, and where it is left out,
/// the frame has none. It is written exactly where the frame has parameters.
pub proof fn jsonrpc_request_params_absent_is_omitted(
    x: JsonRpcRequestView,
    obj: Map<Seq<char>, Json>,
)
    ensures
        x.members().contains_key("params"@) <==> x.params is Some,
        JsonRpcRequest::from_json(Json::Object(obj)) matches Ok(r) ==> r.params == member(
            obj,
            "params"@,
        ),
{
    keys_differ();
}

/// Decoding what was encoded gives the response frame back.
pub proof fn jsonrpc_response_round_trip(x: JsonRpcResponseView)
    requires
        x.wf(),
    ensures
        JsonRpcResponse::from_json(JsonRpcResponse::to_json(x)) == Ok::<_, DecodeError>(x),
{
    keys_differ();
    if let ResponsePayloadView::Error(e) = x.result {
        crate::error::error_round_trip(e);
    }
}

/// Encoding a decoded response frame gives back the object's members
/// `jsonrpc` and `id` as they were and no others but the payload: the
/// `result` as it was, with everything inside it, or the `error` with its
/// members `code`, `message` and `data` as they were.
pub proof fn jsonrpc_response_decode_keeps_members(
    obj: Map<Seq<char>, Json>,
    x: JsonRpcResponseView,
)
    requires
        JsonRpcResponse::from_json(Json::Object(obj)) == Ok::<_, DecodeError>(x),
    ensures
        x.result is Success ==> x.members() == obj.restrict(set!["jsonrpc"@, "id"@, "result"@]),
        x.result matches ResponsePayloadView::Error(e) ==> {
            &&& obj["error"@] matches Json::Object(inner)
            &&& x.members() == obj.restrict(set!["jsonrpc"@, "id"@]).insert(
                "error"@,
                Json::Object(inner.restrict(set!["code"@, "message"@, "data"@])),
            )
        },
{
    if let ResponsePayloadView::Error(e) = x.result {
        crate::error::error_decode_keeps_members(obj["error"@]->Object_0, e);
    }
}

/// The wire form of a response has either a `result` or an `error`, never
/// both and never neither.
pub proof fn jsonrpc_response_has_one_payload(x: JsonRpcResponseView)
    ensures
        x.members().contains_key("result"@) != x.members().contains_key("error"@),
        x.members().contains_key("result"@) <==> x.result is Success,
{
    keys_differ();
}

/// An object with both a `result` and an `error` is rejected as an invalid
/// response, and so is one with neither, whatever else it holds.
pub proof fn jsonrpc_response_rejects_two_payloads(obj: Map<Seq<char>, Json>)
    requires
        obj.contains_key("result"@) == obj.contains_key("error"@),
    ensures
        JsonRpcResponse::from_json(Json::Object(obj)) == Err::<JsonRpcResponseView, _>(
            DecodeError::InvalidResponse,
        ),
{
}

/// An object is a response frame exactly where it has one of `result` and
/// `error`, its `jsonrpc` is `"2.0"`, its `id` is an id and its `error`,
/// where it has one, is an error. The frame read from it names that version.
pub proof fn jsonrpc_response_accepts(obj: Map<Seq<char>, Json>)
    ensures
        JsonRpcResponse::from_json(Json::Object(obj)) is Ok <==> {
            &&& obj.contains_key("result"@) != obj.contains_key("error"@)
            &&& obj.contains_key("jsonrpc"@)
            &&& obj["jsonrpc"@] == Json::String(JSONRPC_VERSION@)
            &&& obj.contains_key("id"@)
            &&& RequestId::from_json(obj["id"@]) is Ok
            &&& obj.contains_key("error"@) ==> McpError::from_json(obj["error"@]) is Ok
        },
        JsonRpcResponse::from_json(Json::Object(obj)) matches Ok(x) ==> x.wf(),
{
}

} // verus!

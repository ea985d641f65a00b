//! Requests and notifications: the method to call and its parameters, and
//! what a request carries beside them.
//!
//! A request and a notification look the same. What tells them apart is the
//! frame they travel in: a request has an `id` there, a notification has
//! none.

use crate::ident::{ProgressToken, ProgressTokenView};
use crate::json::{
    no_members, object_get, object_insert, object_model, object_new, object_remove,
    value_from_object, value_from_string, value_model, Json, JsonObject,
};
use crate::wire::{
    expect_object, member, optional_members, optional_object, optional_value, read_object,
    read_optional_object, read_required_string, required_string, DecodeError, Expected,
    FieldPath, Message,
};
use vstd::prelude::*;

verus! {

/// What a request carries beside its own parameters: the token under which
/// progress is to be reported, and members that this crate gives no meaning.
#[derive(Debug, Clone, PartialEq)]
pub struct RequestMeta {
    progress_token: Option<ProgressToken>,
    extra: serde_json::Map<String, serde_json::Value>,
}

/// A request: the method to call, and its parameters.
#[derive(Debug, Clone, PartialEq)]
pub struct Request {
    pub method: String,
    pub params: Option<serde_json::Map<String, serde_json::Value>>,
}

/// A notification: a request to which no answer is expected.
#[derive(Debug, Clone, PartialEq)]
pub struct Notification {
    pub method: String,
    pub params: Option<serde_json::Map<String, serde_json::Value>>,
}

/// Request metadata as a mathematical value.
pub struct RequestMetaView {
    pub progress_token: Option<ProgressTokenView>,
    pub extra: Map<Seq<char>, Json>,
}

/// A request as a mathematical value.
pub struct RequestView {
    pub method: Seq<char>,
    pub params: Option<Map<Seq<char>, Json>>,
}

/// A notification as a mathematical value.
pub struct NotificationView {
    pub method: Seq<char>,
    pub params: Option<Map<Seq<char>, Json>>,
}

impl View for RequestMeta {
    type V = RequestMetaView;

    closed spec fn view(&self) -> RequestMetaView {
        RequestMetaView {
            progress_token: match self.progress_token {
                Some(t) => Some(t@),
                None => None,
            },
            extra: object_model(self.extra),
        }
    }
}

impl View for Request {
    type V = RequestView;

    open spec fn view(&self) -> RequestView {
        RequestView { method: self.method@, params: optional_members(self.params) }
    }
}

impl View for Notification {
    type V = NotificationView;

    open spec fn view(&self) -> NotificationView {
        NotificationView { method: self.method@, params: optional_members(self.params) }
    }
}

/// The members `method` and `params` that a request and a notification are
/// written with: `params` only where there are parameters.
pub open spec fn call_members(method: Seq<char>, params: Option<Map<Seq<char>, Json>>) -> Map<
    Seq<char>,
    Json,
> {
    let fixed = no_members().insert("method"@, Json::String(method));
    match params {
        Some(p) => fixed.insert("params"@, Json::Object(p)),
        None => fixed,
    }
}

/// The token under the key `progressToken`, where the object has that
/// member.
pub open spec fn token_of(obj: Map<Seq<char>, Json>) -> Result<
    Option<ProgressTokenView>,
    DecodeError,
> {
    match member(obj, "progressToken"@) {
        Some(j) => match ProgressToken::from_json(j) {
            Ok(t) => Ok(Some(t)),
            Err(e) => Err(e.spec_within(FieldPath::ProgressToken)),
        },
        None => Ok(None),
    }
}

impl RequestMetaView {
    /// No extra member hides behind the key of the named one.
    pub open spec fn wf(self) -> bool {
        !self.extra.contains_key("progressToken"@)
    }

    /// The members of the wire form: the extra ones, and `progressToken`
    /// where there is a token.
    pub open spec fn members(self) -> Map<Seq<char>, Json> {
        match self.progress_token {
            Some(t) => self.extra.insert("progressToken"@, ProgressToken::to_json(t)),
            None => self.extra,
        }
    }
}

/// Reads the member `progressToken`, if there is one.
fn read_token(obj: &JsonObject) -> (r: Result<Option<ProgressToken>, DecodeError>)
    ensures
        match r {
            Ok(Some(t)) => token_of(object_model(*obj)) == Ok::<_, DecodeError>(Some(t@)),
            Ok(None) => token_of(object_model(*obj)) == Ok::<Option<ProgressTokenView>, DecodeError>(
                None,
            ),
            Err(e) => token_of(object_model(*obj)) == Err::<Option<ProgressTokenView>, _>(e),
        },
{
    match object_get(obj, "progressToken") {
        Some(j) => match ProgressToken::decode(j) {
            Ok(t) => Ok(Some(t)),
            Err(e) => Err(e.within(FieldPath::ProgressToken)),
        },
        None => Ok(None),
    }
}

/// Writes the members `method` and `params`.
fn write_call(method: &String, params: &Option<JsonObject>) -> (v: serde_json::Value)
    ensures
        value_model(v) == Json::Object(call_members(method@, optional_members(*params))),
{
    let mut m = object_new();
    object_insert(&mut m, "method".to_owned(), value_from_string(method.clone()));
    if let Some(p) = params {
        object_insert(&mut m, "params".to_owned(), value_from_object(p.clone()));
    }
    value_from_object(m)
}

impl RequestMeta {
    /// Metadata with the given token and extra members.
    pub fn new(
        progress_token: Option<ProgressToken>,
        extra: serde_json::Map<String, serde_json::Value>,
    ) -> (m: RequestMeta)
        ensures
            m@.progress_token == match progress_token {
                Some(t) => Some(t@),
                None => None,
            },
            m@.extra == object_model(extra),
    {
        RequestMeta { progress_token, extra }
    }

    /// The token under which progress is to be reported, if any.
    pub fn progress_token(&self) -> (t: Option<&ProgressToken>)
        ensures
            self@.progress_token == match t {
                Some(t) => Some(t@),
                None => None,
            },
    {
        self.progress_token.as_ref()
    }

    /// The members that this crate gives no meaning.
    pub fn extra(&self) -> (m: &serde_json::Map<String, serde_json::Value>)
        ensures
            object_model(*m) == self@.extra,
    {
        &self.extra
    }
}

impl Message for RequestMeta {
    /// An object with the extra members, and with `progressToken` where
    /// there is a token.
    open spec fn to_json(x: RequestMetaView) -> Json {
        Json::Object(x.members())
    }

    /// An object whose member `progressToken`, where it has one, is a token.
    /// All its other members are the extra ones.
    open spec fn from_json(j: Json) -> Result<RequestMetaView, DecodeError> {
        match expect_object(j, FieldPath::Root) {
            Err(e) => Err(e),
            Ok(obj) => match token_of(obj) {
                Err(e) => Err(e),
                Ok(progress_token) => Ok(
                    RequestMetaView { progress_token, extra: obj.remove("progressToken"@) },
                ),
            },
        }
    }

    fn encode(&self) -> (v: serde_json::Value) {
        let mut m = self.extra.clone();
        if let Some(t) = &self.progress_token {
            object_insert(&mut m, "progressToken".to_owned(), t.encode());
        }
        value_from_object(m)
    }

    fn decode(v: &serde_json::Value) -> (r: Result<RequestMeta, DecodeError>) {
        let obj = read_object(v, FieldPath::Root)?;
        let progress_token = read_token(obj)?;
        let mut extra = obj.clone();
        object_remove(&mut extra, "progressToken");
        Ok(RequestMeta { progress_token, extra })
    }
}

impl Message for Request {
    /// An object with the member `method`, and with `params` where there
    /// are parameters.
    open spec fn to_json(x: RequestView) -> Json {
        Json::Object(call_members(x.method, x.params))
    }

    /// An object with a string `method`, whose member `params`, where it has
    /// one, is an object, examined in this order. Other members are passed
    /// over.
    open spec fn from_json(j: Json) -> Result<RequestView, DecodeError> {
        match expect_object(j, FieldPath::Root) {
            Err(e) => Err(e),
            Ok(obj) => match required_string(obj, "method"@, FieldPath::Method) {
                Err(e) => Err(e),
                Ok(method) => match optional_object(obj, "params"@, FieldPath::Params) {
                    Err(e) => Err(e),
                    Ok(params) => Ok(RequestView { method, params }),
                },
            },
        }
    }

    fn encode(&self) -> (v: serde_json::Value) {
        write_call(&self.method, &self.params)
    }

    fn decode(v: &serde_json::Value) -> (r: Result<Request, DecodeError>) {
        let obj = read_object(v, FieldPath::Root)?;
        let method = read_required_string(obj, "method", FieldPath::Method)?;
        let params = read_optional_object(obj, "params", FieldPath::Params)?;
        Ok(Request { method, params })
    }
}

impl Message for Notification {
    /// An object with the member `method`, and with `params` where there
    /// are parameters.
    open spec fn to_json(x: NotificationView) -> Json {
        Json::Object(call_members(x.method, x.params))
    }

    /// An object with a string `method`, whose member `params`, where it has
    /// one, is an object, examined in this order. Other members are passed
    /// over.
    open spec fn from_json(j: Json) -> Result<NotificationView, DecodeError> {
        match expect_object(j, FieldPath::Root) {
            Err(e) => Err(e),
            Ok(obj) => match required_string(obj, "method"@, FieldPath::Method) {
                Err(e) => Err(e),
                Ok(method) => match optional_object(obj, "params"@, FieldPath::Params) {
                    Err(e) => Err(e),
                    Ok(params) => Ok(NotificationView { method, params }),
                },
            },
        }
    }

    fn encode(&self) -> (v: serde_json::Value) {
        write_call(&self.method, &self.params)
    }

    fn decode(v: &serde_json::Value) -> (r: Result<Notification, DecodeError>) {
        let obj = read_object(v, FieldPath::Root)?;
        let method = read_required_string(obj, "method", FieldPath::Method)?;
        let params = read_optional_object(obj, "params", FieldPath::Params)?;
        Ok(Notification { method, params })
    }
}

impl crate::Request for Request {
    /// The method to call.
    fn method(&self) -> (m: &str)
        ensures
            m@ == self@.method,
    {
        self.method.as_str()
    }

    /// The parameters, as the JSON object that is sent.
    fn params(&self) -> (p: Option<serde_json::Value>)
        ensures
            optional_value(p) == match self@.params {
                Some(o) => Some(Json::Object(o)),
                None => None,
            },
    {
        match &self.params {
            Some(o) => Some(value_from_object(o.clone())),
            None => None,
        }
    }
}

impl crate::Notification for Notification {
    /// The method that is notified.
    fn method(&self) -> (m: &str)
        ensures
            m@ == self@.method,
    {
        self.method.as_str()
    }

    /// The parameters, as the JSON object that is sent.
    fn params(&self) -> (p: Option<serde_json::Value>)
        ensures
            optional_value(p) == match self@.params {
                Some(o) => Some(Json::Object(o)),
                None => None,
            },
    {
        match &self.params {
            Some(o) => Some(value_from_object(o.clone())),
            None => None,
        }
    }
}

/// The two keys of a request are different strings.
proof fn keys_differ()
    ensures
        "method"@ != "params"@,
{
    reveal_strlit("method");
    reveal_strlit("params");
    assert("method"@[0] == 'm' && "params"@[0] == 'p');
}

/// An object is request metadata exactly where its `progressToken`, if it
/// has one, is a token.
pub proof fn request_meta_accepts(obj: Map<Seq<char>, Json>)
    ensures
        RequestMeta::from_json(Json::Object(obj)) is Ok <==> (obj.contains_key("progressToken"@)
            ==> ProgressToken::from_json(obj["progressToken"@]) is Ok),
{
}

/// Decoding what was encoded gives the metadata back, extra members
/// included.
pub proof fn request_meta_round_trip(x: RequestMetaView)
    requires
        x.wf(),
    ensures
        RequestMeta::from_json(RequestMeta::to_json(x)) == Ok::<_, DecodeError>(x),
{
    assert(x.members().remove("progressToken"@) =~= x.extra);
}

/// Metadata is encoded as the very object it was decoded from. What a
/// decoder returns is well formed.
pub proof fn request_meta_decode_is_exact(j: Json, x: RequestMetaView)
    requires
        RequestMeta::from_json(j) == Ok::<_, DecodeError>(x),
    ensures
        x.wf(),
        RequestMeta::to_json(x) == j,
{
    assert(x.members() =~= j->Object_0);
}

/// A member other than `progressToken` goes into the extra ones as it is,
/// and is written back as it is.
pub proof fn request_meta_keeps_unknown_members(
    obj: Map<Seq<char>, Json>,
    x: RequestMetaView,
    key: Seq<char>,
)
    requires
        RequestMeta::from_json(Json::Object(obj)) == Ok::<_, DecodeError>(x),
        obj.contains_key(key),
        key != "progressToken"@,
    ensures
        x.extra.contains_key(key),
        x.extra[key] == obj[key],
        x.members().contains_key(key),
        x.members()[key] == obj[key],
{
}

/// The wire form of well-formed metadata has a `progressToken` member
/// exactly where the metadata has a token, and an object decodes to
/// metadata with a token exactly where the object has that member.
pub proof fn request_meta_token_absent_is_omitted(x: RequestMetaView, obj: Map<Seq<char>, Json>)
    ensures
        x.wf() ==> (x.members().contains_key("progressToken"@) <==> x.progress_token is Some),
        RequestMeta::from_json(Json::Object(obj)) matches Ok(r) ==> (r.progress_token is Some
            <==> obj.contains_key("progressToken"@)),
{
}

/// An object is a request exactly where its `method` is a string and its
/// `params`, if it has any, is an object, and it is a notification exactly
/// where it is a request.
pub proof fn call_accepts(obj: Map<Seq<char>, Json>)
    ensures
        Request::from_json(Json::Object(obj)) is Ok <==> {
            &&& obj.contains_key("method"@)
            &&& obj["method"@] is String
            &&& obj.contains_key("params"@) ==> obj["params"@] is Object
        },
        Notification::from_json(Json::Object(obj)) is Ok <==> Request::from_json(
            Json::Object(obj),
        ) is Ok,
{
}

/// Decoding what was encoded gives the request back, and the notification.
pub proof fn call_round_trip(method: Seq<char>, params: Option<Map<Seq<char>, Json>>)
    ensures
        Request::from_json(Request::to_json(RequestView { method, params })) == Ok::<
            _,
            DecodeError,
        >(RequestView { method, params }),
        Notification::from_json(Notification::to_json(NotificationView { method, params }))
            == Ok::<_, DecodeError>(NotificationView { method, params }),
{
    keys_differ();
}

/// Encoding a decoded request gives back the object's members `method` and
/// `params` as they were, with everything inside the parameters, and no
/// other members. The same holds of a notification.
pub proof fn call_decode_keeps_members(obj: Map<Seq<char>, Json>)
    ensures
        Request::from_json(Json::Object(obj)) matches Ok(r) ==> call_members(r.method, r.params)
            == obj.restrict(set!["method"@, "params"@]),
        Notification::from_json(Json::Object(obj)) matches Ok(n) ==> call_members(
            n.method,
            n.params,
        ) == obj.restrict(set!["method"@, "params"@]),
{
}

/// The wire form of a request has a `params` member exactly where the
/// request has parameters, and an object decodes to a request without
/// parameters exactly where it has no such member. A `params` that is
/// `null` is no object, and is rejected. The same holds of a notification.
pub proof fn call_params_absent_is_omitted(
    method: Seq<char>,
    params: Option<Map<Seq<char>, Json>>,
    obj: Map<Seq<char>, Json>,
)
    ensures
        call_members(method, params).contains_key("params"@) <==> params is Some,
        Request::from_json(Json::Object(obj)) matches Ok(r) ==> (r.params is None
            <==> !obj.contains_key("params"@)),
        Notification::from_json(Json::Object(obj)) matches Ok(n) ==> (n.params is None
            <==> !obj.contains_key("params"@)),
        obj.contains_key("method"@) && obj["method"@] is String && obj.contains_key("params"@)
            && obj["params"@] is Null ==> {
            &&& Request::from_json(Json::Object(obj)) == Err::<RequestView, _>(
                DecodeError::TypeMismatch { expected: Expected::Object, path: FieldPath::Params },
            )
            &&& Notification::from_json(Json::Object(obj)) == Err::<NotificationView, _>(
                DecodeError::TypeMismatch { expected: Expected::Object, path: FieldPath::Params },
            )
        },
{
    keys_differ();
}

} // verus!

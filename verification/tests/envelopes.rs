use mcp_types::envelope::{JsonRpcRequest, JsonRpcResponse, ResponsePayload};
use mcp_types::error::ErrorCode;
use mcp_types::ident::{ProgressToken, RequestId};
use mcp_types::request::{Notification, Request, RequestMeta};
use mcp_types::version::{JSONRPC_VERSION, LATEST_PROTOCOL_VERSION, SUPPORTED_PROTOCOL_VERSIONS};
use mcp_types::wire::{to_text, DecodeError, Expected, FieldPath, Message};
use mcp_types::McpError;

fn frame(text: &str) -> serde_json::Value {
    serde_json::from_str(text).unwrap()
}

fn object(text: &str) -> serde_json::Map<String, serde_json::Value> {
    serde_json::from_str::<serde_json::Map<String, serde_json::Value>>(text).unwrap()
}

#[test]
fn versions_are_the_published_ones() {
    assert_eq!(JSONRPC_VERSION, "2.0");
    assert_eq!(LATEST_PROTOCOL_VERSION, "2024-11-05");
    assert_eq!(SUPPORTED_PROTOCOL_VERSIONS, ["2024-11-05", "2024-10-07"]);
}

#[test]
fn request_without_params_is_read() {
    assert_eq!(
        Request::decode(&frame("{\"method\":\"tools/list\"}")),
        Ok(Request { method: "tools/list".to_string(), params: None })
    );
}

#[test]
fn request_without_params_is_written_without_the_key() {
    let r = Request { method: "tools/list".to_string(), params: None };
    assert_eq!(to_text(&r), "{\"method\":\"tools/list\"}");
}

#[test]
fn request_with_params_round_trips() {
    let r = Request {
        method: "tools/call".to_string(),
        params: Some(object("{\"name\":\"echo\",\"arguments\":{\"text\":\"hi\"}}")),
    };
    let v = r.encode();
    assert_eq!(
        v.to_string(),
        "{\"method\":\"tools/call\",\"params\":{\"arguments\":{\"text\":\"hi\"},\"name\":\"echo\"}}"
    );
    assert_eq!(Request::decode(&v), Ok(r));
}

#[test]
fn request_with_empty_params_is_not_one_without() {
    let r = Request::decode(&frame("{\"method\":\"m\",\"params\":{}}")).unwrap();
    assert_eq!(r.params, Some(serde_json::Map::new()));
    assert_eq!(to_text(&r), "{\"method\":\"m\",\"params\":{}}");
}

#[test]
fn request_rejects_params_that_are_no_object() {
    let wrong = DecodeError::TypeMismatch { expected: Expected::Object, path: FieldPath::Params };
    for text in [
        "{\"method\":\"m\",\"params\":null}",
        "{\"method\":\"m\",\"params\":[1]}",
        "{\"method\":\"m\",\"params\":\"p\"}",
    ] {
        assert_eq!(Request::decode(&frame(text)), Err(wrong));
    }
}

#[test]
fn request_needs_a_method() {
    assert_eq!(
        Request::decode(&frame("{\"params\":{}}")),
        Err(DecodeError::MissingField { path: FieldPath::Method })
    );
    assert_eq!(
        Request::decode(&frame("{\"method\":1}")),
        Err(DecodeError::TypeMismatch { expected: Expected::String, path: FieldPath::Method })
    );
    assert_eq!(
        Request::decode(&frame("\"tools/list\"")),
        Err(DecodeError::TypeMismatch { expected: Expected::Object, path: FieldPath::Root })
    );
}

#[test]
fn request_gives_method_and_params() {
    let r = Request { method: "m".to_string(), params: Some(object("{\"a\":1}")) };
    assert_eq!(mcp_types::Request::method(&r), "m");
    assert_eq!(mcp_types::Request::params(&r), Some(frame("{\"a\":1}")));
    let bare = Request { method: "m".to_string(), params: None };
    assert_eq!(mcp_types::Request::params(&bare), None);
}

#[test]
fn notification_round_trips() {
    let with = Notification {
        method: "notifications/progress".to_string(),
        params: Some(object("{\"progress\":5}")),
    };
    assert_eq!(Notification::decode(&with.encode()), Ok(with));
    let without = Notification { method: "notifications/initialized".to_string(), params: None };
    assert_eq!(to_text(&without), "{\"method\":\"notifications/initialized\"}");
    assert_eq!(Notification::decode(&without.encode()), Ok(without));
}

#[test]
fn notification_gives_method_and_params() {
    let n = Notification { method: "n".to_string(), params: Some(object("{}")) };
    assert_eq!(mcp_types::Notification::method(&n), "n");
    assert_eq!(mcp_types::Notification::params(&n), Some(frame("{}")));
}

#[test]
fn notification_needs_a_method() {
    assert_eq!(
        Notification::decode(&frame("{}")),
        Err(DecodeError::MissingField { path: FieldPath::Method })
    );
    assert_eq!(
        Notification::decode(&frame("{\"method\":\"m\",\"params\":3}")),
        Err(DecodeError::TypeMismatch { expected: Expected::Object, path: FieldPath::Params })
    );
}

#[test]
fn request_meta_reads_the_token_and_keeps_the_rest() {
    let wire = frame("{\"progressToken\":\"t1\",\"trace\":[1,2]}");
    let meta = RequestMeta::decode(&wire).unwrap();
    assert_eq!(meta.progress_token(), Some(&ProgressToken::String("t1".to_string())));
    assert_eq!(meta.extra(), &object("{\"trace\":[1,2]}"));
    assert_eq!(meta.encode(), wire);
}

#[test]
fn request_meta_without_a_token() {
    let meta = RequestMeta::decode(&frame("{\"k\":1}")).unwrap();
    assert_eq!(meta.progress_token(), None);
    assert_eq!(to_text(&meta), "{\"k\":1}");
}

#[test]
fn request_meta_round_trips() {
    let meta = RequestMeta::new(Some(ProgressToken::Integer(9)), object("{\"k\":null}"));
    assert_eq!(to_text(&meta), "{\"k\":null,\"progressToken\":9}");
    assert_eq!(RequestMeta::decode(&meta.encode()), Ok(meta));
}

#[test]
fn request_meta_rejects_a_token_of_another_kind() {
    let wrong = DecodeError::TypeMismatch {
        expected: Expected::StringOrInteger,
        path: FieldPath::ProgressToken,
    };
    for text in ["{\"progressToken\":null}", "{\"progressToken\":true}", "{\"progressToken\":{}}"] {
        assert_eq!(RequestMeta::decode(&frame(text)), Err(wrong));
    }
    assert_eq!(
        RequestMeta::decode(&frame("[]")),
        Err(DecodeError::TypeMismatch { expected: Expected::Object, path: FieldPath::Root })
    );
}

#[test]
fn jsonrpc_request_of_version_2_is_read() {
    let r = JsonRpcRequest::decode(&frame(
        "{\"jsonrpc\":\"2.0\",\"id\":1,\"method\":\"ping\"}",
    ));
    assert_eq!(
        r,
        Ok(JsonRpcRequest {
            jsonrpc: "2.0".to_string(),
            id: RequestId::Integer(1),
            method: "ping".to_string(),
            params: None,
        })
    );
}

#[test]
fn jsonrpc_request_of_another_version_is_rejected() {
    for text in [
        "{\"jsonrpc\":\"1.0\",\"id\":1,\"method\":\"ping\"}",
        "{\"jsonrpc\":\"2\",\"id\":1,\"method\":\"ping\"}",
        "{\"jsonrpc\":2.0,\"id\":1,\"method\":\"ping\"}",
        "{\"jsonrpc\":null,\"id\":1,\"method\":\"ping\"}",
        "{\"jsonrpc\":\"1.0\"}",
    ] {
        assert_eq!(JsonRpcRequest::decode(&frame(text)), Err(DecodeError::InvalidEnvelope));
    }
}

#[test]
fn jsonrpc_request_needs_its_members() {
    assert_eq!(
        JsonRpcRequest::decode(&frame("{\"id\":1,\"method\":\"ping\"}")),
        Err(DecodeError::MissingField { path: FieldPath::Jsonrpc })
    );
    assert_eq!(
        JsonRpcRequest::decode(&frame("{\"jsonrpc\":\"2.0\",\"method\":\"ping\"}")),
        Err(DecodeError::MissingField { path: FieldPath::Id })
    );
    assert_eq!(
        JsonRpcRequest::decode(&frame("{\"jsonrpc\":\"2.0\",\"id\":1}")),
        Err(DecodeError::MissingField { path: FieldPath::Method })
    );
    assert_eq!(
        JsonRpcRequest::decode(&frame("null")),
        Err(DecodeError::TypeMismatch { expected: Expected::Object, path: FieldPath::Root })
    );
}

#[test]
fn jsonrpc_request_rejects_an_id_of_another_kind() {
    let wrong =
        DecodeError::TypeMismatch { expected: Expected::StringOrInteger, path: FieldPath::Id };
    for id in ["null", "true", "[1]", "{}", "1.5"] {
        let text = format!("{{\"jsonrpc\":\"2.0\",\"id\":{},\"method\":\"m\"}}", id);
        assert_eq!(JsonRpcRequest::decode(&frame(&text)), Err(wrong));
    }
}

#[test]
fn jsonrpc_request_takes_params_as_they_are() {
    let read = |params: &str| {
        let text = format!("{{\"jsonrpc\":\"2.0\",\"id\":\"a\",\"method\":\"m\",\"params\":{}}}", params);
        JsonRpcRequest::decode(&frame(&text)).unwrap().params
    };
    assert_eq!(read("null"), Some(serde_json::Value::Null));
    assert_eq!(read("[1,2]"), Some(frame("[1,2]")));
    assert_eq!(read("{\"k\":\"v\"}"), Some(frame("{\"k\":\"v\"}")));
}

#[test]
fn jsonrpc_request_without_params_is_written_without_the_key() {
    let r = JsonRpcRequest::new(RequestId::String("a".to_string()), "ping".to_string(), None);
    assert_eq!(r.jsonrpc, "2.0");
    assert_eq!(to_text(&r), "{\"id\":\"a\",\"jsonrpc\":\"2.0\",\"method\":\"ping\"}");
}

#[test]
fn jsonrpc_request_round_trips() {
    let requests = vec![
        JsonRpcRequest::new(RequestId::Integer(7), "m".to_string(), None),
        JsonRpcRequest::new(RequestId::String("x".to_string()), "m".to_string(), Some(frame("null"))),
        JsonRpcRequest::new(RequestId::Integer(-1), String::new(), Some(frame("{\"a\":[true]}"))),
    ];
    for r in requests {
        assert_eq!(JsonRpcRequest::decode(&r.encode()), Ok(r));
    }
}

#[test]
fn jsonrpc_response_with_a_result_is_read() {
    let r = JsonRpcResponse::decode(&frame("{\"jsonrpc\":\"2.0\",\"id\":3,\"result\":{\"ok\":true}}"));
    assert_eq!(
        r,
        Ok(JsonRpcResponse {
            jsonrpc: "2.0".to_string(),
            id: RequestId::Integer(3),
            result: ResponsePayload::Success(frame("{\"ok\":true}")),
        })
    );
}

#[test]
fn jsonrpc_response_with_an_error_is_read() {
    let r = JsonRpcResponse::decode(&frame(
        "{\"jsonrpc\":\"2.0\",\"id\":\"r\",\"error\":{\"code\":-32601,\"message\":\"Method not found\"}}",
    ));
    assert_eq!(
        r,
        Ok(JsonRpcResponse {
            jsonrpc: "2.0".to_string(),
            id: RequestId::String("r".to_string()),
            result: ResponsePayload::Error(McpError::new(
                ErrorCode::MethodNotFound,
                "Method not found".to_string()
            )),
        })
    );
}

#[test]
fn jsonrpc_response_with_result_and_error_is_rejected() {
    for text in [
        "{\"jsonrpc\":\"2.0\",\"id\":1,\"result\":1,\"error\":{\"code\":1,\"message\":\"m\"}}",
        "{\"jsonrpc\":\"2.0\",\"id\":1,\"result\":null,\"error\":null}",
        "{\"result\":1,\"error\":2}",
        "{\"jsonrpc\":\"1.0\",\"id\":1,\"result\":1,\"error\":{\"code\":1,\"message\":\"m\"}}",
    ] {
        assert_eq!(JsonRpcResponse::decode(&frame(text)), Err(DecodeError::InvalidResponse));
    }
}

#[test]
fn jsonrpc_response_with_neither_result_nor_error_is_rejected() {
    for text in ["{\"jsonrpc\":\"2.0\",\"id\":1}", "{}", "{\"jsonrpc\":\"2.0\",\"id\":1,\"data\":1}"] {
        assert_eq!(JsonRpcResponse::decode(&frame(text)), Err(DecodeError::InvalidResponse));
    }
}

#[test]
fn jsonrpc_response_of_another_version_is_rejected() {
    assert_eq!(
        JsonRpcResponse::decode(&frame("{\"jsonrpc\":\"1.0\",\"id\":1,\"result\":1}")),
        Err(DecodeError::InvalidEnvelope)
    );
    assert_eq!(
        JsonRpcResponse::decode(&frame("{\"jsonrpc\":\"2.0\",\"id\":1,\"result\":1}")).map(|r| r.id),
        Ok(RequestId::Integer(1))
    );
}

#[test]
fn jsonrpc_response_needs_version_and_id() {
    assert_eq!(
        JsonRpcResponse::decode(&frame("{\"id\":1,\"result\":1}")),
        Err(DecodeError::MissingField { path: FieldPath::Jsonrpc })
    );
    assert_eq!(
        JsonRpcResponse::decode(&frame("{\"jsonrpc\":\"2.0\",\"result\":1}")),
        Err(DecodeError::MissingField { path: FieldPath::Id })
    );
    assert_eq!(
        JsonRpcResponse::decode(&frame("{\"jsonrpc\":\"2.0\",\"id\":null,\"result\":1}")),
        Err(DecodeError::TypeMismatch { expected: Expected::StringOrInteger, path: FieldPath::Id })
    );
    assert_eq!(
        JsonRpcResponse::decode(&frame("[]")),
        Err(DecodeError::TypeMismatch { expected: Expected::Object, path: FieldPath::Root })
    );
}

#[test]
fn jsonrpc_response_reports_what_is_wrong_inside_the_error() {
    let read = |error: &str| {
        let text = format!("{{\"jsonrpc\":\"2.0\",\"id\":1,\"error\":{}}}", error);
        JsonRpcResponse::decode(&frame(&text))
    };
    assert_eq!(
        read("null"),
        Err(DecodeError::TypeMismatch { expected: Expected::Object, path: FieldPath::Error })
    );
    assert_eq!(
        read("{\"message\":\"m\"}"),
        Err(DecodeError::MissingField { path: FieldPath::ErrorCode })
    );
    assert_eq!(
        read("{\"code\":1.5,\"message\":\"m\"}"),
        Err(DecodeError::TypeMismatch { expected: Expected::Int32, path: FieldPath::ErrorCode })
    );
    assert_eq!(
        read("{\"code\":1}"),
        Err(DecodeError::MissingField { path: FieldPath::ErrorMessage })
    );
    assert_eq!(
        read("{\"code\":1,\"message\":[]}"),
        Err(DecodeError::TypeMismatch { expected: Expected::String, path: FieldPath::ErrorMessage })
    );
}

#[test]
fn jsonrpc_response_is_written_with_one_payload() {
    let ok = JsonRpcResponse::success(RequestId::Integer(1), frame("[1]"));
    assert_eq!(to_text(&ok), "{\"id\":1,\"jsonrpc\":\"2.0\",\"result\":[1]}");
    let failed = JsonRpcResponse::failure(
        RequestId::Integer(1),
        McpError::new(ErrorCode::InvalidParams, "bad".to_string()),
    );
    assert_eq!(
        to_text(&failed),
        "{\"error\":{\"code\":-32602,\"message\":\"bad\"},\"id\":1,\"jsonrpc\":\"2.0\"}"
    );
}

#[test]
fn jsonrpc_response_round_trips() {
    let responses = vec![
        JsonRpcResponse::success(RequestId::Integer(1), frame("null")),
        JsonRpcResponse::success(RequestId::String("s".to_string()), frame("{\"error\":1}")),
        JsonRpcResponse::failure(
            RequestId::Integer(2),
            McpError { code: 3, message: "m".to_string(), data: Some(frame("{\"result\":1}")) },
        ),
    ];
    for r in responses {
        assert_eq!(JsonRpcResponse::decode(&r.encode()), Ok(r));
    }
}

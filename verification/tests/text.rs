use mcp_types::capability::Implementation;
use mcp_types::envelope::{JsonRpcRequest, JsonRpcResponse};
use mcp_types::ident::RequestId;
use mcp_types::request::Request;
use mcp_types::wire::{from_text, to_text, DecodeError, Expected, FieldPath};
use mcp_types::McpError;

#[test]
fn text_that_is_no_json_is_malformed() {
    for text in ["", "{", "{\"a\":}", "[1,]", "nul", "\"open", "{} {}", "1 2", "'a'"] {
        assert_eq!(from_text::<Request>(text), Err(DecodeError::Malformed));
        assert_eq!(from_text::<McpError>(text), Err(DecodeError::Malformed));
        assert_eq!(from_text::<JsonRpcResponse>(text), Err(DecodeError::Malformed));
    }
}

#[test]
fn text_that_is_json_is_decoded() {
    assert_eq!(
        from_text::<Request>(" { \"method\" : \"tools/list\" } "),
        Ok(Request { method: "tools/list".to_string(), params: None })
    );
    assert_eq!(
        from_text::<McpError>("{\"code\":-32700,\"message\":\"Parse error\"}"),
        Ok(McpError { code: -32700, message: "Parse error".to_string(), data: None })
    );
    assert_eq!(
        from_text::<Request>("[]"),
        Err(DecodeError::TypeMismatch { expected: Expected::Object, path: FieldPath::Root })
    );
}

#[test]
fn a_key_that_occurs_twice_counts_once_with_its_last_value() {
    assert_eq!(
        from_text::<Request>("{\"method\":\"first\",\"method\":\"second\"}"),
        Ok(Request { method: "second".to_string(), params: None })
    );
}

#[test]
fn messages_are_written_compactly_with_sorted_keys() {
    let r = JsonRpcRequest::new(
        RequestId::Integer(1),
        "m".to_string(),
        Some(serde_json::from_str("{ \"b\" : [ 1 , 2.5 ] , \"a\" : { } }").unwrap()),
    );
    assert_eq!(
        to_text(&r),
        "{\"id\":1,\"jsonrpc\":\"2.0\",\"method\":\"m\",\"params\":{\"a\":{},\"b\":[1,2.5]}}"
    );
}

#[test]
fn strings_are_written_with_escapes() {
    let e = McpError { code: 1, message: "a\"b\n".to_string(), data: None };
    assert_eq!(to_text(&e), "{\"code\":1,\"message\":\"a\\\"b\\n\"}");
    assert_eq!(from_text::<McpError>(&to_text(&e)), Ok(e));
}

#[test]
fn what_is_written_is_read_back() {
    let text = "{\"extra\":[null,1.5,\"s\"],\"name\":\"n\",\"version\":\"v\"}";
    let x: Implementation = from_text(text).unwrap();
    assert_eq!(to_text(&x), text);
    assert_eq!(from_text::<Implementation>(&to_text(&x)), Ok(x));
}

#[test]
fn places_are_seen_from_outside() {
    assert_eq!(FieldPath::Root.within(FieldPath::Id), FieldPath::Id);
    assert_eq!(FieldPath::Root.within(FieldPath::Error), FieldPath::Error);
    assert_eq!(FieldPath::Code.within(FieldPath::Error), FieldPath::ErrorCode);
    assert_eq!(FieldPath::Message.within(FieldPath::Error), FieldPath::ErrorMessage);
    assert_eq!(FieldPath::ListChanged.within(FieldPath::Roots), FieldPath::RootsListChanged);
    assert_eq!(
        DecodeError::MissingField { path: FieldPath::Code }.within(FieldPath::Error),
        DecodeError::MissingField { path: FieldPath::ErrorCode }
    );
    assert_eq!(DecodeError::InvalidEnvelope.within(FieldPath::Error), DecodeError::InvalidEnvelope);
    assert_eq!(DecodeError::Malformed.within(FieldPath::Roots), DecodeError::Malformed);
}

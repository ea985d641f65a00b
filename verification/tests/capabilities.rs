use mcp_types::capability::{ClientCapabilities, Implementation, RootsCapability};
use mcp_types::wire::{to_text, DecodeError, Expected, FieldPath, Message};

fn capability_value(text: &str) -> serde_json::Value {
    serde_json::from_str(text).unwrap()
}

fn members(text: &str) -> serde_json::Map<String, serde_json::Value> {
    serde_json::from_str::<serde_json::Map<String, serde_json::Value>>(text).unwrap()
}

#[test]
fn implementation_keeps_an_unknown_member() {
    let wire = capability_value("{\"name\":\"x\",\"version\":\"1\",\"extraField\":42}");
    let decoded = Implementation::decode(&wire).unwrap();
    assert_eq!(decoded.name, "x");
    assert_eq!(decoded.version, "1");
    assert_eq!(decoded.extra, members("{\"extraField\":42}"));
    let encoded = decoded.encode();
    assert_eq!(encoded.as_object().unwrap().get("extraField"), Some(&serde_json::Value::from(42)));
    assert_eq!(encoded, wire);
}

#[test]
fn implementation_keeps_unknown_members_of_every_kind() {
    let text = "{\"a\":null,\"b\":[1,\"two\",{\"c\":3.25}],\"name\":\"n\",\"version\":\"v\",\"z\":{\"name\":\"inner\"}}";
    let wire = capability_value(text);
    let decoded = Implementation::decode(&wire).unwrap();
    assert_eq!(decoded.extra.len(), 3);
    assert_eq!(decoded.encode(), wire);
    assert_eq!(to_text(&decoded), text);
}

#[test]
fn implementation_without_extra_members() {
    let decoded = Implementation::decode(&capability_value("{\"name\":\"n\",\"version\":\"v\"}"));
    assert_eq!(
        decoded,
        Ok(Implementation {
            name: "n".to_string(),
            version: "v".to_string(),
            extra: serde_json::Map::new(),
        })
    );
}

#[test]
fn implementation_round_trips() {
    let x = Implementation {
        name: "client".to_string(),
        version: "0.3.1".to_string(),
        extra: members("{\"vendor\":\"acme\",\"build\":7}"),
    };
    assert_eq!(Implementation::decode(&x.encode()), Ok(x));
}

#[test]
fn implementation_writes_named_members_over_extra_ones() {
    let x = Implementation {
        name: "real".to_string(),
        version: "2".to_string(),
        extra: members("{\"name\":\"shadow\"}"),
    };
    assert_eq!(to_text(&x), "{\"name\":\"real\",\"version\":\"2\"}");
}

#[test]
fn implementation_needs_name_and_version() {
    assert_eq!(
        Implementation::decode(&capability_value("{\"version\":\"1\"}")),
        Err(DecodeError::MissingField { path: FieldPath::Name })
    );
    assert_eq!(
        Implementation::decode(&capability_value("{\"name\":\"x\"}")),
        Err(DecodeError::MissingField { path: FieldPath::Version })
    );
    assert_eq!(
        Implementation::decode(&capability_value("{\"name\":1,\"version\":\"1\"}")),
        Err(DecodeError::TypeMismatch { expected: Expected::String, path: FieldPath::Name })
    );
    assert_eq!(
        Implementation::decode(&capability_value("{\"name\":\"x\",\"version\":null}")),
        Err(DecodeError::TypeMismatch { expected: Expected::String, path: FieldPath::Version })
    );
    assert_eq!(
        Implementation::decode(&capability_value("[]")),
        Err(DecodeError::TypeMismatch { expected: Expected::Object, path: FieldPath::Root })
    );
}

#[test]
fn roots_capability_reads_list_changed() {
    let decoded = RootsCapability::decode(&capability_value("{\"listChanged\":true}")).unwrap();
    assert_eq!(decoded.list_changed, Some(true));
    assert!(decoded.extra.is_empty());
    let decoded = RootsCapability::decode(&capability_value("{\"listChanged\":false}")).unwrap();
    assert_eq!(decoded.list_changed, Some(false));
}

#[test]
fn roots_capability_without_list_changed() {
    let decoded = RootsCapability::decode(&capability_value("{}")).unwrap();
    assert_eq!(decoded.list_changed, None);
    assert_eq!(to_text(&decoded), "{}");
}

#[test]
fn roots_capability_keeps_unknown_members() {
    let wire = capability_value("{\"listChanged\":true,\"depth\":3}");
    let decoded = RootsCapability::decode(&wire).unwrap();
    assert_eq!(decoded.extra, members("{\"depth\":3}"));
    assert_eq!(decoded.encode(), wire);
}

#[test]
fn roots_capability_rejects_a_list_changed_that_is_no_boolean() {
    let wrong =
        DecodeError::TypeMismatch { expected: Expected::Boolean, path: FieldPath::ListChanged };
    for text in ["{\"listChanged\":null}", "{\"listChanged\":1}", "{\"listChanged\":\"true\"}"] {
        assert_eq!(RootsCapability::decode(&capability_value(text)), Err(wrong));
    }
}

#[test]
fn roots_capability_round_trips() {
    let with = RootsCapability { list_changed: Some(false), extra: members("{\"k\":[]}") };
    assert_eq!(RootsCapability::decode(&with.encode()), Ok(with));
    let without = RootsCapability { list_changed: None, extra: serde_json::Map::new() };
    assert_eq!(RootsCapability::decode(&without.encode()), Ok(without));
}

#[test]
fn default_capabilities_declare_nothing() {
    let c = ClientCapabilities::default();
    assert_eq!(c, ClientCapabilities { experimental: None, sampling: None, roots: None });
    assert_eq!(to_text(&c), "{}");
    assert_eq!(ClientCapabilities::decode(&capability_value("{}")), Ok(c));
}

#[test]
fn capabilities_are_declared_by_being_there() {
    let c = ClientCapabilities::decode(&capability_value("{\"sampling\":{}}")).unwrap();
    assert_eq!(c.experimental, None);
    assert_eq!(c.sampling, Some(serde_json::Map::new()));
    assert_eq!(c.roots, None);
    assert_eq!(to_text(&c), "{\"sampling\":{}}");
}

#[test]
fn capabilities_round_trip() {
    let c = ClientCapabilities {
        experimental: Some(members("{\"feature\":{\"on\":true}}")),
        sampling: Some(serde_json::Map::new()),
        roots: Some(RootsCapability { list_changed: Some(true), extra: members("{\"x\":1}") }),
    };
    let v = c.encode();
    assert_eq!(
        v.to_string(),
        "{\"experimental\":{\"feature\":{\"on\":true}},\"roots\":{\"listChanged\":true,\"x\":1},\"sampling\":{}}"
    );
    assert_eq!(ClientCapabilities::decode(&v), Ok(c));
}

#[test]
fn capabilities_reject_a_member_that_is_no_object() {
    assert_eq!(
        ClientCapabilities::decode(&capability_value("{\"experimental\":null}")),
        Err(DecodeError::TypeMismatch { expected: Expected::Object, path: FieldPath::Experimental })
    );
    assert_eq!(
        ClientCapabilities::decode(&capability_value("{\"sampling\":true}")),
        Err(DecodeError::TypeMismatch { expected: Expected::Object, path: FieldPath::Sampling })
    );
    assert_eq!(
        ClientCapabilities::decode(&capability_value("{\"roots\":[]}")),
        Err(DecodeError::TypeMismatch { expected: Expected::Object, path: FieldPath::Roots })
    );
    assert_eq!(
        ClientCapabilities::decode(&capability_value("7")),
        Err(DecodeError::TypeMismatch { expected: Expected::Object, path: FieldPath::Root })
    );
}

#[test]
fn capabilities_report_what_is_wrong_inside_roots() {
    assert_eq!(
        ClientCapabilities::decode(&capability_value("{\"roots\":{\"listChanged\":\"yes\"}}")),
        Err(DecodeError::TypeMismatch {
            expected: Expected::Boolean,
            path: FieldPath::RootsListChanged,
        })
    );
}

#[test]
fn capabilities_pass_over_unknown_members() {
    let c = ClientCapabilities::decode(&capability_value("{\"tools\":{},\"roots\":{}}")).unwrap();
    assert_eq!(
        c,
        ClientCapabilities {
            experimental: None,
            sampling: None,
            roots: Some(RootsCapability { list_changed: None, extra: serde_json::Map::new() }),
        }
    );
    assert_eq!(to_text(&c), "{\"roots\":{}}");
}

use prisma_bridge::bridge::{
    error_value, protobuf_result, BridgeFailure, BridgeFailureKind, ConnectorFailure, ErrorValue,
    RpcReply,
};

fn connector(c: ConnectorFailure<i64>, message: &str) -> BridgeFailure<i64> {
    BridgeFailure { kind: BridgeFailureKind::Connector(c), message: message.to_string() }
}

fn other(kind: BridgeFailureKind<i64>, message: &str) -> BridgeFailure<i64> {
    BridgeFailure { kind, message: message.to_string() }
}

fn text_of(v: ErrorValue<i64>) -> (&'static str, String) {
    match v {
        ErrorValue::ConnectionError(s) => ("connection", s),
        ErrorValue::QueryError(s) => ("query", s),
        ErrorValue::FieldCannotBeNull(s) => ("null", s),
        ErrorValue::UniqueConstraintViolation(s) => ("unique", s),
        ErrorValue::NodeNotFoundForWhere(sel) => ("not_found", format!("{}.{}={}", sel.model_name, sel.field_name, sel.value)),
        ErrorValue::ProtobufDecodeError(s) => ("protobuf", s),
        ErrorValue::JsonDecodeError(s) => ("json", s),
        ErrorValue::InvalidInputError(s) => ("invalid", s),
    }
}

#[test]
fn connection_error_keeps_connector_text() {
    let f = connector(ConnectorFailure::ConnectionError { message: "refused".to_string() }, "bridge: refused");
    assert_eq!(text_of(error_value(f)), ("connection", "refused".to_string()));
}

#[test]
fn query_error_keeps_connector_text() {
    let f = connector(ConnectorFailure::QueryError { message: "syntax".to_string() }, "bridge");
    assert_eq!(text_of(error_value(f)), ("query", "syntax".to_string()));
}

#[test]
fn invalid_connection_arguments_is_a_query_error() {
    let f = connector(ConnectorFailure::InvalidConnectionArguments { message: "bad args".to_string() }, "bridge");
    assert_eq!(text_of(error_value(f)), ("query", "bad args".to_string()));
}

#[test]
fn field_cannot_be_null_names_the_field() {
    let f = connector(ConnectorFailure::FieldCannotBeNull { field: "title".to_string() }, "bridge");
    assert_eq!(text_of(error_value(f)), ("null", "title".to_string()));
}

#[test]
fn unique_violation_names_the_field() {
    let f = connector(ConnectorFailure::UniqueConstraintViolation { field_name: "email".to_string() }, "bridge");
    assert_eq!(text_of(error_value(f)), ("unique", "email".to_string()));
}

#[test]
fn node_not_found_keeps_the_selector() {
    let f = connector(
        ConnectorFailure::NodeNotFoundForWhere { model: "User".to_string(), field: "id".to_string(), value: 42 },
        "bridge",
    );
    assert_eq!(text_of(error_value(f)), ("not_found", "User.id=42".to_string()));
}

#[test]
fn decode_errors_keep_bridge_text() {
    let f = other(BridgeFailureKind::ProtobufDecode, "bad bytes");
    assert_eq!(text_of(error_value(f)), ("protobuf", "bad bytes".to_string()));
    let f = other(BridgeFailureKind::JsonDecode, "bad json");
    assert_eq!(text_of(error_value(f)), ("json", "bad json".to_string()));
}

#[test]
fn domain_and_other_errors_are_invalid_input() {
    let f = other(BridgeFailureKind::Domain, "no such model");
    assert_eq!(text_of(error_value(f)), ("invalid", "no such model".to_string()));
    let f = other(BridgeFailureKind::Other, "something");
    assert_eq!(text_of(error_value(f)), ("invalid", "something".to_string()));
    let f = connector(ConnectorFailure::Other, "connector other");
    assert_eq!(text_of(error_value(f)), ("invalid", "connector other".to_string()));
}

#[test]
fn missing_node_is_an_empty_answer() {
    let reply = protobuf_result::<i64>(Err(connector(ConnectorFailure::NodeDoesNotExist, "gone")));
    assert!(matches!(reply, RpcReply::Empty));
}

#[test]
fn other_failures_are_error_answers() {
    let reply = protobuf_result::<i64>(Err(other(BridgeFailureKind::JsonDecode, "bad json")));
    match reply {
        RpcReply::Error(v) => assert_eq!(text_of(v), ("json", "bad json".to_string())),
        _ => panic!("expected an error answer"),
    }
}

#[test]
fn success_keeps_the_payload() {
    let reply = protobuf_result::<i64>(Ok(vec![1, 2, 3]));
    match reply {
        RpcReply::Payload(p) => assert_eq!(p, vec![1, 2, 3]),
        _ => panic!("expected the payload"),
    }
}

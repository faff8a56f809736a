use vstd::prelude::*;

verus! {

/// A connector error as the bridge tells them apart. The `message` of a
/// variant is the connector error's own text; `V` is the value type that a
/// node selector carries.
pub enum ConnectorFailure<V> {
    ConnectionError { message: String },
    QueryError { message: String },
    InvalidConnectionArguments { message: String },
    FieldCannotBeNull { field: String },
    UniqueConstraintViolation { field_name: String },
    NodeNotFoundForWhere { model: String, field: String, value: V },
    NodeDoesNotExist,
    Other,
}

/// Where a bridge error came from.
pub enum BridgeFailureKind<V> {
    Connector(ConnectorFailure<V>),
    ProtobufDecode,
    JsonDecode,
    Domain,
    Other,
}

/// An error of the bridge: where it came from, and the text of the error as
/// a whole.
pub struct BridgeFailure<V> {
    pub kind: BridgeFailureKind<V>,
    pub message: String,
}

/// The node selector of an error answer: which model, which field, which
/// value.
pub struct NodeSelectorMessage<V> {
    pub model_name: String,
    pub field_name: String,
    pub value: V,
}

/// The error that an answer to a request carries.
pub enum ErrorValue<V> {
    ConnectionError(String),
    QueryError(String),
    FieldCannotBeNull(String),
    UniqueConstraintViolation(String),
    NodeNotFoundForWhere(NodeSelectorMessage<V>),
    ProtobufDecodeError(String),
    JsonDecodeError(String),
    InvalidInputError(String),
}

/// What a request is answered with.
pub enum RpcReply<V> {
    /// The encoded answer of a request that succeeded.
    Payload(Vec<u8>),
    /// An answer with no nodes in it.
    Empty,
    /// An answer that reports an error.
    Error(ErrorValue<V>),
}

/// The error answer for a bridge error. Connection and query errors carry
/// the connector's text, as do invalid connection arguments (reported as a
/// query error); a missing required field and a unique constraint
/// violation carry the field's name; a missing node carries its selector;
/// decode errors carry the bridge's text; everything else is reported as
/// invalid input with the bridge's text.
pub open spec fn spec_error_value<V>(failure: BridgeFailure<V>) -> ErrorValue<V> {
    match failure.kind {
        BridgeFailureKind::Connector(c) => match c {
            ConnectorFailure::ConnectionError { message } => ErrorValue::ConnectionError(message),
            ConnectorFailure::QueryError { message } => ErrorValue::QueryError(message),
            ConnectorFailure::InvalidConnectionArguments { message } => ErrorValue::QueryError(
                message,
            ),
            ConnectorFailure::FieldCannotBeNull { field } => ErrorValue::FieldCannotBeNull(field),
            ConnectorFailure::UniqueConstraintViolation {
                field_name,
            } => ErrorValue::UniqueConstraintViolation(field_name),
            ConnectorFailure::NodeNotFoundForWhere {
                model,
                field,
                value,
            } => ErrorValue::NodeNotFoundForWhere(
                NodeSelectorMessage { model_name: model, field_name: field, value },
            ),
            _ => ErrorValue::InvalidInputError(failure.message),
        },
        BridgeFailureKind::ProtobufDecode => ErrorValue::ProtobufDecodeError(failure.message),
        BridgeFailureKind::JsonDecode => ErrorValue::JsonDecodeError(failure.message),
        BridgeFailureKind::Domain => ErrorValue::InvalidInputError(failure.message),
        BridgeFailureKind::Other => ErrorValue::InvalidInputError(failure.message),
    }
}

/// Whether a bridge error says that the node asked for does not exist.
pub open spec fn spec_is_missing_node<V>(failure: BridgeFailure<V>) -> bool {
    failure.kind matches BridgeFailureKind::Connector(ConnectorFailure::NodeDoesNotExist)
}

/// The answer to a request: its payload when it succeeded; an empty answer
/// when the node it asked for does not exist; an error answer otherwise.
pub open spec fn spec_reply<V>(result: Result<Vec<u8>, BridgeFailure<V>>) -> RpcReply<V> {
    match result {
        Ok(payload) => RpcReply::Payload(payload),
        Err(failure) => if spec_is_missing_node(failure) {
            RpcReply::Empty
        } else {
            RpcReply::Error(spec_error_value(failure))
        },
    }
}

/// The error answer for a bridge error.
pub fn error_value<V>(failure: BridgeFailure<V>) -> (value: ErrorValue<V>)
    ensures
        value == spec_error_value(failure),
{
    let BridgeFailure { kind, message } = failure;
    match kind {
        BridgeFailureKind::Connector(c) => match c {
            ConnectorFailure::ConnectionError { message } => ErrorValue::ConnectionError(message),
            ConnectorFailure::QueryError { message } => ErrorValue::QueryError(message),
            ConnectorFailure::InvalidConnectionArguments { message } => ErrorValue::QueryError(
                message,
            ),
            ConnectorFailure::FieldCannotBeNull { field } => ErrorValue::FieldCannotBeNull(field),
            ConnectorFailure::UniqueConstraintViolation {
                field_name,
            } => ErrorValue::UniqueConstraintViolation(field_name),
            ConnectorFailure::NodeNotFoundForWhere {
                model,
                field,
                value,
            } => ErrorValue::NodeNotFoundForWhere(
                NodeSelectorMessage { model_name: model, field_name: field, value },
            ),
            ConnectorFailure::NodeDoesNotExist => ErrorValue::InvalidInputError(message),
            ConnectorFailure::Other => ErrorValue::InvalidInputError(message),
        },
        BridgeFailureKind::ProtobufDecode => ErrorValue::ProtobufDecodeError(message),
        BridgeFailureKind::JsonDecode => ErrorValue::JsonDecodeError(message),
        BridgeFailureKind::Domain => ErrorValue::InvalidInputError(message),
        BridgeFailureKind::Other => ErrorValue::InvalidInputError(message),
    }
}

/// The answer to a request, from what handling it gave: the payload, or
/// the answer for the error.
pub fn protobuf_result<V>(result: Result<Vec<u8>, BridgeFailure<V>>) -> (reply: RpcReply<V>)
    ensures
        reply == spec_reply(result),
{
    match result {
        Ok(payload) => RpcReply::Payload(payload),
        Err(failure) => {
            let missing = match &failure.kind {
                BridgeFailureKind::Connector(ConnectorFailure::NodeDoesNotExist) => true,
                _ => false,
            };
            if missing {
                RpcReply::Empty
            } else {
                RpcReply::Error(error_value(failure))
            }
        },
    }
}

/// A request that fails because the node it asks for does not exist is
/// answered with an empty answer, never with an error.
pub proof fn lemma_missing_node_is_answered_empty<V>(failure: BridgeFailure<V>)
    requires
        spec_is_missing_node(failure),
    ensures
        spec_reply::<V>(Err(failure)) == RpcReply::<V>::Empty,
{
}

/// Every other failed request is answered with the error answer for its
/// error, and no failed request is answered with a payload.
pub proof fn lemma_other_failures_are_reported<V>(failure: BridgeFailure<V>)
    requires
        !spec_is_missing_node(failure),
    ensures
        spec_reply::<V>(Err(failure)) == RpcReply::Error(spec_error_value(failure)),
{
}

/// A request that succeeded is answered with its own payload.
pub proof fn lemma_success_keeps_payload<V>(payload: Vec<u8>)
    ensures
        spec_reply::<V>(Ok(payload)) == RpcReply::<V>::Payload(payload),
{
}

/// A node that no selector finds is reported with the selector's model,
/// field and value, unchanged.
pub proof fn lemma_node_not_found_keeps_selector<V>(
    model: String,
    field: String,
    value: V,
    message: String,
)
    ensures
        spec_error_value(
            BridgeFailure {
                kind: BridgeFailureKind::Connector(
                    ConnectorFailure::NodeNotFoundForWhere { model, field, value },
                ),
                message,
            },
        ) == ErrorValue::NodeNotFoundForWhere(
            NodeSelectorMessage { model_name: model, field_name: field, value },
        ),
{
}

/// Only a missing node is answered with an empty answer: every other failed
/// request, a node that no selector finds included, is answered with an
/// error answer.
pub proof fn lemma_only_missing_node_is_empty<V>(failure: BridgeFailure<V>)
    requires
        !(failure.kind matches BridgeFailureKind::Connector(ConnectorFailure::NodeDoesNotExist)),
    ensures
        spec_reply::<V>(Err(failure)) is Error,
        spec_reply::<V>(Err(failure)) == RpcReply::Error(spec_error_value(failure)),
{
}

/// A missing node is answered with an empty answer, whatever the bridge's
/// text of the error.
pub proof fn lemma_missing_node_reply<V>(text: String)
    ensures
        spec_reply::<V>(
            Err(
                BridgeFailure {
                    kind: BridgeFailureKind::Connector(ConnectorFailure::NodeDoesNotExist),
                    message: text,
                },
            ),
        ) == RpcReply::<V>::Empty,
{
}

/// A node that no selector finds is answered with an error answer that
/// names the same model, field and value; never with an empty answer.
pub proof fn lemma_node_not_found_reply<V>(model: String, field: String, value: V, text: String)
    ensures
        spec_reply::<V>(
            Err(
                BridgeFailure {
                    kind: BridgeFailureKind::Connector(
                        ConnectorFailure::NodeNotFoundForWhere { model, field, value },
                    ),
                    message: text,
                },
            ),
        ) == RpcReply::Error(
            ErrorValue::NodeNotFoundForWhere(
                NodeSelectorMessage { model_name: model, field_name: field, value },
            ),
        ),
{
}

/// The error answer of each bridge error, for every text: connection and
/// query errors keep the connector's text under their own kind; invalid
/// connection arguments are a query error with the connector's text; a
/// missing required field and a unique violation name the field; decode
/// errors keep the bridge's text under their own kind; domain errors, other
/// errors and the remaining connector errors are invalid input with the
/// bridge's text.
pub proof fn lemma_error_answers<V>(m: String, t: String)
    ensures
        spec_error_value::<V>(
            BridgeFailure {
                kind: BridgeFailureKind::Connector(ConnectorFailure::ConnectionError { message: m }),
                message: t,
            },
        ) == ErrorValue::<V>::ConnectionError(m),
        spec_error_value::<V>(
            BridgeFailure {
                kind: BridgeFailureKind::Connector(ConnectorFailure::QueryError { message: m }),
                message: t,
            },
        ) == ErrorValue::<V>::QueryError(m),
        spec_error_value::<V>(
            BridgeFailure {
                kind: BridgeFailureKind::Connector(
                    ConnectorFailure::InvalidConnectionArguments { message: m },
                ),
                message: t,
            },
        ) == ErrorValue::<V>::QueryError(m),
        spec_error_value::<V>(
            BridgeFailure {
                kind: BridgeFailureKind::Connector(ConnectorFailure::FieldCannotBeNull { field: m }),
                message: t,
            },
        ) == ErrorValue::<V>::FieldCannotBeNull(m),
        spec_error_value::<V>(
            BridgeFailure {
                kind: BridgeFailureKind::Connector(
                    ConnectorFailure::UniqueConstraintViolation { field_name: m },
                ),
                message: t,
            },
        ) == ErrorValue::<V>::UniqueConstraintViolation(m),
        spec_error_value::<V>(
            BridgeFailure {
                kind: BridgeFailureKind::Connector(ConnectorFailure::NodeDoesNotExist),
                message: t,
            },
        ) == ErrorValue::<V>::InvalidInputError(t),
        spec_error_value::<V>(
            BridgeFailure { kind: BridgeFailureKind::Connector(ConnectorFailure::Other), message: t },
        ) == ErrorValue::<V>::InvalidInputError(t),
        spec_error_value::<V>(BridgeFailure { kind: BridgeFailureKind::ProtobufDecode, message: t })
            == ErrorValue::<V>::ProtobufDecodeError(t),
        spec_error_value::<V>(BridgeFailure { kind: BridgeFailureKind::JsonDecode, message: t })
            == ErrorValue::<V>::JsonDecodeError(t),
        spec_error_value::<V>(BridgeFailure { kind: BridgeFailureKind::Domain, message: t })
            == ErrorValue::<V>::InvalidInputError(t),
        spec_error_value::<V>(BridgeFailure { kind: BridgeFailureKind::Other, message: t })
            == ErrorValue::<V>::InvalidInputError(t),
{
}

} // verus!

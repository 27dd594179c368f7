//! The closed set of protocol errors and their wire codes.

use vstd::prelude::*;

verus! {

/// Every fallible operation of the library reports one of these kinds.
/// `Internal` wraps storage, transport or serialization failures with a
/// human-readable message; `UnsupportedOperation` carries the reason the
/// capability gate gives.
#[derive(Debug)]
pub enum A2AError {
    InvalidRequest,
    InvalidParams,
    MethodNotFound,
    UnsupportedOperation(String),
    TaskNotFound,
    TaskNotCancelable,
    PushNotificationNotSupported,
    ContentTypeNotSupported,
    InvalidAgentResponse,
    AuthRequired,
    Internal(String),
}

impl A2AError {
    /// An operation the agent does not support, with the refusal text.
    pub fn unsupported_operation(msg: &str) -> (r: A2AError)
        ensures
            r matches A2AError::UnsupportedOperation(m) && m@ == msg@,
    {
        A2AError::UnsupportedOperation(msg.to_owned())
    }

    /// Wraps an infrastructure failure with its message.
    pub fn internal(msg: &str) -> (r: A2AError)
        ensures
            r matches A2AError::Internal(m) && m@ == msg@,
    {
        A2AError::Internal(msg.to_owned())
    }

    pub fn push_notification_not_supported() -> (r: A2AError)
        ensures
            r is PushNotificationNotSupported,
    {
        A2AError::PushNotificationNotSupported
    }

    /// The JSON-RPC error code of this kind: the reserved negative codes
    /// for envelope-level kinds, positive application codes for the rest.
    pub open spec fn code_spec(&self) -> int {
        match self {
            A2AError::InvalidRequest => -32600,
            A2AError::MethodNotFound => -32601,
            A2AError::InvalidParams => -32602,
            A2AError::Internal(_) => -32603,
            A2AError::TaskNotFound => 1001,
            A2AError::TaskNotCancelable => 1002,
            A2AError::PushNotificationNotSupported => 1003,
            A2AError::UnsupportedOperation(_) => 1004,
            A2AError::ContentTypeNotSupported => 1005,
            A2AError::InvalidAgentResponse => 1006,
            A2AError::AuthRequired => 1007,
        }
    }

    pub fn code(&self) -> (r: i64)
        ensures
            r as int == self.code_spec(),
    {
        match self {
            A2AError::InvalidRequest => -32600,
            A2AError::MethodNotFound => -32601,
            A2AError::InvalidParams => -32602,
            A2AError::Internal(_) => -32603,
            A2AError::TaskNotFound => 1001,
            A2AError::TaskNotCancelable => 1002,
            A2AError::PushNotificationNotSupported => 1003,
            A2AError::UnsupportedOperation(_) => 1004,
            A2AError::ContentTypeNotSupported => 1005,
            A2AError::InvalidAgentResponse => 1006,
            A2AError::AuthRequired => 1007,
        }
    }
}

} // verus!

//! Method resolution for the wire adapters: the protocol's method
//! names, and the mapping from a request's method string to one of
//! them. An unknown name resolves to nothing, which an adapter
//! reports as method-not-found.

use vstd::prelude::*;

verus! {

/// The protocol surface, one variant per wire method.
#[derive(Clone, Copy, PartialEq, Eq, Structural, Debug)]
pub enum Method {
    MessageSend,
    MessageStream,
    TasksGet,
    TasksCancel,
    TasksResubscribe,
    PushConfigSet,
    PushConfigGet,
    PushConfigList,
    PushConfigDelete,
    AuthenticatedExtendedCard,
}

pub open spec fn method_of(name: Seq<char>) -> Option<Method> {
    if name == "message/send"@ {
        Some(Method::MessageSend)
    } else if name == "message/stream"@ {
        Some(Method::MessageStream)
    } else if name == "tasks/get"@ {
        Some(Method::TasksGet)
    } else if name == "tasks/cancel"@ {
        Some(Method::TasksCancel)
    } else if name == "tasks/resubscribe"@ {
        Some(Method::TasksResubscribe)
    } else if name == "tasks/pushNotificationConfig/set"@ {
        Some(Method::PushConfigSet)
    } else if name == "tasks/pushNotificationConfig/get"@ {
        Some(Method::PushConfigGet)
    } else if name == "tasks/pushNotificationConfig/list"@ {
        Some(Method::PushConfigList)
    } else if name == "tasks/pushNotificationConfig/delete"@ {
        Some(Method::PushConfigDelete)
    } else if name == "agent/authenticatedExtendedCard"@ {
        Some(Method::AuthenticatedExtendedCard)
    } else {
        None
    }
}

/// Resolve a request's method string.
pub fn parse_method(name: &String) -> (r: Option<Method>)
    ensures
        r == method_of(name@),
{
    if *name == String::from_str("message/send") {
        Some(Method::MessageSend)
    } else if *name == String::from_str("message/stream") {
        Some(Method::MessageStream)
    } else if *name == String::from_str("tasks/get") {
        Some(Method::TasksGet)
    } else if *name == String::from_str("tasks/cancel") {
        Some(Method::TasksCancel)
    } else if *name == String::from_str("tasks/resubscribe") {
        Some(Method::TasksResubscribe)
    } else if *name == String::from_str("tasks/pushNotificationConfig/set") {
        Some(Method::PushConfigSet)
    } else if *name == String::from_str("tasks/pushNotificationConfig/get") {
        Some(Method::PushConfigGet)
    } else if *name == String::from_str("tasks/pushNotificationConfig/list") {
        Some(Method::PushConfigList)
    } else if *name == String::from_str("tasks/pushNotificationConfig/delete") {
        Some(Method::PushConfigDelete)
    } else if *name == String::from_str("agent/authenticatedExtendedCard") {
        Some(Method::AuthenticatedExtendedCard)
    } else {
        None
    }
}

} // verus!

//! Transport adapter for a generated service: it enforces the agent
//! card's advertised capabilities, then delegates to the request
//! handler. Streaming methods need `streaming`; storing a push config
//! needs `push_notifications`; reading one is deliberately not gated.

use vstd::prelude::*;
use crate::core_types::Task;
use crate::errors::A2AError;
use crate::handler::DefaultRequestHandler;
use crate::models::{
    AgentCard, DeleteTaskPushNotificationConfigParams, Event, MessageSendParams, MessageSendResult,
    ServerCallContext, TaskIdParams, TaskPushNotificationConfig,
    TaskPushNotificationConfigQueryParams, TaskQueryParams,
};
use crate::push_sender::PushNotificationSender;
use crate::push_store::PushNotificationConfigStore;
use crate::task_store::TaskStore;

verus! {

/// The capability gate in front of a request handler.
pub struct GRPCHandler<S: TaskStore, C: PushNotificationConfigStore, P: PushNotificationSender> {
    pub agent_card: AgentCard,
    pub request_handler: DefaultRequestHandler<S, C, P>,
}

impl<S: TaskStore, C: PushNotificationConfigStore, P: PushNotificationSender> GRPCHandler<S, C, P> {
    pub open spec fn wf(&self) -> bool {
        self.request_handler.wf()
    }

    pub open spec fn streaming_ok(&self) -> bool {
        self.agent_card.capabilities.streaming == Some(true)
    }

    pub open spec fn push_ok(&self) -> bool {
        self.agent_card.capabilities.push_notifications == Some(true)
    }

    pub fn new(agent_card: AgentCard, request_handler: DefaultRequestHandler<S, C, P>) -> (r: Self)
        ensures
            r.agent_card == agent_card,
            r.request_handler == request_handler,
    {
        GRPCHandler { agent_card, request_handler }
    }

    /// Streaming methods are refused outright unless the card says
    /// `streaming`.
    pub fn ensure_streaming_supported(&self) -> (r: Result<(), A2AError>)
        ensures
            match r {
                Ok(()) => self.streaming_ok(),
                Err(e) => !self.streaming_ok() && (e matches A2AError::UnsupportedOperation(m)
                    && m@ == "Streaming is not supported by the agent"@),
            },
    {
        match self.agent_card.capabilities.streaming {
            Some(true) => Ok(()),
            _ => Err(A2AError::unsupported_operation("Streaming is not supported by the agent")),
        }
    }

    /// Storing a push config is refused unless the card says
    /// `push_notifications`.
    pub fn ensure_push_supported(&self) -> (r: Result<(), A2AError>)
        ensures
            match r {
                Ok(()) => self.push_ok(),
                Err(e) => !self.push_ok() && e is PushNotificationNotSupported,
            },
    {
        match self.agent_card.capabilities.push_notifications {
            Some(true) => Ok(()),
            _ => Err(A2AError::push_notification_not_supported()),
        }
    }

    /// Unary `message/send`: not gated.
    pub fn handle_message_send(&mut self, params: MessageSendParams, _context: &ServerCallContext)
        -> (r: Result<MessageSendResult, A2AError>)
        requires
            old(self).wf(),
        ensures
            final(self).wf(),
            final(self).agent_card == old(self).agent_card,
            DefaultRequestHandler::message_send_post(
                old(self).request_handler,
                final(self).request_handler,
                params,
                r,
            ),
    {
        self.request_handler.on_message_send(params, Some(_context))
    }

    /// `message/stream`: with `streaming` absent or false, the handler
    /// is never reached and nothing changes.
    pub fn handle_message_stream(&mut self, params: MessageSendParams, _context: &ServerCallContext)
        -> (r: Result<Vec<Event>, A2AError>)
        requires
            old(self).wf(),
        ensures
            final(self).wf(),
            final(self).agent_card == old(self).agent_card,
            !old(self).streaming_ok() ==> *final(self) == *old(self) && (r matches Err(e)
                && e matches A2AError::UnsupportedOperation(m)
                && m@ == "Streaming is not supported by the agent"@),
            old(self).streaming_ok() ==> DefaultRequestHandler::message_stream_post(
                old(self).request_handler,
                final(self).request_handler,
                params,
                r,
            ),
    {
        match self.ensure_streaming_supported() {
            Ok(()) => self.request_handler.on_message_send_stream(params, Some(_context)),
            Err(e) => Err(e),
        }
    }

    /// `tasks/get`: read-only; the transport maps None to its
    /// task-not-found error.
    pub fn handle_get_task(&self, params: TaskQueryParams, _context: &ServerCallContext) -> (r:
        Result<Option<Task>, A2AError>)
        requires
            self.wf(),
        ensures
            self.request_handler.get_task_post(params, r),
    {
        self.request_handler.on_get_task(params, Some(_context))
    }

    /// `tasks/cancel`: not gated.
    pub fn handle_cancel_task(&mut self, params: TaskIdParams, _context: &ServerCallContext) -> (r:
        Result<Option<Task>, A2AError>)
        requires
            old(self).wf(),
        ensures
            final(self).wf(),
            final(self).agent_card == old(self).agent_card,
            DefaultRequestHandler::cancel_task_post(
                old(self).request_handler,
                final(self).request_handler,
                params,
                r,
            ),
    {
        self.request_handler.on_cancel_task(params, Some(_context))
    }

    /// `tasks/pushNotificationConfig/set`: gated on the push
    /// capability.
    pub fn handle_set_push_notification_config(
        &mut self,
        params: TaskPushNotificationConfig,
        _context: &ServerCallContext,
    ) -> (r: Result<TaskPushNotificationConfig, A2AError>)
        requires
            old(self).wf(),
        ensures
            final(self).wf(),
            final(self).agent_card == old(self).agent_card,
            !old(self).push_ok() ==> *final(self) == *old(self) && (r matches Err(e)
                && e is PushNotificationNotSupported),
            old(self).push_ok() ==> DefaultRequestHandler::set_push_post(
                old(self).request_handler,
                final(self).request_handler,
                params,
                r,
            ),
    {
        match self.ensure_push_supported() {
            Ok(()) => self.request_handler.on_set_task_push_notification_config(params, Some(_context)),
            Err(e) => Err(e),
        }
    }

    /// `tasks/pushNotificationConfig/get`: deliberately NOT gated on
    /// the push capability; reading an existing config always works.
    pub fn handle_get_push_notification_config(
        &self,
        params: TaskPushNotificationConfigQueryParams,
        _context: &ServerCallContext,
    ) -> (r: Result<TaskPushNotificationConfig, A2AError>)
        requires
            self.wf(),
        ensures
            self.request_handler.get_push_post(params, r),
    {
        self.request_handler.on_get_task_push_notification_config(params, Some(_context))
    }

    /// `tasks/pushNotificationConfig/list`: not gated, like `get`.
    pub fn handle_list_push_notification_config(
        &self,
        params: TaskIdParams,
        _context: &ServerCallContext,
    ) -> (r: Result<Vec<TaskPushNotificationConfig>, A2AError>)
        requires
            self.wf(),
        ensures
            self.request_handler.list_push_post(params, r),
    {
        self.request_handler.on_list_task_push_notification_config(params, Some(_context))
    }

    /// `tasks/pushNotificationConfig/delete`: gated like `set`.
    pub fn handle_delete_push_notification_config(
        &mut self,
        params: DeleteTaskPushNotificationConfigParams,
        _context: &ServerCallContext,
    ) -> (r: Result<(), A2AError>)
        requires
            old(self).wf(),
        ensures
            final(self).wf(),
            final(self).agent_card == old(self).agent_card,
            !old(self).push_ok() ==> *final(self) == *old(self) && (r matches Err(e)
                && e is PushNotificationNotSupported),
            old(self).push_ok() ==> DefaultRequestHandler::delete_push_post(
                old(self).request_handler,
                final(self).request_handler,
                params,
                r,
            ),
    {
        match self.ensure_push_supported() {
            Ok(()) => self.request_handler.on_delete_task_push_notification_config(params, Some(_context)),
            Err(e) => Err(e),
        }
    }

    /// `tasks/resubscribe`: gated on `streaming`, like
    /// `message/stream`.
    pub fn handle_resubscribe_task(&self, params: TaskIdParams, _context: &ServerCallContext) -> (r:
        Result<Vec<Event>, A2AError>)
        requires
            self.wf(),
        ensures
            !self.streaming_ok() ==> (r matches Err(e)
                && e matches A2AError::UnsupportedOperation(m)
                && m@ == "Streaming is not supported by the agent"@),
            self.streaming_ok() ==> self.request_handler.resubscribe_post(params, r),
    {
        match self.ensure_streaming_supported() {
            Ok(()) => self.request_handler.on_resubscribe_to_task(params, Some(_context)),
            Err(e) => Err(e),
        }
    }

    /// `agent/authenticatedExtendedCard`: only when the card opts in.
    pub fn handle_get_authenticated_extended_card(&self, _context: &ServerCallContext) -> (r:
        Result<&AgentCard, A2AError>)
        ensures
            match r {
                Ok(c) => self.agent_card.supports_authenticated_extended_card == Some(true) && c
                    == &self.agent_card,
                Err(e) => self.agent_card.supports_authenticated_extended_card != Some(true) && (
                e matches A2AError::UnsupportedOperation(m)
                    && m@ == "Authenticated extended card is not supported by this agent"@),
            },
    {
        match self.agent_card.supports_authenticated_extended_card {
            Some(true) => Ok(&self.agent_card),
            _ => Err(
                A2AError::unsupported_operation(
                    "Authenticated extended card is not supported by this agent",
                ),
            ),
        }
    }

    /// The public, unauthenticated card.
    pub fn get_agent_card(&self, _context: &ServerCallContext) -> (r: &AgentCard)
        ensures
            r == &self.agent_card,
    {
        &self.agent_card
    }
}

} // verus!

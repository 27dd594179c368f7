use a2a_rust::core_types::{Message, Part, Role, Task, TaskState, TaskStatus};
use a2a_rust::errors::A2AError;
use a2a_rust::grpc_handler::GRPCHandler;
use a2a_rust::handler::DefaultRequestHandler;
use a2a_rust::models::{
    AgentCapabilities, AgentCard, DeleteTaskPushNotificationConfigParams, MessageSendConfiguration,
    MessageSendParams, MessageSendResult, PushNotificationConfig, ServerCallContext, TaskIdParams,
    TaskPushNotificationConfig, TaskPushNotificationConfigQueryParams, TaskQueryParams,
};
use a2a_rust::push_sender::PushNotificationSender;
use a2a_rust::push_store::{InMemoryPushNotificationConfigStore, PushNotificationConfigStore};
use a2a_rust::task_store::{InMemoryTaskStore, TaskStore};

/// A test sender that records every notified task id.
struct RecordingSender {
    notified: Vec<String>,
}

impl PushNotificationSender for RecordingSender {
    fn send_notification(&mut self, task: &Task) -> Result<(), A2AError> {
        self.notified.push(task.id.clone());
        Ok(())
    }
}

type Handler = DefaultRequestHandler<
    InMemoryTaskStore,
    InMemoryPushNotificationConfigStore,
    RecordingSender,
>;

fn full_handler() -> Handler {
    DefaultRequestHandler::new(
        InMemoryTaskStore::new(),
        Some(InMemoryPushNotificationConfigStore::new()),
        Some(RecordingSender { notified: Vec::new() }),
    )
}

fn msg(text: &str) -> Message {
    Message::new(Role::User, vec![Part::text(text.to_string())])
}

fn card(streaming: Option<bool>, push: Option<bool>) -> AgentCard {
    let mut caps = AgentCapabilities::new();
    if let Some(s) = streaming {
        caps = caps.with_streaming(s);
    }
    if let Some(p) = push {
        caps = caps.with_push_notifications(p);
    }
    AgentCard::new(
        "Test Agent".to_string(),
        "A test agent for testing".to_string(),
        "http://localhost:8080".to_string(),
        "1.0.0".to_string(),
        vec!["text/plain".to_string()],
        vec!["text/plain".to_string()],
        caps,
        vec![],
    )
}

#[test]
fn message_send_creates_working_task_and_pushes() {
    let mut handler = full_handler();
    let config = PushNotificationConfig {
        id: Some("cfg1".to_string()),
        url: "http://mock.example/hook".to_string(),
        token: Some("test-token".to_string()),
        authentication: None,
    };
    let params = MessageSendParams::new(msg("Hello"))
        .with_configuration(MessageSendConfiguration::new().with_push_notification_config(config));

    let result = handler.on_message_send(params, None).unwrap();
    let task = match result {
        MessageSendResult::Task(t) => t,
        other => panic!("Expected Task result, got {:?}", other),
    };
    assert_eq!(task.status.state, TaskState::Working);
    assert_eq!(task.history.as_ref().unwrap().len(), 1);

    // Exactly one push fired, for the created task.
    let sender = handler.push_sender.as_ref().unwrap();
    assert_eq!(sender.notified.len(), 1);
    assert_eq!(sender.notified[0], task.id);

    // The supplied config was stored under the task id with its token.
    let stored = handler.push_config_store.as_ref().unwrap().get_info(&task.id).unwrap();
    assert_eq!(stored.len(), 1);
    assert_eq!(stored[0].token.as_deref(), Some("test-token"));

    // The task was persisted.
    let got = handler.task_store.get(&task.id).unwrap().unwrap();
    assert_eq!(got.status.state, TaskState::Working);
}

#[test]
fn message_send_keeps_supplied_ids() {
    let mut handler = full_handler();
    let message = msg("keep ids")
        .with_task_id("my-task".to_string())
        .with_context_id("my-ctx".to_string());
    let result = handler.on_message_send(MessageSendParams::new(message), None).unwrap();
    match result {
        MessageSendResult::Task(t) => {
            assert_eq!(t.id, "my-task");
            assert_eq!(t.context_id, "my-ctx");
        },
        other => panic!("Expected Task result, got {:?}", other),
    }
}

#[test]
fn message_send_generates_fresh_ids() {
    let mut handler = full_handler();
    let result = handler.on_message_send(MessageSendParams::new(msg("no ids")), None).unwrap();
    match result {
        MessageSendResult::Task(t) => {
            assert_eq!(t.id.len(), 36);
            assert_eq!(t.context_id.len(), 36);
        },
        other => panic!("Expected Task result, got {:?}", other),
    }
}

#[test]
fn cancel_task_transitions_and_pushes() {
    let mut handler = full_handler();
    handler
        .task_store
        .save(
            Task::new("c".to_string(), TaskStatus::new(TaskState::Working))
                .with_task_id("t-1".to_string()),
        )
        .unwrap();
    let out = handler.on_cancel_task(TaskIdParams { id: "t-1".to_string() }, None).unwrap();
    let t = out.expect("task exists");
    assert_eq!(t.status.state, TaskState::Canceled);
    assert!(t.status.timestamp.is_some());
    let sender = handler.push_sender.as_ref().unwrap();
    assert_eq!(sender.notified, vec!["t-1".to_string()]);
}

#[test]
fn cancel_of_terminal_task_is_rejected() {
    let mut handler = full_handler();
    handler
        .task_store
        .save(
            Task::new("c".to_string(), TaskStatus::new(TaskState::Completed))
                .with_task_id("t-1".to_string()),
        )
        .unwrap();
    let out = handler.on_cancel_task(TaskIdParams { id: "t-1".to_string() }, None);
    assert!(matches!(out, Err(A2AError::TaskNotCancelable)));
    // And the stored task did not move.
    let got = handler.task_store.get(&"t-1".to_string()).unwrap().unwrap();
    assert_eq!(got.status.state, TaskState::Completed);
}

#[test]
fn cancel_of_missing_task_is_none() {
    let mut handler = full_handler();
    let out = handler.on_cancel_task(TaskIdParams { id: "ghost".to_string() }, None).unwrap();
    assert!(out.is_none());
}

#[test]
fn get_task_trims_history() {
    let mut handler = full_handler();
    let mut t = Task::new("c".to_string(), TaskStatus::new(TaskState::Working))
        .with_task_id("t-1".to_string());
    t.history = Some(vec![msg("one"), msg("two"), msg("three")]);
    handler.task_store.save(t).unwrap();
    let got = handler
        .on_get_task(TaskQueryParams { id: "t-1".to_string(), history_length: Some(2) }, None)
        .unwrap()
        .unwrap();
    let h = got.history.unwrap();
    assert_eq!(h.len(), 2);
    match &h[0].parts[0] {
        Part::Text { text } => assert_eq!(text, "two"),
        other => panic!("unexpected part: {:?}", other),
    }
}

#[test]
fn stream_yields_task_then_final_completion() {
    let mut handler = full_handler();
    let events = handler
        .on_message_send_stream(MessageSendParams::new(msg("stream me")), None)
        .unwrap();
    assert_eq!(events.len(), 2);
    let tid = match &events[0] {
        a2a_rust::models::Event::Task(t) => {
            assert_eq!(t.status.state, TaskState::Working);
            t.id.clone()
        },
        other => panic!("expected a task first, got {:?}", other),
    };
    match &events[1] {
        a2a_rust::models::Event::TaskStatusUpdate(u) => {
            assert_eq!(u.task_id, tid);
            assert_eq!(u.status.state, TaskState::Completed);
            assert!(u.is_final);
        },
        other => panic!("expected a status update second, got {:?}", other),
    }
    // One push per emitted event.
    assert_eq!(handler.push_sender.as_ref().unwrap().notified.len(), 2);
}

#[test]
fn streaming_gate_rejects_without_capability() {
    let gate_card = card(Some(false), None);
    let mut gate = GRPCHandler::new(gate_card, full_handler());
    let ctx = ServerCallContext::new();
    let out = gate.handle_message_stream(MessageSendParams::new(msg("nope")), &ctx);
    match out {
        Err(A2AError::UnsupportedOperation(m)) => {
            assert_eq!(m, "Streaming is not supported by the agent");
        },
        other => panic!("expected UnsupportedOperation, got {:?}", other),
    }
    // The handler was never reached: no push fired, no task stored.
    assert_eq!(gate.request_handler.push_sender.as_ref().unwrap().notified.len(), 0);
    assert_eq!(gate.request_handler.task_store.list().unwrap().len(), 0);
}

#[test]
fn streaming_gate_admits_with_capability() {
    let gate_card = card(Some(true), None);
    let mut gate = GRPCHandler::new(gate_card, full_handler());
    let ctx = ServerCallContext::new();
    let out = gate.handle_message_stream(MessageSendParams::new(msg("yes")), &ctx).unwrap();
    assert_eq!(out.len(), 2);
}

#[test]
fn resubscribe_gate_rejects_without_capability() {
    let gate_card = card(None, None);
    let gate = GRPCHandler::new(gate_card, full_handler());
    let ctx = ServerCallContext::new();
    let out = gate.handle_resubscribe_task(TaskIdParams { id: "t".to_string() }, &ctx);
    assert!(matches!(out, Err(A2AError::UnsupportedOperation(_))));
}

#[test]
fn push_set_gate_rejects_without_capability() {
    let gate_card = card(None, Some(false));
    let mut gate = GRPCHandler::new(gate_card, full_handler());
    let ctx = ServerCallContext::new();
    let params = TaskPushNotificationConfig::new(
        "t-1".to_string(),
        PushNotificationConfig {
            id: None,
            url: "http://hook.example".to_string(),
            token: None,
            authentication: None,
        },
    );
    let out = gate.handle_set_push_notification_config(params, &ctx);
    assert!(matches!(out, Err(A2AError::PushNotificationNotSupported)));
}

#[test]
fn push_get_is_not_gated() {
    // Card advertises NO push capability, yet reading a stored config
    // succeeds.
    let gate_card = card(None, Some(false));
    let mut handler = full_handler();
    handler
        .push_config_store
        .as_mut()
        .unwrap()
        .set_info(
            &"t-1".to_string(),
            PushNotificationConfig {
                id: Some("cfg".to_string()),
                url: "http://hook.example".to_string(),
                token: None,
                authentication: None,
            },
        )
        .unwrap();
    let gate = GRPCHandler::new(gate_card, handler);
    let ctx = ServerCallContext::new();
    let out = gate
        .handle_get_push_notification_config(
            TaskPushNotificationConfigQueryParams {
                task_id: "t-1".to_string(),
                push_notification_config_id: None,
            },
            &ctx,
        )
        .unwrap();
    assert_eq!(out.task_id, "t-1");
    assert_eq!(out.push_notification_config.id.as_deref(), Some("cfg"));
}

#[test]
fn delete_push_config_removes_one() {
    let gate_card = card(None, Some(true));
    let mut handler = full_handler();
    let store = handler.push_config_store.as_mut().unwrap();
    let tid = "t-1".to_string();
    for cid in ["a", "b"] {
        store
            .set_info(
                &tid,
                PushNotificationConfig {
                    id: Some(cid.to_string()),
                    url: format!("http://{}.example", cid),
                    token: None,
                    authentication: None,
                },
            )
            .unwrap();
    }
    let mut gate = GRPCHandler::new(gate_card, handler);
    let ctx = ServerCallContext::new();
    gate.handle_delete_push_notification_config(
        DeleteTaskPushNotificationConfigParams {
            id: "t-1".to_string(),
            push_notification_config_id: "a".to_string(),
        },
        &ctx,
    )
    .unwrap();
    let left = gate
        .request_handler
        .push_config_store
        .as_ref()
        .unwrap()
        .get_info(&"t-1".to_string())
        .unwrap();
    assert_eq!(left.len(), 1);
    assert_eq!(left[0].id.as_deref(), Some("b"));
}

#[test]
fn extended_card_gate() {
    let ctx = ServerCallContext::new();
    let plain = GRPCHandler::new(card(None, None), full_handler());
    assert!(matches!(
        plain.handle_get_authenticated_extended_card(&ctx),
        Err(A2AError::UnsupportedOperation(_))
    ));

    let extended =
        GRPCHandler::new(card(None, None).with_supports_authenticated_extended_card(true), full_handler());
    let got = extended.handle_get_authenticated_extended_card(&ctx).unwrap();
    assert_eq!(got.name, "Test Agent");
}

#[test]
fn agent_card_is_served() {
    let ctx = ServerCallContext::new();
    let gate = GRPCHandler::new(card(None, None), full_handler());
    let c = gate.get_agent_card(&ctx);
    assert_eq!(c.name, "Test Agent");
    assert_eq!(c.description, "A test agent for testing");
}

#[test]
fn set_without_store_is_unsupported() {
    let mut handler: Handler = DefaultRequestHandler::new(InMemoryTaskStore::new(), None, None);
    let params = TaskPushNotificationConfig::new(
        "t".to_string(),
        PushNotificationConfig {
            id: None,
            url: "http://x.example".to_string(),
            token: None,
            authentication: None,
        },
    );
    let out = handler.on_set_task_push_notification_config(params, None);
    assert!(matches!(out, Err(A2AError::UnsupportedOperation(_))));
}

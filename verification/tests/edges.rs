use a2a_rust::auth::{AuthInterceptor, HttpKwargs, InMemoryContextCredentialStore};
use a2a_rust::core_types::{Artifact, In, Message, Part, Role, Task, TaskState, TaskStatus};
use a2a_rust::errors::A2AError;
use a2a_rust::handler::DefaultRequestHandler;
use a2a_rust::models::{
    APIKeySecurityScheme, AgentCapabilities, AgentCard, PushNotificationConfig, RequirementEntry,
    SchemeEntry, SecurityRequirement, SecurityScheme, TaskIdParams, TaskQueryParams,
};
use a2a_rust::push_sender::{NotificationTarget, notification_targets};
use a2a_rust::push_store::{InMemoryPushNotificationConfigStore, PushNotificationConfigStore};
use a2a_rust::task_store::{InMemoryTaskStore, TaskStore};

type Handler = DefaultRequestHandler<
    InMemoryTaskStore,
    InMemoryPushNotificationConfigStore,
    NeverSender,
>;

/// A sender that is wired but never expected to fire.
struct NeverSender;

impl a2a_rust::push_sender::PushNotificationSender for NeverSender {
    fn send_notification(&mut self, _task: &Task) -> Result<(), A2AError> {
        Ok(())
    }
}

fn msg(text: &str) -> Message {
    Message::new(Role::User, vec![Part::text(text.to_string())])
}

#[test]
fn rich_task_survives_the_store() {
    let mut store = InMemoryTaskStore::new();
    let mut status = TaskStatus::new(TaskState::InputRequired);
    status.message = Some(msg("need more"));
    status.timestamp = Some("2024-05-01T10:00:00Z".to_string());
    let task = Task {
        id: "rich".to_string(),
        context_id: "ctx".to_string(),
        kind: "task".to_string(),
        status,
        artifacts: Some(vec![Artifact {
            artifact_id: "a".to_string(),
            name: Some("n".to_string()),
            description: Some("d".to_string()),
            parts: vec![Part::text("x".to_string()), Part::Data { data: "{\"k\":1}".to_string() }],
            last_chunk: Some(true),
        }]),
        history: Some(vec![msg("one"), msg("two")]),
        metadata: Some("{\"origin\":\"test\"}".to_string()),
    };
    store.save(task).unwrap();
    let got = store.get(&"rich".to_string()).unwrap().unwrap();
    assert_eq!(got.status.state, TaskState::InputRequired);
    assert_eq!(got.status.timestamp.as_deref(), Some("2024-05-01T10:00:00Z"));
    let arts = got.artifacts.unwrap();
    assert_eq!(arts[0].parts.len(), 2);
    assert_eq!(arts[0].last_chunk, Some(true));
    assert_eq!(got.history.unwrap().len(), 2);
    assert_eq!(got.metadata.as_deref(), Some("{\"origin\":\"test\"}"));
}

#[test]
fn trim_keeps_short_history_whole() {
    let mut handler: Handler = DefaultRequestHandler::new(InMemoryTaskStore::new(), None, None);
    let mut t = Task::new("c".to_string(), TaskStatus::new(TaskState::Working))
        .with_task_id("t".to_string());
    t.history = Some(vec![msg("only")]);
    handler.task_store.save(t).unwrap();
    let got = handler
        .on_get_task(TaskQueryParams { id: "t".to_string(), history_length: Some(5) }, None)
        .unwrap()
        .unwrap();
    assert_eq!(got.history.unwrap().len(), 1);
}

#[test]
fn trim_to_zero_empties_history() {
    let mut handler: Handler = DefaultRequestHandler::new(InMemoryTaskStore::new(), None, None);
    let mut t = Task::new("c".to_string(), TaskStatus::new(TaskState::Working))
        .with_task_id("t".to_string());
    t.history = Some(vec![msg("a"), msg("b")]);
    handler.task_store.save(t).unwrap();
    let got = handler
        .on_get_task(TaskQueryParams { id: "t".to_string(), history_length: Some(0) }, None)
        .unwrap()
        .unwrap();
    assert_eq!(got.history.unwrap().len(), 0);
}

#[test]
fn get_task_without_cap_returns_all_history() {
    let mut handler: Handler = DefaultRequestHandler::new(InMemoryTaskStore::new(), None, None);
    let mut t = Task::new("c".to_string(), TaskStatus::new(TaskState::Working))
        .with_task_id("t".to_string());
    t.history = Some(vec![msg("a"), msg("b"), msg("c")]);
    handler.task_store.save(t).unwrap();
    let got = handler
        .on_get_task(TaskQueryParams { id: "t".to_string(), history_length: None }, None)
        .unwrap()
        .unwrap();
    assert_eq!(got.history.unwrap().len(), 3);
}

#[test]
fn resubscribe_yields_current_snapshot() {
    let mut handler: Handler = DefaultRequestHandler::new(InMemoryTaskStore::new(), None, None);
    handler
        .task_store
        .save(
            Task::new("c".to_string(), TaskStatus::new(TaskState::Working))
                .with_task_id("t".to_string()),
        )
        .unwrap();
    let events =
        handler.on_resubscribe_to_task(TaskIdParams { id: "t".to_string() }, None).unwrap();
    assert_eq!(events.len(), 1);
    match &events[0] {
        a2a_rust::models::Event::Task(t) => assert_eq!(t.id, "t"),
        other => panic!("expected a task snapshot, got {:?}", other),
    }
}

#[test]
fn resubscribe_to_missing_task_is_not_found() {
    let handler: Handler = DefaultRequestHandler::new(InMemoryTaskStore::new(), None, None);
    let out = handler.on_resubscribe_to_task(TaskIdParams { id: "ghost".to_string() }, None);
    assert!(matches!(out, Err(A2AError::TaskNotFound)));
}

#[test]
fn list_push_configs_binds_task_id() {
    let mut store = InMemoryPushNotificationConfigStore::new();
    let tid = "t".to_string();
    for (cid, url) in [("a", "http://a.example"), ("b", "http://b.example")] {
        store
            .set_info(
                &tid,
                PushNotificationConfig {
                    id: Some(cid.to_string()),
                    url: url.to_string(),
                    token: None,
                    authentication: None,
                },
            )
            .unwrap();
    }
    let handler: Handler = DefaultRequestHandler::new(InMemoryTaskStore::new(), Some(store), None);
    let listed = handler
        .on_list_task_push_notification_config(TaskIdParams { id: "t".to_string() }, None)
        .unwrap();
    assert_eq!(listed.len(), 2);
    assert!(listed.iter().all(|c| c.task_id == "t"));
    assert_eq!(listed[0].push_notification_config.url, "http://a.example");
    assert_eq!(listed[1].push_notification_config.url, "http://b.example");
}

#[test]
fn cookie_api_key_lands_in_cookies() {
    let card = AgentCard::new(
        "A".to_string(),
        "d".to_string(),
        "http://x".to_string(),
        "1".to_string(),
        vec![],
        vec![],
        AgentCapabilities::new(),
        vec![],
    )
    .with_security_schemes(vec![SchemeEntry {
        id: "ck".to_string(),
        scheme: SecurityScheme::APIKey(APIKeySecurityScheme {
            name: "session".to_string(),
            in_: In::Cookie,
            description: None,
        }),
    }])
    .with_security(vec![SecurityRequirement {
        entries: vec![RequirementEntry { scheme_id: "ck".to_string(), scopes: vec![] }],
    }]);
    let mut creds = InMemoryContextCredentialStore::new();
    creds.add_credential("ck", "abc123");
    let interceptor = AuthInterceptor::new(creds);
    let (_p, kw) = interceptor
        .intercept(&"m".to_string(), "{}".to_string(), HttpKwargs::new(), &card, None)
        .unwrap();
    assert!(kw.headers.is_empty());
    assert_eq!(kw.cookies.len(), 1);
    assert_eq!(kw.cookies[0].name, "session");
    assert_eq!(kw.cookies[0].value, "abc123");
}

#[test]
fn notification_plan_covers_every_config() {
    let configs = vec![
        PushNotificationConfig {
            id: Some("a".to_string()),
            url: "http://a.example".to_string(),
            token: Some("ta".to_string()),
            authentication: None,
        },
        PushNotificationConfig {
            id: None,
            url: "http://b.example".to_string(),
            token: None,
            authentication: None,
        },
    ];
    let plan: Vec<NotificationTarget> = notification_targets(&configs);
    assert_eq!(plan.len(), 2);
    assert_eq!(plan[0].url, "http://a.example");
    assert_eq!(plan[0].token.as_deref(), Some("ta"));
    assert_eq!(plan[1].url, "http://b.example");
    assert_eq!(plan[1].token, None);
}

#[test]
fn fresh_message_gets_a_uuid_id() {
    let m = msg("hello");
    assert_eq!(m.message_id.len(), 36);
    assert!(m.task_id.is_none());
    assert!(m.context_id.is_none());
}

#[test]
fn get_push_config_with_none_stored_is_internal() {
    let handler: Handler = DefaultRequestHandler::new(
        InMemoryTaskStore::new(),
        Some(InMemoryPushNotificationConfigStore::new()),
        None,
    );
    let out = handler.on_get_task_push_notification_config(
        a2a_rust::models::TaskPushNotificationConfigQueryParams {
            task_id: "empty".to_string(),
            push_notification_config_id: None,
        },
        None,
    );
    assert!(matches!(out, Err(A2AError::Internal(_))));
}

use a2a_rust::core_types::{Artifact, Message, Part, Role, Task, TaskState, TaskStatus};
use a2a_rust::errors::A2AError;
use a2a_rust::manager::{TaskManager, apply_event};
use a2a_rust::models::{Event, TaskArtifactUpdateEvent, TaskStatusUpdateEvent};
use a2a_rust::task_store::{InMemoryTaskStore, TaskStore};

fn msg(text: &str) -> Message {
    Message::new(Role::User, vec![Part::text(text.to_string())])
}

fn base(id: &str, ctx: &str, state: TaskState) -> Task {
    Task::new(ctx.to_string(), TaskStatus::new(state)).with_task_id(id.to_string())
}

#[test]
fn snapshot_event_replaces_aggregate() {
    let tid = "t-1".to_string();
    let ctx = "c-1".to_string();
    let t = base("t-1", "c-1", TaskState::Working);
    let out = apply_event(None, &tid, &ctx, &Event::Task(t)).unwrap();
    assert_eq!(out.id, "t-1");
    assert_eq!(out.status.state, TaskState::Working);
}

#[test]
fn status_update_on_terminal_task_is_rejected() {
    let tid = "t-1".to_string();
    let ctx = "c-1".to_string();
    let done = base("t-1", "c-1", TaskState::Completed);
    let ev = Event::TaskStatusUpdate(TaskStatusUpdateEvent::new(
        tid.clone(),
        ctx.clone(),
        TaskStatus::new(TaskState::Working),
        false,
    ));
    let out = apply_event(Some(&done), &tid, &ctx, &ev);
    assert!(matches!(out, Err(A2AError::TaskNotCancelable)));
}

#[test]
fn final_event_must_carry_terminal_state() {
    let tid = "t-1".to_string();
    let ctx = "c-1".to_string();
    let ev = Event::TaskStatusUpdate(TaskStatusUpdateEvent::new(
        tid.clone(),
        ctx.clone(),
        TaskStatus::new(TaskState::Working),
        true,
    ));
    let out = apply_event(None, &tid, &ctx, &ev);
    assert!(matches!(out, Err(A2AError::InvalidParams)));
}

#[test]
fn status_update_appends_attached_message() {
    let tid = "t-1".to_string();
    let ctx = "c-1".to_string();
    let cur = base("t-1", "c-1", TaskState::Submitted);
    let mut status = TaskStatus::new(TaskState::Working);
    status.message = Some(msg("progress"));
    let ev = Event::TaskStatusUpdate(TaskStatusUpdateEvent::new(tid.clone(), ctx.clone(), status, false));
    let out = apply_event(Some(&cur), &tid, &ctx, &ev).unwrap();
    assert_eq!(out.status.state, TaskState::Working);
    let history = out.history.expect("history should hold the attached message");
    assert_eq!(history.len(), 1);
    match &history[0].parts[0] {
        Part::Text { text } => assert_eq!(text, "progress"),
        other => panic!("unexpected part: {:?}", other),
    }
}

#[test]
fn message_event_grows_history_only() {
    let tid = "t-1".to_string();
    let ctx = "c-1".to_string();
    let cur = base("t-1", "c-1", TaskState::Working);
    let out = apply_event(Some(&cur), &tid, &ctx, &Event::Message(msg("hello"))).unwrap();
    assert_eq!(out.status.state, TaskState::Working);
    assert_eq!(out.history.unwrap().len(), 1);
}

#[test]
fn artifact_chunks_assemble_in_order() {
    let tid = "t-1".to_string();
    let ctx = "c-1".to_string();
    let cur = base("t-1", "c-1", TaskState::Working);

    let first = Event::TaskArtifactUpdate(TaskArtifactUpdateEvent {
        task_id: tid.clone(),
        context_id: ctx.clone(),
        artifact: Artifact {
            artifact_id: "a-1".to_string(),
            name: Some("report".to_string()),
            description: None,
            parts: vec![Part::text("alpha".to_string())],
            last_chunk: None,
        },
        append: None,
        last_chunk: Some(false),
    });
    let mid = apply_event(Some(&cur), &tid, &ctx, &first).unwrap();

    let second = Event::TaskArtifactUpdate(TaskArtifactUpdateEvent {
        task_id: tid.clone(),
        context_id: ctx.clone(),
        artifact: Artifact {
            artifact_id: "a-1".to_string(),
            name: None,
            description: None,
            parts: vec![Part::text("beta".to_string())],
            last_chunk: None,
        },
        append: Some(true),
        last_chunk: Some(true),
    });
    let out = apply_event(Some(&mid), &tid, &ctx, &second).unwrap();

    let arts = out.artifacts.expect("artifact should exist");
    assert_eq!(arts.len(), 1);
    assert_eq!(arts[0].artifact_id, "a-1");
    assert_eq!(arts[0].name.as_deref(), Some("report"));
    assert_eq!(arts[0].parts.len(), 2);
    assert_eq!(arts[0].last_chunk, Some(true));
    match (&arts[0].parts[0], &arts[0].parts[1]) {
        (Part::Text { text: a }, Part::Text { text: b }) => {
            assert_eq!(a, "alpha");
            assert_eq!(b, "beta");
        },
        other => panic!("unexpected parts: {:?}", other),
    }
}

#[test]
fn append_to_unknown_artifact_inserts_it() {
    let tid = "t-1".to_string();
    let ctx = "c-1".to_string();
    let cur = base("t-1", "c-1", TaskState::Working);
    let ev = Event::TaskArtifactUpdate(TaskArtifactUpdateEvent {
        task_id: tid.clone(),
        context_id: ctx.clone(),
        artifact: Artifact {
            artifact_id: "a-9".to_string(),
            name: None,
            description: None,
            parts: vec![Part::text("solo".to_string())],
            last_chunk: None,
        },
        append: Some(true),
        last_chunk: None,
    });
    let out = apply_event(Some(&cur), &tid, &ctx, &ev).unwrap();
    let arts = out.artifacts.unwrap();
    assert_eq!(arts.len(), 1);
    assert_eq!(arts[0].parts.len(), 1);
}

#[test]
fn manager_writes_through_to_store() {
    let mut store = InMemoryTaskStore::new();
    let mut manager = TaskManager::new("t-1".to_string(), "c-1".to_string());
    let t = base("t-1", "c-1", TaskState::Working);
    let saved = manager.save_task_event(&mut store, &Event::Task(t)).unwrap();
    assert_eq!(saved.id, "t-1");
    let got = store.get(&"t-1".to_string()).unwrap().unwrap();
    assert_eq!(got.status.state, TaskState::Working);
}

#[test]
fn update_with_message_appends() {
    let manager = TaskManager::new("t-1".to_string(), "c-1".to_string());
    let t = base("t-1", "c-1", TaskState::Submitted);
    let out = manager.update_with_message(msg("hello, store"), t);
    assert_eq!(out.history.unwrap().len(), 1);
}

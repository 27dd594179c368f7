//! The protocol's core data types: messages, artifacts, tasks and their
//! status. Each carries a view into the ghost models of `views`.

use vstd::prelude::*;
use crate::views::{ArtifactView, MessageView, PartView, TaskStatusView, TaskView};
use crate::idgen::new_uuid;

verus! {

/// States a task can be in; four of them are terminal.
#[derive(Clone, Copy, PartialEq, Eq, Structural, Debug)]
pub enum TaskState {
    Submitted,
    Working,
    InputRequired,
    Completed,
    Canceled,
    Failed,
    Rejected,
    AuthRequired,
    Unknown,
}

impl TaskState {
    /// A terminal state admits no further transitions.
    pub open spec fn is_terminal_spec(self) -> bool {
        self == TaskState::Completed || self == TaskState::Canceled
            || self == TaskState::Failed || self == TaskState::Rejected
    }

    pub fn is_terminal(self) -> (r: bool)
        ensures
            r == self.is_terminal_spec(),
    {
        match self {
            TaskState::Completed => true,
            TaskState::Canceled => true,
            TaskState::Failed => true,
            TaskState::Rejected => true,
            _ => false,
        }
    }
}

/// Who authored a message.
#[derive(Clone, Copy, PartialEq, Eq, Structural, Debug)]
pub enum Role {
    User,
    Agent,
}

/// Where an API key is carried on the wire.
#[derive(Clone, Copy, PartialEq, Eq, Structural, Debug)]
pub enum In {
    Header,
    Query,
    Cookie,
}

/// One piece of a message or artifact: text, a file reference, or
/// structured data carried as text.
#[derive(Debug)]
pub enum Part {
    Text { text: String },
    File { name: Option<String>, uri: Option<String> },
    Data { data: String },
}

impl View for Part {
    type V = PartView;

    open spec fn view(&self) -> PartView {
        match self {
            Part::Text { text } => PartView::Text { text: text@ },
            Part::File { name, uri } => PartView::File {
                name: name.deep_view(),
                uri: uri.deep_view(),
            },
            Part::Data { data } => PartView::Data { data: data@ },
        }
    }
}

impl DeepView for Part {
    type V = PartView;

    open spec fn deep_view(&self) -> PartView {
        self.view()
    }
}

impl Clone for Part {
    fn clone(&self) -> (res: Self)
        ensures
            res@ == self@,
    {
        match self {
            Part::Text { text } => Part::Text { text: text.clone() },
            Part::File { name, uri } => Part::File {
                name: clone_opt_string(name),
                uri: clone_opt_string(uri),
            },
            Part::Data { data } => Part::Data { data: data.clone() },
        }
    }
}

impl Part {
    /// A plain text part.
    pub fn text(text: String) -> (r: Part)
        ensures
            r@ == (PartView::Text { text: text@ }),
    {
        Part::Text { text }
    }
}

/// An immutable message exchanged between user and agent.
#[derive(Debug)]
pub struct Message {
    pub role: Role,
    pub parts: Vec<Part>,
    pub message_id: String,
    pub task_id: Option<String>,
    pub context_id: Option<String>,
}

impl View for Message {
    type V = MessageView;

    open spec fn view(&self) -> MessageView {
        MessageView {
            role: self.role,
            parts: self.parts.deep_view(),
            message_id: self.message_id@,
            task_id: self.task_id.deep_view(),
            context_id: self.context_id.deep_view(),
        }
    }
}

impl DeepView for Message {
    type V = MessageView;

    open spec fn deep_view(&self) -> MessageView {
        self.view()
    }
}

impl Clone for Message {
    fn clone(&self) -> (res: Self)
        ensures
            res@ == self@,
    {
        let parts = clone_parts(&self.parts);
        Message {
            role: self.role,
            parts,
            message_id: self.message_id.clone(),
            task_id: clone_opt_string(&self.task_id),
            context_id: clone_opt_string(&self.context_id),
        }
    }
}

impl Message {
    /// A fresh message with a generated id and no task or context binding.
    pub fn new(role: Role, parts: Vec<Part>) -> (r: Message)
        ensures
            r@.role == role,
            r@.parts == parts.deep_view(),
            r@.task_id is None,
            r@.context_id is None,
            r@.message_id.len() == 36,
    {
        Message { role, parts, message_id: new_uuid(), task_id: None, context_id: None }
    }

    pub fn with_task_id(self, task_id: String) -> (r: Message)
        ensures
            r@ == (MessageView { task_id: Some(task_id@), ..self@ }),
    {
        Message { task_id: Some(task_id), ..self }
    }

    pub fn with_context_id(self, context_id: String) -> (r: Message)
        ensures
            r@ == (MessageView { context_id: Some(context_id@), ..self@ }),
    {
        Message { context_id: Some(context_id), ..self }
    }
}

/// A task's current state with an optional attached message and an
/// optional RFC 3339 timestamp.
#[derive(Debug)]
pub struct TaskStatus {
    pub state: TaskState,
    pub message: Option<Message>,
    pub timestamp: Option<String>,
}

impl View for TaskStatus {
    type V = TaskStatusView;

    open spec fn view(&self) -> TaskStatusView {
        TaskStatusView {
            state: self.state,
            message: self.message.deep_view(),
            timestamp: self.timestamp.deep_view(),
        }
    }
}

impl DeepView for TaskStatus {
    type V = TaskStatusView;

    open spec fn deep_view(&self) -> TaskStatusView {
        self.view()
    }
}

impl Clone for TaskStatus {
    fn clone(&self) -> (res: Self)
        ensures
            res@ == self@,
    {
        TaskStatus {
            state: self.state,
            message: match &self.message {
                Some(m) => Some(m.clone()),
                None => None,
            },
            timestamp: clone_opt_string(&self.timestamp),
        }
    }
}

impl TaskStatus {
    /// A bare status in the given state.
    pub fn new(state: TaskState) -> (r: TaskStatus)
        ensures
            r@ == (TaskStatusView { state, message: None, timestamp: None }),
    {
        TaskStatus { state, message: None, timestamp: None }
    }
}

/// A named, ordered sequence of parts produced by a task; may arrive
/// in chunks that are assembled in order.
#[derive(Debug)]
pub struct Artifact {
    pub artifact_id: String,
    pub name: Option<String>,
    pub description: Option<String>,
    pub parts: Vec<Part>,
    pub last_chunk: Option<bool>,
}

impl View for Artifact {
    type V = ArtifactView;

    open spec fn view(&self) -> ArtifactView {
        ArtifactView {
            artifact_id: self.artifact_id@,
            name: self.name.deep_view(),
            description: self.description.deep_view(),
            parts: self.parts.deep_view(),
            last_chunk: self.last_chunk,
        }
    }
}

impl DeepView for Artifact {
    type V = ArtifactView;

    open spec fn deep_view(&self) -> ArtifactView {
        self.view()
    }
}

impl Clone for Artifact {
    fn clone(&self) -> (res: Self)
        ensures
            res@ == self@,
    {
        Artifact {
            artifact_id: self.artifact_id.clone(),
            name: clone_opt_string(&self.name),
            description: clone_opt_string(&self.description),
            parts: clone_parts(&self.parts),
            last_chunk: if let Some(b) = self.last_chunk { Some(b) } else { None },
        }
    }
}

/// The aggregate root: a unit of work identified by an opaque id and
/// grouped with related tasks by a context id. `metadata` is carried
/// as opaque text.
#[derive(Debug)]
pub struct Task {
    pub id: String,
    pub context_id: String,
    pub kind: String,
    pub status: TaskStatus,
    pub artifacts: Option<Vec<Artifact>>,
    pub history: Option<Vec<Message>>,
    pub metadata: Option<String>,
}

impl View for Task {
    type V = TaskView;

    open spec fn view(&self) -> TaskView {
        TaskView {
            id: self.id@,
            context_id: self.context_id@,
            kind: self.kind@,
            status: self.status@,
            artifacts: self.artifacts.deep_view(),
            history: self.history.deep_view(),
            metadata: self.metadata.deep_view(),
        }
    }
}

impl DeepView for Task {
    type V = TaskView;

    open spec fn deep_view(&self) -> TaskView {
        self.view()
    }
}

impl Clone for Task {
    fn clone(&self) -> (res: Self)
        ensures
            res@ == self@,
    {
        Task {
            id: self.id.clone(),
            context_id: self.context_id.clone(),
            kind: self.kind.clone(),
            status: self.status.clone(),
            artifacts: match &self.artifacts {
                Some(a) => Some(clone_artifacts(a)),
                None => None,
            },
            history: match &self.history {
                Some(h) => Some(clone_messages(h)),
                None => None,
            },
            metadata: clone_opt_string(&self.metadata),
        }
    }
}

impl Task {
    /// A fresh task with a generated id, in the given status, with no
    /// history, artifacts or metadata.
    pub fn new(context_id: String, status: TaskStatus) -> (r: Task)
        ensures
            r@.context_id == context_id@,
            r@.kind == "task"@,
            r@.status == status@,
            r@.artifacts is None,
            r@.history is None,
            r@.metadata is None,
            r@.id.len() == 36,
    {
        Task {
            id: new_uuid(),
            context_id,
            kind: String::from_str("task"),
            status,
            artifacts: None,
            history: None,
            metadata: None,
        }
    }

    pub fn with_task_id(self, id: String) -> (r: Task)
        ensures
            r@ == (TaskView { id: id@, ..self@ }),
    {
        Task { id, ..self }
    }
}

pub(crate) fn clone_opt_string(o: &Option<String>) -> (r: Option<String>)
    ensures
        r.deep_view() == o.deep_view(),
{
    match o {
        Some(s) => Some(s.clone()),
        None => None,
    }
}

pub(crate) fn clone_parts(v: &Vec<Part>) -> (r: Vec<Part>)
    ensures
        r.deep_view() == v.deep_view(),
{
    let r = v.clone();
    proof {
        assert forall|i: int| 0 <= i < r@.len() implies #[trigger] r@[i]@ == v@[i]@ by {
            assert(cloned::<Part>(v@[i], r@[i]));
        }
        assert(r.deep_view() =~= v.deep_view());
    }
    r
}

pub(crate) fn clone_messages(v: &Vec<Message>) -> (r: Vec<Message>)
    ensures
        r.deep_view() == v.deep_view(),
{
    let r = v.clone();
    proof {
        assert forall|i: int| 0 <= i < r@.len() implies #[trigger] r@[i]@ == v@[i]@ by {
            assert(cloned::<Message>(v@[i], r@[i]));
        }
        assert(r.deep_view() =~= v.deep_view());
    }
    r
}

pub(crate) fn clone_artifacts(v: &Vec<Artifact>) -> (r: Vec<Artifact>)
    ensures
        r.deep_view() == v.deep_view(),
{
    let r = v.clone();
    proof {
        assert forall|i: int| 0 <= i < r@.len() implies #[trigger] r@[i]@ == v@[i]@ by {
            assert(cloned::<Artifact>(v@[i], r@[i]));
        }
        assert(r.deep_view() =~= v.deep_view());
    }
    r
}

} // verus!

//! Mathematical models of the data types: each executable type has a
//! ghost counterpart over `Seq` and plain values, reached through its
//! `view`. Contracts throughout the crate speak of these.

use vstd::prelude::*;
use crate::core_types::{Role, TaskState};

verus! {

#[verifier::ext_equal]
pub enum PartView {
    Text { text: Seq<char> },
    File { name: Option<Seq<char>>, uri: Option<Seq<char>> },
    Data { data: Seq<char> },
}

#[verifier::ext_equal]
pub struct MessageView {
    pub role: Role,
    pub parts: Seq<PartView>,
    pub message_id: Seq<char>,
    pub task_id: Option<Seq<char>>,
    pub context_id: Option<Seq<char>>,
}

#[verifier::ext_equal]
pub struct TaskStatusView {
    pub state: TaskState,
    pub message: Option<MessageView>,
    pub timestamp: Option<Seq<char>>,
}

#[verifier::ext_equal]
pub struct ArtifactView {
    pub artifact_id: Seq<char>,
    pub name: Option<Seq<char>>,
    pub description: Option<Seq<char>>,
    pub parts: Seq<PartView>,
    pub last_chunk: Option<bool>,
}

#[verifier::ext_equal]
pub struct TaskView {
    pub id: Seq<char>,
    pub context_id: Seq<char>,
    pub kind: Seq<char>,
    pub status: TaskStatusView,
    pub artifacts: Option<Seq<ArtifactView>>,
    pub history: Option<Seq<MessageView>>,
    pub metadata: Option<Seq<char>>,
}

#[verifier::ext_equal]
pub struct PushAuthInfoView {
    pub schemes: Seq<Seq<char>>,
    pub credentials: Option<Seq<char>>,
}

#[verifier::ext_equal]
pub struct PushConfigView {
    pub id: Option<Seq<char>>,
    pub url: Seq<char>,
    pub token: Option<Seq<char>>,
    pub authentication: Option<PushAuthInfoView>,
}

#[verifier::ext_equal]
pub struct TaskPushConfigView {
    pub task_id: Seq<char>,
    pub config: PushConfigView,
}

#[verifier::ext_equal]
pub struct StatusUpdateView {
    pub task_id: Seq<char>,
    pub context_id: Seq<char>,
    pub status: TaskStatusView,
    pub is_final: bool,
}

#[verifier::ext_equal]
pub struct ArtifactUpdateView {
    pub task_id: Seq<char>,
    pub context_id: Seq<char>,
    pub artifact: ArtifactView,
    pub append: Option<bool>,
    pub last_chunk: Option<bool>,
}

#[verifier::ext_equal]
pub enum EventView {
    Task(TaskView),
    TaskStatusUpdate(StatusUpdateView),
    TaskArtifactUpdate(ArtifactUpdateView),
    Message(MessageView),
}

} // verus!

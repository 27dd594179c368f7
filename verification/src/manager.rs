//! The task lifecycle engine: events are folded into a coherent task
//! aggregate, and every applied event is written through to the store
//! before the caller continues.

use vstd::prelude::*;
use crate::core_types::{
    Artifact, Message, Task, TaskState, TaskStatus, clone_artifacts, clone_messages,
    clone_opt_string, clone_parts,
};
use crate::errors::A2AError;
use crate::models::{Event, TaskArtifactUpdateEvent, TaskStatusUpdateEvent};
use crate::task_store::{TaskStore, upsert_task};
use crate::views::{ArtifactUpdateView, ArtifactView, EventView, StatusUpdateView, TaskView};

verus! {

/// The empty aggregate a first event starts from: Submitted, nothing
/// recorded yet.
pub open spec fn base_task_view(id: Seq<char>, context_id: Seq<char>) -> TaskView {
    TaskView {
        id,
        context_id,
        kind: "task"@,
        status: crate::views::TaskStatusView {
            state: TaskState::Submitted,
            message: None,
            timestamp: None,
        },
        artifacts: None,
        history: None,
        metadata: None,
    }
}

/// A status update: the status is set and its attached message, if
/// any, is appended to the history.
pub open spec fn with_status(t: TaskView, e: StatusUpdateView) -> TaskView {
    let h = match e.status.message {
        Some(m) => Some(
            match t.history {
                Some(h0) => h0.push(m),
                None => Seq::empty().push(m),
            },
        ),
        None => t.history,
    };
    TaskView { status: e.status, history: h, ..t }
}

/// A bare message: appended to the history; the status is untouched.
pub open spec fn with_message(t: TaskView, m: crate::views::MessageView) -> TaskView {
    let h = match t.history {
        Some(h0) => h0.push(m),
        None => Seq::empty().push(m),
    };
    TaskView { history: Some(h), ..t }
}

pub open spec fn has_artifact(s: Seq<ArtifactView>, id: Seq<char>) -> bool {
    exists|i: int| 0 <= i < s.len() && s[i].artifact_id == id
}

/// Whole-artifact insert or replace, keyed by artifact id.
pub open spec fn upsert_artifact(s: Seq<ArtifactView>, a: ArtifactView) -> Seq<ArtifactView> {
    if has_artifact(s, a.artifact_id) {
        s.map_values(|x: ArtifactView| if x.artifact_id == a.artifact_id { a } else { x })
    } else {
        s.push(a)
    }
}

/// Chunk arrival: the incoming parts are appended to the stored
/// artifact's parts, and its last-chunk flag follows the event.
pub open spec fn append_artifact(
    s: Seq<ArtifactView>,
    a: ArtifactView,
    last_chunk: Option<bool>,
) -> Seq<ArtifactView> {
    s.map_values(
        |x: ArtifactView| if x.artifact_id == a.artifact_id {
            ArtifactView { parts: x.parts + a.parts, last_chunk, ..x }
        } else {
            x
        },
    )
}

/// An artifact update: append to a known artifact when asked to,
/// otherwise insert or replace it wholesale.
pub open spec fn with_artifact(t: TaskView, e: ArtifactUpdateView) -> TaskView {
    let arts = match t.artifacts {
        Some(a) => a,
        None => Seq::empty(),
    };
    let arts2 = if e.append == Some(true) && has_artifact(arts, e.artifact.artifact_id) {
        append_artifact(arts, e.artifact, e.last_chunk)
    } else {
        upsert_artifact(arts, ArtifactView { last_chunk: e.last_chunk, ..e.artifact })
    };
    TaskView { artifacts: Some(arts2), ..t }
}

/// What one event does to the aggregate. A snapshot replaces it; a
/// status update is rejected on a terminal task and when a final event
/// carries a non-terminal state; messages and artifact chunks accrue.
/// Events that reach an empty aggregate start it from `base_task_view`
/// under the manager's ids.
pub open spec fn apply_event_spec(
    task_id: Seq<char>,
    context_id: Seq<char>,
    cur: Option<TaskView>,
    ev: EventView,
) -> Result<TaskView, A2AError> {
    match ev {
        EventView::Task(t) => Ok(t),
        EventView::TaskStatusUpdate(e) => {
            if cur matches Some(t) && t.status.state.is_terminal_spec() {
                Err(A2AError::TaskNotCancelable)
            } else if e.is_final && !e.status.state.is_terminal_spec() {
                Err(A2AError::InvalidParams)
            } else {
                match cur {
                    Some(t) => Ok(with_status(t, e)),
                    None => Ok(with_status(base_task_view(task_id, context_id), e)),
                }
            }
        },
        EventView::TaskArtifactUpdate(e) => match cur {
            Some(t) => Ok(with_artifact(t, e)),
            None => Ok(with_artifact(base_task_view(task_id, context_id), e)),
        },
        EventView::Message(m) => match cur {
            Some(t) => Ok(with_message(t, m)),
            None => Ok(with_message(base_task_view(task_id, context_id), m)),
        },
    }
}

/// Law: once a task is terminal, any further status update is
/// rejected, whatever it carries.
pub proof fn lemma_terminal_is_frozen(
    task_id: Seq<char>,
    context_id: Seq<char>,
    t: TaskView,
    e: StatusUpdateView,
)
    requires
        t.status.state.is_terminal_spec(),
    ensures
        apply_event_spec(task_id, context_id, Some(t), EventView::TaskStatusUpdate(e))
            == Err::<TaskView, A2AError>(A2AError::TaskNotCancelable),
{
}

/// Serializes events for one task into its aggregate; each applied
/// event is persisted before control returns.
pub struct TaskManager {
    pub task_id: String,
    pub context_id: String,
    pub current: Option<Task>,
}

impl TaskManager {
    pub fn new(task_id: String, context_id: String) -> (r: TaskManager)
        ensures
            r.task_id@ == task_id@,
            r.context_id@ == context_id@,
            r.current is None,
    {
        TaskManager { task_id, context_id, current: None }
    }

    /// Append a message to a task's history without touching its
    /// status.
    pub fn update_with_message(&self, message: Message, task: Task) -> (r: Task)
        ensures
            r@ == with_message(task@, message@),
    {
        message_applied(&task, message)
    }

    /// Apply one event to the aggregate and write the result through
    /// the store. Rejections leave both untouched; a storage failure
    /// discards the in-memory aggregate, so the next read starts from
    /// the store.
    pub fn save_task_event<S: TaskStore>(&mut self, store: &mut S, event: &Event) -> (r: Result<
        Task,
        A2AError,
    >)
        requires
            old(store).wf(),
        ensures
            final(store).wf(),
            final(store).fallible() == old(store).fallible(),
            final(self).task_id == old(self).task_id,
            final(self).context_id == old(self).context_id,
            match r {
                Ok(t) => {
                    &&& apply_event_spec(
                        old(self).task_id@,
                        old(self).context_id@,
                        old(self).current.deep_view(),
                        event@,
                    ) == Ok::<TaskView, A2AError>(t@)
                    &&& final(store).tasks() == upsert_task(old(store).tasks(), t@)
                    &&& final(self).current.deep_view() == Some(t@)
                },
                Err(e) => final(store).tasks() == old(store).tasks() && ((apply_event_spec(
                    old(self).task_id@,
                    old(self).context_id@,
                    old(self).current.deep_view(),
                    event@,
                ) == Err::<TaskView, A2AError>(e) && final(self).current == old(self).current) || (
                e is Internal && old(store).fallible() && final(self).current is None)),
            },
    {
        let applied = match &self.current {
            Some(t) => apply_event(Some(t), &self.task_id, &self.context_id, event),
            None => apply_event(None, &self.task_id, &self.context_id, event),
        };
        match applied {
            Ok(t) => {
                let persisted = t.clone();
                match store.save(persisted) {
                    Ok(()) => {
                        let out = t.clone();
                        self.current = Some(t);
                        Ok(out)
                    },
                    Err(e) => {
                        self.current = None;
                        Err(e)
                    },
                }
            },
            Err(e) => Err(e),
        }
    }
}

/// Apply one event to an aggregate value, creating it from the given
/// ids when none exists yet.
pub fn apply_event(cur: Option<&Task>, task_id: &String, context_id: &String, event: &Event) -> (r:
    Result<Task, A2AError>)
    ensures
        ({
            let out = apply_event_spec(task_id@, context_id@, cur.deep_view(), event@);
            match r {
                Ok(t) => out == Ok::<TaskView, A2AError>(t@),
                Err(e) => out == Err::<TaskView, A2AError>(e),
            }
        }),
{
    match event {
        Event::Task(t) => Ok(t.clone()),
        Event::TaskStatusUpdate(e) => {
            match cur {
                Some(t) => {
                    if t.status.state.is_terminal() {
                        return Err(A2AError::TaskNotCancelable);
                    }
                    if e.is_final && !e.status.state.is_terminal() {
                        return Err(A2AError::InvalidParams);
                    }
                    Ok(status_applied(t, e))
                },
                None => {
                    if e.is_final && !e.status.state.is_terminal() {
                        return Err(A2AError::InvalidParams);
                    }
                    let base = base_task(task_id, context_id);
                    Ok(status_applied(&base, e))
                },
            }
        },
        Event::TaskArtifactUpdate(e) => {
            match cur {
                Some(t) => Ok(artifact_applied(t, e)),
                None => {
                    let base = base_task(task_id, context_id);
                    Ok(artifact_applied(&base, e))
                },
            }
        },
        Event::Message(m) => {
            match cur {
                Some(t) => Ok(message_applied(t, m.clone())),
                None => {
                    let base = base_task(task_id, context_id);
                    Ok(message_applied(&base, m.clone()))
                },
            }
        },
    }
}

fn base_task(task_id: &String, context_id: &String) -> (r: Task)
    ensures
        r@ == base_task_view(task_id@, context_id@),
{
    Task {
        id: task_id.clone(),
        context_id: context_id.clone(),
        kind: String::from_str("task"),
        status: TaskStatus { state: TaskState::Submitted, message: None, timestamp: None },
        artifacts: None,
        history: None,
        metadata: None,
    }
}

fn status_applied(t: &Task, e: &TaskStatusUpdateEvent) -> (r: Task)
    ensures
        r@ == with_status(t@, e@),
{
    let history: Option<Vec<Message>> = match &e.status.message {
        Some(m) => {
            let mut h: Vec<Message> = match &t.history {
                Some(h0) => clone_messages(h0),
                None => Vec::new(),
            };
            h.push(m.clone());
            proof {
                assert(h.deep_view() =~= with_status(t@, e@).history->0);
            }
            Some(h)
        },
        None => match &t.history {
            Some(h0) => Some(clone_messages(h0)),
            None => None,
        },
    };
    let r = Task {
        id: t.id.clone(),
        context_id: t.context_id.clone(),
        kind: t.kind.clone(),
        status: e.status.clone(),
        artifacts: match &t.artifacts {
            Some(a) => Some(clone_artifacts(a)),
            None => None,
        },
        history,
        metadata: clone_opt_string(&t.metadata),
    };
    proof {
        assert(r@ =~= with_status(t@, e@));
    }
    r
}

fn message_applied(t: &Task, m: Message) -> (r: Task)
    ensures
        r@ == with_message(t@, m@),
{
    let mut h: Vec<Message> = match &t.history {
        Some(h0) => clone_messages(h0),
        None => Vec::new(),
    };
    let ghost mv = m@;
    h.push(m);
    proof {
        assert(h.deep_view() =~= with_message(t@, mv).history->0);
    }
    let r = Task {
        id: t.id.clone(),
        context_id: t.context_id.clone(),
        kind: t.kind.clone(),
        status: t.status.clone(),
        artifacts: match &t.artifacts {
            Some(a) => Some(clone_artifacts(a)),
            None => None,
        },
        history: Some(h),
        metadata: clone_opt_string(&t.metadata),
    };
    proof {
        assert(r@ =~= with_message(t@, mv));
    }
    r
}

/// The artifact an insert or replace stores: the event's artifact with
/// its last-chunk flag taken from the event.
fn event_artifact(e: &TaskArtifactUpdateEvent) -> (r: Artifact)
    ensures
        r@ == (ArtifactView { last_chunk: e.last_chunk, ..e.artifact@ }),
{
    Artifact {
        artifact_id: e.artifact.artifact_id.clone(),
        name: clone_opt_string(&e.artifact.name),
        description: clone_opt_string(&e.artifact.description),
        parts: clone_parts(&e.artifact.parts),
        last_chunk: e.last_chunk,
    }
}

#[verifier::loop_isolation(false)]
fn artifact_applied(t: &Task, e: &TaskArtifactUpdateEvent) -> (r: Task)
    ensures
        r@ == with_artifact(t@, e@),
{
    let arts: Vec<Artifact> = match &t.artifacts {
        Some(a) => clone_artifacts(a),
        None => Vec::new(),
    };
    let ghost s = match t@.artifacts {
        Some(a) => a,
        None => Seq::<ArtifactView>::empty(),
    };
    proof {
        assert(arts.deep_view() =~= s);
    }
    let append_mode = match e.append {
        Some(true) => true,
        _ => false,
    };

    let mut found = false;
    let mut i: usize = 0;
    while i < arts.len()
        invariant
            i <= arts.len(),
            found == has_artifact(s.take(i as int), e.artifact@.artifact_id),
        decreases arts.len() - i,
    {
        if arts[i].artifact_id == e.artifact.artifact_id {
            found = true;
        }
        proof {
            let t1 = s.take(i as int + 1);
            assert(t1.take(i as int) =~= s.take(i as int));
            if s[i as int].artifact_id == e.artifact@.artifact_id {
                assert(t1[i as int] == s[i as int]);
                assert(has_artifact(t1, e.artifact@.artifact_id));
            } else {
                assert forall|k: int|
                    0 <= k < t1.len() && t1[k].artifact_id == e.artifact@.artifact_id implies
                    has_artifact(s.take(i as int), e.artifact@.artifact_id) by {
                    if k < i {
                        assert(s.take(i as int)[k] == t1[k]);
                    }
                }
            }
        }
        i += 1;
    }
    proof {
        assert(s.take(s.len() as int) =~= s);
        assert(found == has_artifact(s, e.artifact@.artifact_id));
    }

    let new_arts: Vec<Artifact> = if append_mode && found {
        let ghost f = |x: ArtifactView| if x.artifact_id == e.artifact@.artifact_id {
            ArtifactView { parts: x.parts + e.artifact@.parts, last_chunk: e.last_chunk, ..x }
        } else {
            x
        };
        let mut out: Vec<Artifact> = Vec::new();
        let mut j: usize = 0;
        while j < arts.len()
            invariant
                j <= arts.len(),
                out.deep_view() =~= s.take(j as int).map_values(f),
            decreases arts.len() - j,
        {
            if arts[j].artifact_id == e.artifact.artifact_id {
                let mut parts = clone_parts(&arts[j].parts);
                let mut incoming = clone_parts(&e.artifact.parts);
                parts.append(&mut incoming);
                proof {
                    assert(parts.deep_view() =~= s[j as int].parts + e.artifact@.parts);
                }
                out.push(Artifact {
                    artifact_id: arts[j].artifact_id.clone(),
                    name: clone_opt_string(&arts[j].name),
                    description: clone_opt_string(&arts[j].description),
                    parts,
                    last_chunk: e.last_chunk,
                });
            } else {
                out.push(arts[j].clone());
            }
            proof {
                assert(s.take(j as int + 1).map_values(f) =~= s.take(j as int).map_values(f).push(
                    f(s[j as int]),
                ));
                assert(out.deep_view() =~= s.take(j as int + 1).map_values(f));
            }
            j += 1;
        }
        proof {
            assert(out.deep_view() =~= s.map_values(f));
            assert(out.deep_view() =~= append_artifact(s, e.artifact@, e.last_chunk));
        }
        out
    } else {
        let replacement = event_artifact(e);
        let ghost av = replacement@;
        let ghost f = |x: ArtifactView| if x.artifact_id == av.artifact_id {
            av
        } else {
            x
        };
        let mut out: Vec<Artifact> = Vec::new();
        let mut j: usize = 0;
        while j < arts.len()
            invariant
                j <= arts.len(),
                av == (ArtifactView { last_chunk: e.last_chunk, ..e.artifact@ }),
                out.deep_view() =~= s.take(j as int).map_values(f),
            decreases arts.len() - j,
        {
            if arts[j].artifact_id == e.artifact.artifact_id {
                out.push(event_artifact(e));
            } else {
                out.push(arts[j].clone());
            }
            proof {
                assert(s.take(j as int + 1).map_values(f) =~= s.take(j as int).map_values(f).push(
                    f(s[j as int]),
                ));
                assert(out.deep_view() =~= s.take(j as int + 1).map_values(f));
            }
            j += 1;
        }
        let mut out = out;
        proof {
            assert(out.deep_view() =~= s.map_values(f));
        }
        if !found {
            out.push(event_artifact(e));
            proof {
                assert forall|k: int| 0 <= k < s.len() implies f(#[trigger] s[k]) == s[k] by {
                    assert(!has_artifact(s, av.artifact_id) ==> s[k].artifact_id
                        != av.artifact_id);
                }
                assert(s.map_values(f) =~= s);
                assert(out.deep_view() =~= s.push(av));
                assert(out.deep_view() =~= upsert_artifact(s, av));
            }
        } else {
            proof {
                assert(out.deep_view() =~= upsert_artifact(s, av));
            }
        }
        out
    };
    let r = Task {
        id: t.id.clone(),
        context_id: t.context_id.clone(),
        kind: t.kind.clone(),
        status: t.status.clone(),
        artifacts: Some(new_arts),
        history: match &t.history {
            Some(h0) => Some(clone_messages(h0)),
            None => None,
        },
        metadata: clone_opt_string(&t.metadata),
    };
    proof {
        assert(r@ =~= with_artifact(t@, e@));
    }
    r
}

} // verus!

//! The default request handler: orchestrates the task store, the push
//! config store, the push sender and the task manager for each
//! protocol method. Push dispatch failures never fail a request.

use vstd::prelude::*;
use crate::core_types::{
    Message, Task, TaskState, TaskStatus, clone_artifacts, clone_messages, clone_opt_string,
};
use crate::errors::A2AError;
use crate::idgen::{new_uuid, now_rfc3339};
use crate::manager::TaskManager;
use crate::models::{
    DeleteTaskPushNotificationConfigParams, Event, MessageSendParams, MessageSendResult,
    PushNotificationConfig, ServerCallContext, TaskIdParams, TaskPushNotificationConfig,
    TaskPushNotificationConfigQueryParams, TaskQueryParams, TaskStatusUpdateEvent,
};
use crate::push_sender::PushNotificationSender;
use crate::push_store::{PushNotificationConfigStore, configs_of, drop_config, upsert_config};
use crate::task_store::{TaskStore, has_task, task_with_id, upsert_task};
use crate::views::{
    EventView, PushConfigView, StatusUpdateView, TaskPushConfigView, TaskStatusView, TaskView,
};

verus! {

/// `tasks/get` honors the history cap: only the most recent messages
/// stay.
pub open spec fn trim_history(t: TaskView, history_length: Option<usize>) -> TaskView {
    match history_length {
        Some(n) => match t.history {
            Some(h) => TaskView {
                history: Some(
                    h.skip(
                        if h.len() <= n as int {
                            0
                        } else {
                            h.len() - n as int
                        },
                    ),
                ),
                ..t
            },
            None => t,
        },
        None => t,
    }
}

/// Cancellation: the state becomes Canceled and the status timestamp
/// is refreshed; everything else is kept.
pub open spec fn canceled_with(t: TaskView, ts: Seq<char>) -> TaskView {
    TaskView {
        status: TaskStatusView {
            state: TaskState::Canceled,
            message: t.status.message,
            timestamp: Some(ts),
        },
        ..t
    }
}

/// Coordinates the pluggable stores and the optional push subsystem.
/// The push config store and the sender may each be absent; methods
/// that need them say so in their errors.
pub struct DefaultRequestHandler<
    S: TaskStore,
    C: PushNotificationConfigStore,
    P: PushNotificationSender,
> {
    pub task_store: S,
    pub push_config_store: Option<C>,
    pub push_sender: Option<P>,
}

impl<S: TaskStore, C: PushNotificationConfigStore, P: PushNotificationSender> DefaultRequestHandler<
    S,
    C,
    P,
> {
    pub open spec fn wf(&self) -> bool {
        &&& self.task_store.wf()
        &&& match self.push_config_store {
            Some(c) => c.wf(),
            None => true,
        }
    }

    /// Whether every store present can report failures at all.
    pub open spec fn infallible(&self) -> bool {
        &&& !self.task_store.fallible()
        &&& match self.push_config_store {
            Some(c) => !c.fallible(),
            None => true,
        }
    }

    pub open spec fn stores_shape_kept(pre: Self, post: Self) -> bool {
        &&& post.task_store.fallible() == pre.task_store.fallible()
        &&& post.push_config_store is Some == pre.push_config_store is Some
    }

    /// What `message/send` did to the config store: recorded the
    /// supplied config under the task's id, or left it alone.
    pub open spec fn config_store_effect(
        pre: Self,
        post: Self,
        params: MessageSendParams,
        tid: Seq<char>,
    ) -> bool {
        match (pre.push_config_store, post.push_config_store) {
            (Some(c0), Some(c1)) => match params.configuration {
                Some(conf) => match conf.push_notification_config {
                    Some(cfg) => c1.infos() == c0.infos().insert(
                        tid,
                        upsert_config(configs_of(c0.infos(), tid), cfg@),
                    ),
                    None => c1.infos() == c0.infos(),
                },
                None => c1.infos() == c0.infos(),
            },
            (None, None) => true,
            _ => false,
        }
    }

    /// The task `message/send` records and returns: Working, history
    /// exactly the message, ids taken from the message or fresh.
    pub open spec fn sent_task_ok(params: MessageSendParams, t: TaskView) -> bool {
        &&& t.status == (TaskStatusView { state: TaskState::Working, message: None, timestamp: None })
        &&& t.kind == "task"@
        &&& t.history == Some(seq![params.message@])
        &&& t.artifacts is None
        &&& t.metadata is None
        &&& match params.message.task_id {
            Some(id) => t.id == id@,
            None => t.id.len() == 36,
        }
        &&& match params.message.context_id {
            Some(c) => t.context_id == c@,
            None => t.context_id.len() == 36,
        }
    }

    pub open spec fn message_send_post(
        pre: Self,
        post: Self,
        params: MessageSendParams,
        r: Result<MessageSendResult, A2AError>,
    ) -> bool {
        match r {
            Ok(out) => match out {
                MessageSendResult::Task(t) => {
                    &&& Self::sent_task_ok(params, t@)
                    &&& post.task_store.tasks() == upsert_task(pre.task_store.tasks(), t@)
                    &&& Self::config_store_effect(pre, post, params, t@.id)
                },
                MessageSendResult::Message(_) => false,
            },
            Err(e) => e is Internal && !pre.infallible() && post.task_store.tasks()
                == pre.task_store.tasks(),
        }
    }

    pub open spec fn message_stream_post(
        pre: Self,
        post: Self,
        params: MessageSendParams,
        r: Result<Vec<Event>, A2AError>,
    ) -> bool {
        &&& post.task_store.tasks() == pre.task_store.tasks()
        &&& match r {
            Ok(evs) => {
                &&& evs.deep_view().len() == 2
                &&& evs.deep_view()[0] matches EventView::Task(t) && {
                    &&& Self::sent_task_ok(params, t)
                    &&& evs.deep_view()[1] == EventView::TaskStatusUpdate(
                        StatusUpdateView {
                            task_id: t.id,
                            context_id: t.context_id,
                            status: TaskStatusView {
                                state: TaskState::Completed,
                                message: None,
                                timestamp: None,
                            },
                            is_final: true,
                        },
                    )
                    &&& Self::config_store_effect(pre, post, params, t.id)
                }
            },
            Err(e) => e is Internal && !pre.infallible(),
        }
    }

    pub open spec fn get_task_post(
        &self,
        params: TaskQueryParams,
        r: Result<Option<Task>, A2AError>,
    ) -> bool {
        match r {
            Ok(Some(t)) => has_task(self.task_store.tasks(), params.id@) && t@ == trim_history(
                task_with_id(self.task_store.tasks(), params.id@),
                params.history_length,
            ),
            Ok(None) => !has_task(self.task_store.tasks(), params.id@),
            Err(e) => e is Internal && self.task_store.fallible(),
        }
    }

    pub open spec fn cancel_task_post(
        pre: Self,
        post: Self,
        params: TaskIdParams,
        r: Result<Option<Task>, A2AError>,
    ) -> bool {
        &&& post.push_config_store == pre.push_config_store
        &&& match r {
            Ok(Some(t)) => {
                &&& has_task(pre.task_store.tasks(), params.id@)
                &&& !task_with_id(
                    pre.task_store.tasks(),
                    params.id@,
                ).status.state.is_terminal_spec()
                &&& (exists|ts: Seq<char>|
                    t@ == canceled_with(task_with_id(pre.task_store.tasks(), params.id@), ts))
                &&& post.task_store.tasks() == upsert_task(pre.task_store.tasks(), t@)
            },
            Ok(None) => !has_task(pre.task_store.tasks(), params.id@) && post.task_store.tasks()
                == pre.task_store.tasks(),
            Err(e) => match e {
                A2AError::TaskNotCancelable => {
                    &&& has_task(pre.task_store.tasks(), params.id@)
                    &&& task_with_id(
                        pre.task_store.tasks(),
                        params.id@,
                    ).status.state.is_terminal_spec()
                    &&& post.task_store.tasks() == pre.task_store.tasks()
                },
                A2AError::Internal(_) => pre.task_store.fallible() && post.task_store.tasks()
                    == pre.task_store.tasks(),
                _ => false,
            },
        }
    }

    pub open spec fn set_push_post(
        pre: Self,
        post: Self,
        params: TaskPushNotificationConfig,
        r: Result<TaskPushNotificationConfig, A2AError>,
    ) -> bool {
        &&& post.task_store == pre.task_store
        &&& match r {
            Ok(p) => {
                &&& p@ == params@
                &&& match (pre.push_config_store, post.push_config_store) {
                    (Some(c0), Some(c1)) => c1.infos() == c0.infos().insert(
                        params.task_id@,
                        upsert_config(
                            configs_of(c0.infos(), params.task_id@),
                            params.push_notification_config@,
                        ),
                    ),
                    _ => false,
                }
            },
            Err(e) => match e {
                A2AError::UnsupportedOperation(_) => pre.push_config_store is None,
                A2AError::Internal(_) => match pre.push_config_store {
                    Some(c) => c.fallible(),
                    None => false,
                },
                _ => false,
            },
        }
    }

    /// Reading an existing config is owed to succeed: this does not
    /// consult the card's capabilities at all.
    pub open spec fn get_push_post(
        &self,
        params: TaskPushNotificationConfigQueryParams,
        r: Result<TaskPushNotificationConfig, A2AError>,
    ) -> bool {
        match r {
            Ok(tpc) => match self.push_config_store {
                Some(c) => {
                    &&& configs_of(c.infos(), params.task_id@).len() > 0
                    &&& tpc@ == (TaskPushConfigView {
                        task_id: params.task_id@,
                        config: configs_of(c.infos(), params.task_id@)[0],
                    })
                },
                None => false,
            },
            Err(e) => match e {
                A2AError::UnsupportedOperation(_) => self.push_config_store is None,
                A2AError::Internal(_) => match self.push_config_store {
                    Some(c) => configs_of(c.infos(), params.task_id@).len() == 0 || c.fallible(),
                    None => false,
                },
                _ => false,
            },
        }
    }

    pub open spec fn list_push_post(
        &self,
        params: TaskIdParams,
        r: Result<Vec<TaskPushNotificationConfig>, A2AError>,
    ) -> bool {
        match r {
            Ok(v) => match self.push_config_store {
                Some(c) => v.deep_view() == configs_of(c.infos(), params.id@).map_values(
                    |cf: PushConfigView| TaskPushConfigView { task_id: params.id@, config: cf },
                ),
                None => false,
            },
            Err(e) => match e {
                A2AError::UnsupportedOperation(_) => self.push_config_store is None,
                A2AError::Internal(_) => match self.push_config_store {
                    Some(c) => c.fallible(),
                    None => false,
                },
                _ => false,
            },
        }
    }

    pub open spec fn delete_push_post(
        pre: Self,
        post: Self,
        params: DeleteTaskPushNotificationConfigParams,
        r: Result<(), A2AError>,
    ) -> bool {
        &&& post.task_store == pre.task_store
        &&& match r {
            Ok(()) => match (pre.push_config_store, post.push_config_store) {
                (Some(c0), Some(c1)) => c1.infos() == if c0.infos().contains_key(params.id@) {
                    c0.infos().insert(
                        params.id@,
                        drop_config(c0.infos()[params.id@], params.push_notification_config_id@),
                    )
                } else {
                    c0.infos()
                },
                _ => false,
            },
            Err(e) => match e {
                A2AError::UnsupportedOperation(_) => pre.push_config_store is None,
                A2AError::Internal(_) => match pre.push_config_store {
                    Some(c) => c.fallible(),
                    None => false,
                },
                _ => false,
            },
        }
    }

    /// A resubscription re-attaches by yielding the task's current
    /// snapshot as the single event of the new stream.
    pub open spec fn resubscribe_post(
        &self,
        params: TaskIdParams,
        r: Result<Vec<Event>, A2AError>,
    ) -> bool {
        match r {
            Ok(evs) => has_task(self.task_store.tasks(), params.id@) && evs.deep_view() == seq![
                EventView::Task(task_with_id(self.task_store.tasks(), params.id@)),
            ],
            Err(e) => match e {
                A2AError::TaskNotFound => !has_task(self.task_store.tasks(), params.id@),
                A2AError::Internal(_) => self.task_store.fallible(),
                _ => false,
            },
        }
    }

    pub fn new(task_store: S, push_config_store: Option<C>, push_sender: Option<P>) -> (r: Self)
        ensures
            r.task_store == task_store,
            r.push_config_store == push_config_store,
            r.push_sender == push_sender,
    {
        DefaultRequestHandler { task_store, push_config_store, push_sender }
    }

    /// Fires the sender if one is wired; whatever the outcome, the
    /// request goes on and the stores are untouched.
    fn send_push_notification_if_needed(&mut self, task: &Task)
        ensures
            final(self).task_store == old(self).task_store,
            final(self).push_config_store == old(self).push_config_store,
    {
        match &mut self.push_sender {
            Some(sender) => {
                let _outcome = sender.send_notification(task);
            },
            None => (),
        }
    }

    /// Records the supplied config, if both it and the store are
    /// present.
    fn store_supplied_config(&mut self, task_id: &String, params: &MessageSendParams) -> (r: Result<
        (),
        A2AError,
    >)
        requires
            old(self).wf(),
        ensures
            final(self).wf(),
            final(self).task_store == old(self).task_store,
            final(self).push_sender == old(self).push_sender,
            Self::stores_shape_kept(*old(self), *final(self)),
            match r {
                Ok(()) => Self::config_store_effect(*old(self), *final(self), *params, task_id@),
                Err(e) => {
                    &&& e is Internal
                    &&& !old(self).infallible()
                    &&& match (old(self).push_config_store, final(self).push_config_store) {
                        (Some(c0), Some(c1)) => c1.infos() == c0.infos(),
                        _ => false,
                    }
                },
            },
    {
        let cfg_opt: Option<PushNotificationConfig> = match &params.configuration {
            Some(conf) => match &conf.push_notification_config {
                Some(cfg) => Some(cfg.clone()),
                None => None,
            },
            None => None,
        };
        match cfg_opt {
            Some(cfg) => match &mut self.push_config_store {
                Some(cs) => cs.set_info(task_id, cfg),
                None => Ok(()),
            },
            None => Ok(()),
        }
    }

    /// `message/send`: upsert a Working task holding the message,
    /// store the supplied push config, fire one push.
    pub fn on_message_send(
        &mut self,
        params: MessageSendParams,
        _context: Option<&ServerCallContext>,
    ) -> (r: Result<MessageSendResult, A2AError>)
        requires
            old(self).wf(),
        ensures
            final(self).wf(),
            Self::stores_shape_kept(*old(self), *final(self)),
            Self::message_send_post(*old(self), *final(self), params, r),
    {
        let task_id: String = match &params.message.task_id {
            Some(id) => id.clone(),
            None => new_uuid(),
        };
        let context_id: String = match &params.message.context_id {
            Some(c) => c.clone(),
            None => new_uuid(),
        };

        match self.store_supplied_config(&task_id, &params) {
            Ok(()) => (),
            Err(e) => {
                return Err(e);
            },
        }

        let mut history: Vec<Message> = Vec::new();
        history.push(params.message.clone());
        proof {
            assert(history.deep_view() =~= seq![params.message@]);
        }
        let mut manager = TaskManager::new(task_id.clone(), context_id.clone());
        let task = Task {
            id: task_id,
            context_id,
            kind: String::from_str("task"),
            status: TaskStatus::new(TaskState::Working),
            artifacts: None,
            history: Some(history),
            metadata: None,
        };
        let event = Event::Task(task);
        match manager.save_task_event(&mut self.task_store, &event) {
            Ok(t) => {
                self.send_push_notification_if_needed(&t);
                Ok(MessageSendResult::Task(t))
            },
            Err(e) => Err(e),
        }
    }

    /// `message/stream`: the same work as `message/send`, modelled as
    /// an ordered event sequence; a push is dispatched per emitted
    /// event, and nothing is persisted by the mock execution.
    #[verifier::loop_isolation(false)]
    pub fn on_message_send_stream(
        &mut self,
        params: MessageSendParams,
        _context: Option<&ServerCallContext>,
    ) -> (r: Result<Vec<Event>, A2AError>)
        requires
            old(self).wf(),
        ensures
            final(self).wf(),
            Self::stores_shape_kept(*old(self), *final(self)),
            Self::message_stream_post(*old(self), *final(self), params, r),
    {
        let task_id: String = match &params.message.task_id {
            Some(id) => id.clone(),
            None => new_uuid(),
        };
        let context_id: String = match &params.message.context_id {
            Some(c) => c.clone(),
            None => new_uuid(),
        };

        match self.store_supplied_config(&task_id, &params) {
            Ok(()) => (),
            Err(e) => {
                return Err(e);
            },
        }

        let mut history: Vec<Message> = Vec::new();
        history.push(params.message.clone());
        proof {
            assert(history.deep_view() =~= seq![params.message@]);
        }
        let task = Task {
            id: task_id.clone(),
            context_id: context_id.clone(),
            kind: String::from_str("task"),
            status: TaskStatus::new(TaskState::Working),
            artifacts: None,
            history: Some(history),
            metadata: None,
        };
        let snapshot = task.clone();
        let closing = TaskStatusUpdateEvent::new(
            task_id,
            context_id,
            TaskStatus::new(TaskState::Completed),
            true,
        );
        let mut events: Vec<Event> = Vec::new();
        events.push(Event::Task(task));
        events.push(Event::TaskStatusUpdate(closing));

        let ghost mid = *self;
        let mut i: usize = 0;
        while i < events.len()
            invariant
                self.task_store == mid.task_store,
                self.push_config_store == mid.push_config_store,
            decreases events.len() - i,
        {
            self.send_push_notification_if_needed(&snapshot);
            i += 1;
        }
        Ok(events)
    }

    /// `tasks/get`: read-only, trimming history to the requested cap.
    pub fn on_get_task(
        &self,
        params: TaskQueryParams,
        _context: Option<&ServerCallContext>,
    ) -> (r: Result<Option<Task>, A2AError>)
        requires
            self.wf(),
        ensures
            self.get_task_post(params, r),
    {
        match self.task_store.get(&params.id) {
            Ok(Some(t)) => Ok(Some(trim_task(t, params.history_length))),
            Ok(None) => Ok(None),
            Err(e) => Err(e),
        }
    }

    /// `tasks/cancel`: transition to Canceled unless the task is
    /// already terminal; persist, then fire one push.
    pub fn on_cancel_task(
        &mut self,
        params: TaskIdParams,
        _context: Option<&ServerCallContext>,
    ) -> (r: Result<Option<Task>, A2AError>)
        requires
            old(self).wf(),
        ensures
            final(self).wf(),
            Self::stores_shape_kept(*old(self), *final(self)),
            Self::cancel_task_post(*old(self), *final(self), params, r),
    {
        match self.task_store.get(&params.id) {
            Ok(Some(t)) => {
                if t.status.state.is_terminal() {
                    return Err(A2AError::TaskNotCancelable);
                }
                let ts = now_rfc3339();
                let ghost tsv = ts@;
                let canceled = Task {
                    id: t.id.clone(),
                    context_id: t.context_id.clone(),
                    kind: t.kind.clone(),
                    status: TaskStatus {
                        state: TaskState::Canceled,
                        message: match &t.status.message {
                            Some(m) => Some(m.clone()),
                            None => None,
                        },
                        timestamp: Some(ts),
                    },
                    artifacts: match &t.artifacts {
                        Some(a) => Some(clone_artifacts(a)),
                        None => None,
                    },
                    history: match &t.history {
                        Some(h) => Some(clone_messages(h)),
                        None => None,
                    },
                    metadata: clone_opt_string(&t.metadata),
                };
                proof {
                    assert(canceled@ =~= canceled_with(t@, tsv));
                }
                let persisted = canceled.clone();
                match self.task_store.save(persisted) {
                    Ok(()) => {
                        self.send_push_notification_if_needed(&canceled);
                        Ok(Some(canceled))
                    },
                    Err(e) => Err(e),
                }
            },
            Ok(None) => Ok(None),
            Err(e) => Err(e),
        }
    }

    /// `tasks/pushNotificationConfig/set`: upsert and echo.
    pub fn on_set_task_push_notification_config(
        &mut self,
        params: TaskPushNotificationConfig,
        _context: Option<&ServerCallContext>,
    ) -> (r: Result<TaskPushNotificationConfig, A2AError>)
        requires
            old(self).wf(),
        ensures
            final(self).wf(),
            Self::stores_shape_kept(*old(self), *final(self)),
            Self::set_push_post(*old(self), *final(self), params, r),
    {
        match &mut self.push_config_store {
            Some(store) => {
                let cfg = params.push_notification_config.clone();
                match store.set_info(&params.task_id, cfg) {
                    Ok(()) => Ok(params),
                    Err(e) => Err(e),
                }
            },
            None => Err(
                A2AError::unsupported_operation("Push notification config store not configured"),
            ),
        }
    }

    /// `tasks/pushNotificationConfig/get`: the first stored config for
    /// the task; never gated on capabilities.
    pub fn on_get_task_push_notification_config(
        &self,
        params: TaskPushNotificationConfigQueryParams,
        _context: Option<&ServerCallContext>,
    ) -> (r: Result<TaskPushNotificationConfig, A2AError>)
        requires
            self.wf(),
        ensures
            self.get_push_post(params, r),
    {
        match &self.push_config_store {
            Some(store) => {
                match store.get_info(&params.task_id) {
                    Ok(mut configs) => {
                        if configs.len() > 0 {
                            let first = configs.remove(0);
                            proof {
                                assert(first@ == configs_of(
                                    store.infos(),
                                    params.task_id@,
                                )[0]);
                            }
                            Ok(TaskPushNotificationConfig::new(params.task_id, first))
                        } else {
                            Err(A2AError::internal("Push notification config not found"))
                        }
                    },
                    Err(e) => Err(e),
                }
            },
            None => Err(
                A2AError::unsupported_operation("Push notification config store not configured"),
            ),
        }
    }

    /// `tasks/pushNotificationConfig/list`: every stored config for
    /// the task, each bound to the task id.
    #[verifier::loop_isolation(false)]
    pub fn on_list_task_push_notification_config(
        &self,
        params: TaskIdParams,
        _context: Option<&ServerCallContext>,
    ) -> (r: Result<Vec<TaskPushNotificationConfig>, A2AError>)
        requires
            self.wf(),
        ensures
            self.list_push_post(params, r),
    {
        match &self.push_config_store {
            Some(store) => {
                match store.get_info(&params.id) {
                    Ok(configs) => {
                        let ghost s = configs.deep_view();
                        let ghost f = |cf: PushConfigView| TaskPushConfigView {
                            task_id: params.id@,
                            config: cf,
                        };
                        let mut out: Vec<TaskPushNotificationConfig> = Vec::new();
                        let mut i: usize = 0;
                        while i < configs.len()
                            invariant
                                i <= configs.len(),
                                s == configs.deep_view(),
                                out.deep_view() =~= s.take(i as int).map_values(f),
                            decreases configs.len() - i,
                        {
                            out.push(
                                TaskPushNotificationConfig::new(
                                    params.id.clone(),
                                    configs[i].clone(),
                                ),
                            );
                            proof {
                                assert(s.take(i as int + 1).map_values(f) =~= s.take(
                                    i as int,
                                ).map_values(f).push(f(s[i as int])));
                                assert(out.deep_view() =~= s.take(i as int + 1).map_values(f));
                            }
                            i += 1;
                        }
                        proof {
                            assert(s.take(s.len() as int) =~= s);
                            assert(out.deep_view() =~= s.map_values(f));
                        }
                        Ok(out)
                    },
                    Err(e) => Err(e),
                }
            },
            None => Err(
                A2AError::unsupported_operation("Push notification config store not configured"),
            ),
        }
    }

    /// `tasks/pushNotificationConfig/delete`: remove one config by id.
    pub fn on_delete_task_push_notification_config(
        &mut self,
        params: DeleteTaskPushNotificationConfigParams,
        _context: Option<&ServerCallContext>,
    ) -> (r: Result<(), A2AError>)
        requires
            old(self).wf(),
        ensures
            final(self).wf(),
            Self::stores_shape_kept(*old(self), *final(self)),
            Self::delete_push_post(*old(self), *final(self), params, r),
    {
        match &mut self.push_config_store {
            Some(store) => store.delete_info(&params.id, Some(&params.push_notification_config_id)),
            None => Err(
                A2AError::unsupported_operation("Push notification config store not configured"),
            ),
        }
    }

    /// `tasks/resubscribe`: re-attach by yielding the current snapshot
    /// as the single event.
    pub fn on_resubscribe_to_task(
        &self,
        params: TaskIdParams,
        _context: Option<&ServerCallContext>,
    ) -> (r: Result<Vec<Event>, A2AError>)
        requires
            self.wf(),
        ensures
            self.resubscribe_post(params, r),
    {
        match self.task_store.get(&params.id) {
            Ok(Some(t)) => {
                let mut events: Vec<Event> = Vec::new();
                events.push(Event::Task(t));
                proof {
                    assert(events.deep_view() =~= seq![
                        EventView::Task(task_with_id(self.task_store.tasks(), params.id@)),
                    ]);
                }
                Ok(events)
            },
            Ok(None) => Err(A2AError::TaskNotFound),
            Err(e) => Err(e),
        }
    }
}

/// Keep only the most recent messages, per the requested cap.
#[verifier::loop_isolation(false)]
fn trim_task(t: Task, history_length: Option<usize>) -> (r: Task)
    ensures
        r@ == trim_history(t@, history_length),
{
    let n: usize = match history_length {
        Some(n) => n,
        None => {
            proof {
                assert(t@ =~= trim_history(t@, history_length));
            }
            return t;
        },
    };
    let needs_trim = match &t.history {
        Some(h) => h.len() > n,
        None => false,
    };
    if !needs_trim {
        proof {
            assert(t@ =~= trim_history(t@, history_length));
        }
        return t;
    }
    let trimmed: Vec<Message> = match &t.history {
        Some(h) => {
            let ghost hs = h.deep_view();
            let start: usize = h.len() - n;
            let mut out: Vec<Message> = Vec::new();
            let mut i: usize = start;
            while i < h.len()
                invariant
                    start <= i <= h.len(),
                    hs == h.deep_view(),
                    out.deep_view() =~= hs.subrange(start as int, i as int),
                decreases h.len() - i,
            {
                out.push(h[i].clone());
                proof {
                    assert(out.deep_view() =~= hs.subrange(start as int, i as int + 1));
                }
                i += 1;
            }
            proof {
                assert(out.deep_view() =~= hs.skip(start as int));
            }
            out
        },
        None => Vec::new(),
    };
    let r = Task {
        id: t.id.clone(),
        context_id: t.context_id.clone(),
        kind: t.kind.clone(),
        status: t.status.clone(),
        artifacts: match &t.artifacts {
            Some(a) => Some(clone_artifacts(a)),
            None => None,
        },
        history: Some(trimmed),
        metadata: clone_opt_string(&t.metadata),
    };
    proof {
        assert(r@ =~= trim_history(t@, history_length));
    }
    r
}

} // verus!

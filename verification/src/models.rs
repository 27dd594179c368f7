//! Protocol surface types: webhook configurations, request parameters,
//! stream events, and the agent card with its security schemes.

use vstd::prelude::*;
use crate::core_types::{Artifact, In, Message, Task, TaskStatus, clone_opt_string};
use crate::views::{
    ArtifactUpdateView, EventView, PushAuthInfoView, PushConfigView, StatusUpdateView,
    TaskPushConfigView,
};

verus! {

/// Authentication details a webhook recipient expects.
#[derive(Debug)]
pub struct PushNotificationAuthenticationInfo {
    pub schemes: Vec<String>,
    pub credentials: Option<String>,
}

impl View for PushNotificationAuthenticationInfo {
    type V = PushAuthInfoView;

    open spec fn view(&self) -> PushAuthInfoView {
        PushAuthInfoView { schemes: self.schemes.deep_view(), credentials: self.credentials.deep_view() }
    }
}

impl DeepView for PushNotificationAuthenticationInfo {
    type V = PushAuthInfoView;

    open spec fn deep_view(&self) -> PushAuthInfoView {
        self.view()
    }
}

impl Clone for PushNotificationAuthenticationInfo {
    fn clone(&self) -> (res: Self)
        ensures
            res@ == self@,
    {
        let schemes = self.schemes.clone();
        proof {
            assert forall|i: int| 0 <= i < schemes@.len() implies #[trigger] schemes@[i]@
                == self.schemes@[i]@ by {
                assert(cloned::<String>(self.schemes@[i], schemes@[i]));
            }
            assert(schemes.deep_view() =~= self.schemes.deep_view());
        }
        PushNotificationAuthenticationInfo {
            schemes,
            credentials: clone_opt_string(&self.credentials),
        }
    }
}

/// A client-supplied webhook: where to deliver task snapshots, an
/// optional bearer token for the delivery header, and optional
/// authentication details. `id` makes the config addressable within
/// one task's set.
#[derive(Debug)]
pub struct PushNotificationConfig {
    pub id: Option<String>,
    pub url: String,
    pub token: Option<String>,
    pub authentication: Option<PushNotificationAuthenticationInfo>,
}

impl View for PushNotificationConfig {
    type V = PushConfigView;

    open spec fn view(&self) -> PushConfigView {
        PushConfigView {
            id: self.id.deep_view(),
            url: self.url@,
            token: self.token.deep_view(),
            authentication: self.authentication.deep_view(),
        }
    }
}

impl DeepView for PushNotificationConfig {
    type V = PushConfigView;

    open spec fn deep_view(&self) -> PushConfigView {
        self.view()
    }
}

impl Clone for PushNotificationConfig {
    fn clone(&self) -> (res: Self)
        ensures
            res@ == self@,
    {
        PushNotificationConfig {
            id: clone_opt_string(&self.id),
            url: self.url.clone(),
            token: clone_opt_string(&self.token),
            authentication: match &self.authentication {
                Some(a) => Some(a.clone()),
                None => None,
            },
        }
    }
}

/// A webhook configuration bound to the task it serves.
#[derive(Debug)]
pub struct TaskPushNotificationConfig {
    pub task_id: String,
    pub push_notification_config: PushNotificationConfig,
}

impl View for TaskPushNotificationConfig {
    type V = TaskPushConfigView;

    open spec fn view(&self) -> TaskPushConfigView {
        TaskPushConfigView { task_id: self.task_id@, config: self.push_notification_config@ }
    }
}

impl DeepView for TaskPushNotificationConfig {
    type V = TaskPushConfigView;

    open spec fn deep_view(&self) -> TaskPushConfigView {
        self.view()
    }
}

impl Clone for TaskPushNotificationConfig {
    fn clone(&self) -> (res: Self)
        ensures
            res@ == self@,
    {
        TaskPushNotificationConfig {
            task_id: self.task_id.clone(),
            push_notification_config: self.push_notification_config.clone(),
        }
    }
}

impl TaskPushNotificationConfig {
    pub fn new(task_id: String, config: PushNotificationConfig) -> (r: TaskPushNotificationConfig)
        ensures
            r@ == (TaskPushConfigView { task_id: task_id@, config: config@ }),
    {
        TaskPushNotificationConfig { task_id, push_notification_config: config }
    }
}

/// Options accompanying `message/send`.
#[derive(Debug)]
pub struct MessageSendConfiguration {
    pub push_notification_config: Option<PushNotificationConfig>,
    pub blocking: Option<bool>,
    pub history_length: Option<usize>,
}

impl MessageSendConfiguration {
    pub fn new() -> (r: MessageSendConfiguration)
        ensures
            r.push_notification_config is None,
            r.blocking is None,
            r.history_length is None,
    {
        MessageSendConfiguration { push_notification_config: None, blocking: None, history_length: None }
    }

    pub fn with_push_notification_config(self, config: PushNotificationConfig) -> (r:
        MessageSendConfiguration)
        ensures
            r.push_notification_config matches Some(c) && c@ == config@,
            r.blocking == self.blocking,
            r.history_length == self.history_length,
    {
        MessageSendConfiguration { push_notification_config: Some(config), ..self }
    }
}

/// Parameters of `message/send` and `message/stream`.
#[derive(Debug)]
pub struct MessageSendParams {
    pub message: Message,
    pub configuration: Option<MessageSendConfiguration>,
}

impl MessageSendParams {
    pub fn new(message: Message) -> (r: MessageSendParams)
        ensures
            r.message@ == message@,
            r.configuration is None,
    {
        MessageSendParams { message, configuration: None }
    }

    pub fn with_configuration(self, configuration: MessageSendConfiguration) -> (r:
        MessageSendParams)
        ensures
            r.message@ == self.message@,
            r.configuration == Some(configuration),
    {
        MessageSendParams { configuration: Some(configuration), ..self }
    }
}

/// Parameters of `tasks/get`: an id and an optional cap on how much
/// history to return.
#[derive(Debug)]
pub struct TaskQueryParams {
    pub id: String,
    pub history_length: Option<usize>,
}

/// Parameters naming just a task.
#[derive(Debug)]
pub struct TaskIdParams {
    pub id: String,
}

/// Parameters of `tasks/pushNotificationConfig/get`.
#[derive(Debug)]
pub struct TaskPushNotificationConfigQueryParams {
    pub task_id: String,
    pub push_notification_config_id: Option<String>,
}

/// Parameters of `tasks/pushNotificationConfig/delete`.
#[derive(Debug)]
pub struct DeleteTaskPushNotificationConfigParams {
    pub id: String,
    pub push_notification_config_id: String,
}

/// A status transition observed on a task; `is_final` marks the close
/// of the stream for that task.
#[derive(Debug)]
pub struct TaskStatusUpdateEvent {
    pub task_id: String,
    pub context_id: String,
    pub status: TaskStatus,
    pub is_final: bool,
}

impl View for TaskStatusUpdateEvent {
    type V = StatusUpdateView;

    open spec fn view(&self) -> StatusUpdateView {
        StatusUpdateView {
            task_id: self.task_id@,
            context_id: self.context_id@,
            status: self.status@,
            is_final: self.is_final,
        }
    }
}

impl TaskStatusUpdateEvent {
    pub fn new(task_id: String, context_id: String, status: TaskStatus, is_final: bool) -> (r:
        TaskStatusUpdateEvent)
        ensures
            r@ == (StatusUpdateView {
                task_id: task_id@,
                context_id: context_id@,
                status: status@,
                is_final,
            }),
    {
        TaskStatusUpdateEvent { task_id, context_id, status, is_final }
    }
}

/// An artifact chunk observed on a task.
#[derive(Debug)]
pub struct TaskArtifactUpdateEvent {
    pub task_id: String,
    pub context_id: String,
    pub artifact: Artifact,
    pub append: Option<bool>,
    pub last_chunk: Option<bool>,
}

impl View for TaskArtifactUpdateEvent {
    type V = ArtifactUpdateView;

    open spec fn view(&self) -> ArtifactUpdateView {
        ArtifactUpdateView {
            task_id: self.task_id@,
            context_id: self.context_id@,
            artifact: self.artifact@,
            append: self.append,
            last_chunk: self.last_chunk,
        }
    }
}

/// One element of the ordered event sequence a streaming method yields.
#[derive(Debug)]
pub enum Event {
    Task(Task),
    TaskStatusUpdate(TaskStatusUpdateEvent),
    TaskArtifactUpdate(TaskArtifactUpdateEvent),
    Message(Message),
}

impl View for Event {
    type V = EventView;

    open spec fn view(&self) -> EventView {
        match self {
            Event::Task(t) => EventView::Task(t@),
            Event::TaskStatusUpdate(e) => EventView::TaskStatusUpdate(e@),
            Event::TaskArtifactUpdate(e) => EventView::TaskArtifactUpdate(e@),
            Event::Message(m) => EventView::Message(m@),
        }
    }
}

impl DeepView for Event {
    type V = EventView;

    open spec fn deep_view(&self) -> EventView {
        self.view()
    }
}

/// What `message/send` returns: a task snapshot or a bare message.
#[derive(Debug)]
pub enum MessageSendResult {
    Task(Task),
    Message(Message),
}

/// Per-call server-side context a transport hands through; the
/// handler itself never reads it.
#[derive(Debug)]
pub struct ServerCallContext {
    pub metadata: Vec<(String, String)>,
}

impl ServerCallContext {
    pub fn new() -> (r: ServerCallContext)
        ensures
            r.metadata@.len() == 0,
    {
        ServerCallContext { metadata: Vec::new() }
    }
}

/// What the agent advertises it can do.
#[derive(Clone, Copy, Debug)]
pub struct AgentCapabilities {
    pub streaming: Option<bool>,
    pub push_notifications: Option<bool>,
    pub state_transition_history: Option<bool>,
}

impl AgentCapabilities {
    pub fn new() -> (r: AgentCapabilities)
        ensures
            r.streaming is None,
            r.push_notifications is None,
            r.state_transition_history is None,
    {
        AgentCapabilities { streaming: None, push_notifications: None, state_transition_history: None }
    }

    pub fn with_streaming(self, streaming: bool) -> (r: AgentCapabilities)
        ensures
            r == (AgentCapabilities { streaming: Some(streaming), ..self }),
    {
        AgentCapabilities { streaming: Some(streaming), ..self }
    }

    pub fn with_push_notifications(self, push_notifications: bool) -> (r: AgentCapabilities)
        ensures
            r == (AgentCapabilities { push_notifications: Some(push_notifications), ..self }),
    {
        AgentCapabilities { push_notifications: Some(push_notifications), ..self }
    }
}

/// HTTP authentication scheme: `bearer`, `basic`, or another token
/// scheme named by `scheme`.
#[derive(Debug)]
pub struct HTTPAuthSecurityScheme {
    pub scheme: String,
    pub bearer_format: Option<String>,
    pub description: Option<String>,
}

/// API-key scheme: the parameter's name and where it is carried.
#[derive(Debug)]
pub struct APIKeySecurityScheme {
    pub name: String,
    pub in_: In,
    pub description: Option<String>,
}

/// A named way of authenticating to the agent.
#[derive(Debug)]
pub enum SecurityScheme {
    HTTPAuth(HTTPAuthSecurityScheme),
    APIKey(APIKeySecurityScheme),
    OAuth2 { description: Option<String> },
    OpenIdConnect { open_id_connect_url: String },
    MutualTLS,
}

/// One entry of the card's scheme table: a scheme under its id.
#[derive(Debug)]
pub struct SchemeEntry {
    pub id: String,
    pub scheme: SecurityScheme,
}

/// One conjunct of a security requirement: a scheme id and the scopes
/// asked of it.
#[derive(Debug)]
pub struct RequirementEntry {
    pub scheme_id: String,
    pub scopes: Vec<String>,
}

/// A conjunction of schemes that must all be satisfied together.
#[derive(Debug)]
pub struct SecurityRequirement {
    pub entries: Vec<RequirementEntry>,
}

/// An advertised ability of the agent.
#[derive(Debug)]
pub struct AgentSkill {
    pub id: String,
    pub name: String,
    pub description: String,
}

/// The agent's declarative advertisement: identity, supported modes,
/// capabilities, skills, and how callers may authenticate. `security`
/// is a disjunction of requirements, each a conjunction of schemes.
#[derive(Debug)]
pub struct AgentCard {
    pub name: String,
    pub description: String,
    pub url: String,
    pub version: String,
    pub default_input_modes: Vec<String>,
    pub default_output_modes: Vec<String>,
    pub capabilities: AgentCapabilities,
    pub skills: Vec<AgentSkill>,
    pub security_schemes: Vec<SchemeEntry>,
    pub security: Vec<SecurityRequirement>,
    pub supports_authenticated_extended_card: Option<bool>,
}

impl AgentCard {
    pub fn new(
        name: String,
        description: String,
        url: String,
        version: String,
        default_input_modes: Vec<String>,
        default_output_modes: Vec<String>,
        capabilities: AgentCapabilities,
        skills: Vec<AgentSkill>,
    ) -> (r: AgentCard)
        ensures
            r.name@ == name@,
            r.description@ == description@,
            r.url@ == url@,
            r.version@ == version@,
            r.capabilities == capabilities,
            r.security_schemes@.len() == 0,
            r.security@.len() == 0,
            r.supports_authenticated_extended_card is None,
    {
        AgentCard {
            name,
            description,
            url,
            version,
            default_input_modes,
            default_output_modes,
            capabilities,
            skills,
            security_schemes: Vec::new(),
            security: Vec::new(),
            supports_authenticated_extended_card: None,
        }
    }

    pub fn with_security_schemes(self, security_schemes: Vec<SchemeEntry>) -> (r: AgentCard)
        ensures
            r == (AgentCard { security_schemes, ..self }),
    {
        AgentCard { security_schemes, ..self }
    }

    pub fn with_security(self, security: Vec<SecurityRequirement>) -> (r: AgentCard)
        ensures
            r == (AgentCard { security, ..self }),
    {
        AgentCard { security, ..self }
    }

    pub fn with_supports_authenticated_extended_card(self, supported: bool) -> (r: AgentCard)
        ensures
            r == (AgentCard {
                supports_authenticated_extended_card: Some(supported),
                ..self
            }),
    {
        AgentCard { supports_authenticated_extended_card: Some(supported), ..self }
    }
}

} // verus!

//! How a tool talks to its surroundings.
//!
//! A tool call is a dialogue. The tool's `next` function looks at the call and
//! at the events so far and says what to do next: an [`Action`] that the
//! surroundings perform and answer with an [`Event`], or the [`ToolResult`]
//! that ends the call. An answer that does not fit its action counts as the
//! action's failure.

use crate::json::{list_view, object_view, Field, Json, JsonView};
use crate::principal::{caller_view, Principal, PrincipalView};
use crate::text::{copy_opt, opt, own, texts};
use vstd::prelude::*;

verus! {

// ---------------------------------------------------------------------
// Results
// ---------------------------------------------------------------------

/// The outcome of a tool call.
#[allow(inconsistent_fields)]
#[derive(Debug, PartialEq)]
pub enum ToolResult {
    Success { data: Option<Json>, message: Option<String> },
    Invalid { field: Option<String>, message: String },
    NotFound { resource: String, identifier: String, hint: Option<String> },
    Conflict { reason: String },
    PermissionDenied { reason: String },
    Failed { message: String },
}

/// The meaning of an outcome.
#[allow(inconsistent_fields)]
pub enum ResultView {
    Success { data: Option<JsonView>, message: Option<Seq<char>> },
    Invalid { field: Option<Seq<char>>, message: Seq<char> },
    NotFound { resource: Seq<char>, identifier: Seq<char>, hint: Option<Seq<char>> },
    Conflict { reason: Seq<char> },
    PermissionDenied { reason: Seq<char> },
    Failed { message: Seq<char> },
}

impl View for ToolResult {
    type V = ResultView;

    open spec fn view(&self) -> ResultView {
        match *self {
            ToolResult::Success { data, message } => ResultView::Success {
                data: match data {
                    Some(d) => Some(d@),
                    None => None,
                },
                message: opt(message),
            },
            ToolResult::Invalid { field, message } => ResultView::Invalid {
                field: opt(field),
                message: message@,
            },
            ToolResult::NotFound { resource, identifier, hint } => ResultView::NotFound {
                resource: resource@,
                identifier: identifier@,
                hint: opt(hint),
            },
            ToolResult::Conflict { reason } => ResultView::Conflict { reason: reason@ },
            ToolResult::PermissionDenied { reason } => ResultView::PermissionDenied {
                reason: reason@,
            },
            ToolResult::Failed { message } => ResultView::Failed { message: message@ },
        }
    }
}

/// A copy of an outcome.
pub fn copy_result(r: &ToolResult) -> (c: ToolResult)
    ensures
        c@ == r@,
{
    match r {
        ToolResult::Success { data, message } => ToolResult::Success {
            data: match data {
                Some(d) => Some(d.copy()),
                None => None,
            },
            message: copy_opt(message),
        },
        ToolResult::Invalid { field, message } => ToolResult::Invalid {
            field: copy_opt(field),
            message: own(message.as_str()),
        },
        ToolResult::NotFound { resource, identifier, hint } => ToolResult::NotFound {
            resource: own(resource.as_str()),
            identifier: own(identifier.as_str()),
            hint: copy_opt(hint),
        },
        ToolResult::Conflict { reason } => ToolResult::Conflict { reason: own(reason.as_str()) },
        ToolResult::PermissionDenied { reason } => ToolResult::PermissionDenied {
            reason: own(reason.as_str()),
        },
        ToolResult::Failed { message } => ToolResult::Failed { message: own(message.as_str()) },
    }
}

// ---------------------------------------------------------------------
// Rows
// ---------------------------------------------------------------------

/// An agent's stored row.
#[derive(Debug)]
pub struct AgentRow {
    pub token: String,
    pub agent_id: String,
    pub created_at: String,
    pub status: String,
    pub current_task: Option<String>,
    pub working_directory: String,
    pub color: Option<String>,
    pub terminated_at: Option<String>,
    pub updated_at: Option<String>,
    pub aoe_session_id: Option<String>,
    pub auto_event_loop: bool,
    pub last_event_seen_at: Option<String>,
    pub last_activity_at: Option<String>,
    pub agent_role: String,
    pub profile: Option<String>,
    pub profile_updated_at: Option<String>,
    pub profile_reviewed_at: Option<String>,
    pub profile_updated_by: Option<String>,
}

/// The meaning of an agent's row.
pub struct AgentRowView {
    pub token: Seq<char>,
    pub agent_id: Seq<char>,
    pub created_at: Seq<char>,
    pub status: Seq<char>,
    pub current_task: Option<Seq<char>>,
    pub working_directory: Seq<char>,
    pub color: Option<Seq<char>>,
    pub terminated_at: Option<Seq<char>>,
    pub updated_at: Option<Seq<char>>,
    pub aoe_session_id: Option<Seq<char>>,
    pub auto_event_loop: bool,
    pub last_event_seen_at: Option<Seq<char>>,
    pub last_activity_at: Option<Seq<char>>,
    pub agent_role: Seq<char>,
    pub profile: Option<Seq<char>>,
    pub profile_updated_at: Option<Seq<char>>,
    pub profile_reviewed_at: Option<Seq<char>>,
    pub profile_updated_by: Option<Seq<char>>,
}

impl View for AgentRow {
    type V = AgentRowView;

    open spec fn view(&self) -> AgentRowView {
        AgentRowView {
            token: self.token@,
            agent_id: self.agent_id@,
            created_at: self.created_at@,
            status: self.status@,
            current_task: opt(self.current_task),
            working_directory: self.working_directory@,
            color: opt(self.color),
            terminated_at: opt(self.terminated_at),
            updated_at: opt(self.updated_at),
            aoe_session_id: opt(self.aoe_session_id),
            auto_event_loop: self.auto_event_loop,
            last_event_seen_at: opt(self.last_event_seen_at),
            last_activity_at: opt(self.last_activity_at),
            agent_role: self.agent_role@,
            profile: opt(self.profile),
            profile_updated_at: opt(self.profile_updated_at),
            profile_reviewed_at: opt(self.profile_reviewed_at),
            profile_updated_by: opt(self.profile_updated_by),
        }
    }
}

/// The meanings of a list of agent rows.
pub open spec fn agent_rows(v: Seq<AgentRow>) -> Seq<AgentRowView> {
    v.map_values(|r: AgentRow| r@)
}

/// One line of the audit trail.
#[derive(Debug)]
pub struct ActionRow {
    pub timestamp: String,
    pub agent_id: String,
    pub action_type: String,
    pub details: Option<String>,
}

pub struct ActionRowView {
    pub timestamp: Seq<char>,
    pub agent_id: Seq<char>,
    pub action_type: Seq<char>,
    pub details: Option<Seq<char>>,
}

impl View for ActionRow {
    type V = ActionRowView;

    open spec fn view(&self) -> ActionRowView {
        ActionRowView {
            timestamp: self.timestamp@,
            agent_id: self.agent_id@,
            action_type: self.action_type@,
            details: opt(self.details),
        }
    }
}

/// The meanings of lines of the audit trail.
pub open spec fn action_rows(v: Seq<ActionRow>) -> Seq<ActionRowView> {
    v.map_values(|r: ActionRow| r@)
}

/// What the tools read of a task.
#[derive(Debug)]
pub struct TaskRow {
    pub task_id: String,
    pub status: String,
}

pub struct TaskRowView {
    pub task_id: Seq<char>,
    pub status: Seq<char>,
}

impl View for TaskRow {
    type V = TaskRowView;

    open spec fn view(&self) -> TaskRowView {
        TaskRowView { task_id: self.task_id@, status: self.status@ }
    }
}

/// The meanings of a list of tasks.
pub open spec fn task_rows(v: Seq<TaskRow>) -> Seq<TaskRowView> {
    v.map_values(|r: TaskRow| r@)
}

/// A message and when it was sent.
#[derive(Debug)]
pub struct SentMessage {
    pub content: String,
    pub timestamp: String,
}

pub struct SentMessageView {
    pub content: Seq<char>,
    pub timestamp: Seq<char>,
}

impl View for SentMessage {
    type V = SentMessageView;

    open spec fn view(&self) -> SentMessageView {
        SentMessageView { content: self.content@, timestamp: self.timestamp@ }
    }
}

/// The meanings of a list of sent messages.
pub open spec fn sent_messages(v: Seq<SentMessage>) -> Seq<SentMessageView> {
    v.map_values(|r: SentMessage| r@)
}

/// A new entry for the project context.
#[derive(Debug)]
pub struct NewContext {
    pub context_key: String,
    pub value: String,
    pub description: Option<String>,
    pub created_by: String,
    pub timestamp: String,
}

/// The meaning of [`NewContext`].
pub struct NewContextView {
    pub context_key: Seq<char>,
    pub value: Seq<char>,
    pub description: Option<Seq<char>>,
    pub created_by: Seq<char>,
    pub timestamp: Seq<char>,
}

impl View for NewContext {
    type V = NewContextView;

    open spec fn view(&self) -> NewContextView {
        NewContextView {
            context_key: self.context_key@,
            value: self.value@,
            description: opt(self.description),
            created_by: self.created_by@,
            timestamp: self.timestamp@,
        }
    }
}

/// A stored message. `shown_subject` is the title under which a root message is
/// shown, and `subject_is_placeholder` tells whether it was made up from the
/// message.
#[derive(Debug)]
pub struct MessageRow {
    pub message_id: String,
    pub sender_id: String,
    pub recipient_id: String,
    pub message_content: String,
    pub message_type: String,
    pub priority: String,
    pub timestamp: String,
    pub delivered: bool,
    pub read: bool,
    pub subject: Option<String>,
    pub parent_message_id: Option<String>,
    pub shown_subject: Option<String>,
    pub subject_is_placeholder: bool,
}

/// The meaning of [`MessageRow`].
pub struct MessageRowView {
    pub message_id: Seq<char>,
    pub sender_id: Seq<char>,
    pub recipient_id: Seq<char>,
    pub message_content: Seq<char>,
    pub message_type: Seq<char>,
    pub priority: Seq<char>,
    pub timestamp: Seq<char>,
    pub delivered: bool,
    pub read: bool,
    pub subject: Option<Seq<char>>,
    pub parent_message_id: Option<Seq<char>>,
    pub shown_subject: Option<Seq<char>>,
    pub subject_is_placeholder: bool,
}

impl View for MessageRow {
    type V = MessageRowView;

    open spec fn view(&self) -> MessageRowView {
        MessageRowView {
            message_id: self.message_id@,
            sender_id: self.sender_id@,
            recipient_id: self.recipient_id@,
            message_content: self.message_content@,
            message_type: self.message_type@,
            priority: self.priority@,
            timestamp: self.timestamp@,
            delivered: self.delivered,
            read: self.read,
            subject: opt(self.subject),
            parent_message_id: opt(self.parent_message_id),
            shown_subject: opt(self.shown_subject),
            subject_is_placeholder: self.subject_is_placeholder,
        }
    }
}

/// The meanings of a list of messages.
pub open spec fn message_rows(v: Seq<MessageRow>) -> Seq<MessageRowView> {
    v.map_values(|r: MessageRow| r@)
}

/// A message to be sent.
#[derive(Debug)]
pub struct OutgoingMessage {
    pub recipient_id: String,
    pub message_content: String,
    pub message_type: String,
    pub priority: String,
    pub subject: Option<String>,
    pub parent_message_id: Option<String>,
    pub allow_worker_to_worker: bool,
    pub now: String,
}

/// The meaning of [`OutgoingMessage`].
pub struct OutgoingMessageView {
    pub recipient_id: Seq<char>,
    pub message_content: Seq<char>,
    pub message_type: Seq<char>,
    pub priority: Seq<char>,
    pub subject: Option<Seq<char>>,
    pub parent_message_id: Option<Seq<char>>,
    pub allow_worker_to_worker: bool,
    pub now: Seq<char>,
}

impl View for OutgoingMessage {
    type V = OutgoingMessageView;

    open spec fn view(&self) -> OutgoingMessageView {
        OutgoingMessageView {
            recipient_id: self.recipient_id@,
            message_content: self.message_content@,
            message_type: self.message_type@,
            priority: self.priority@,
            subject: opt(self.subject),
            parent_message_id: opt(self.parent_message_id),
            allow_worker_to_worker: self.allow_worker_to_worker,
            now: self.now@,
        }
    }
}

/// An entry of the file map: who uses a file, for what, since when.
#[derive(Debug)]
pub struct Claim {
    pub agent_id: String,
    pub status: String,
    pub timestamp: String,
}

/// The meaning of [`Claim`].
pub struct ClaimView {
    pub agent_id: Seq<char>,
    pub status: Seq<char>,
    pub timestamp: Seq<char>,
}

impl View for Claim {
    type V = ClaimView;

    open spec fn view(&self) -> ClaimView {
        ClaimView {
            agent_id: self.agent_id@,
            status: self.status@,
            timestamp: self.timestamp@,
        }
    }
}

/// Stored metadata of a file.
#[derive(Debug)]
pub struct MetadataRow {
    pub metadata: String,
    pub updated_by: Option<String>,
    pub last_updated: Option<String>,
    pub content_hash: Option<String>,
}

/// The meaning of [`MetadataRow`].
pub struct MetadataRowView {
    pub metadata: Seq<char>,
    pub updated_by: Option<Seq<char>>,
    pub last_updated: Option<Seq<char>>,
    pub content_hash: Option<Seq<char>>,
}

impl View for MetadataRow {
    type V = MetadataRowView;

    open spec fn view(&self) -> MetadataRowView {
        MetadataRowView {
            metadata: self.metadata@,
            updated_by: opt(self.updated_by),
            last_updated: opt(self.last_updated),
            content_hash: opt(self.content_hash),
        }
    }
}

/// An agent's profile after a review, and whether the review changed it.
#[derive(Debug)]
pub struct ReviewedProfile {
    pub profile: Option<String>,
    pub profile_updated_at: Option<String>,
    pub profile_reviewed_at: Option<String>,
    pub changed: bool,
}

/// The meaning of [`ReviewedProfile`].
pub struct ReviewedProfileView {
    pub profile: Option<Seq<char>>,
    pub profile_updated_at: Option<Seq<char>>,
    pub profile_reviewed_at: Option<Seq<char>>,
    pub changed: bool,
}

impl View for ReviewedProfile {
    type V = ReviewedProfileView;

    open spec fn view(&self) -> ReviewedProfileView {
        ReviewedProfileView {
            profile: opt(self.profile),
            profile_updated_at: opt(self.profile_updated_at),
            profile_reviewed_at: opt(self.profile_reviewed_at),
            changed: self.changed,
        }
    }
}

/// An entry of the project context. `updated` is the time that `updated_at` tells,
/// and `scalar_text` how the value is shown where it is JSON and neither a list
/// nor an object.
#[derive(Debug)]
pub struct ContextRow {
    pub context_key: String,
    pub value: String,
    pub description: Option<String>,
    pub created_at: Option<String>,
    pub created_by: Option<String>,
    pub updated_at: String,
    pub updated_by: String,
    pub updated: Option<Stamp>,
    pub scalar_text: String,
}

/// The meaning of [`ContextRow`].
pub struct ContextRowView {
    pub context_key: Seq<char>,
    pub value: Seq<char>,
    pub description: Option<Seq<char>>,
    pub created_at: Option<Seq<char>>,
    pub created_by: Option<Seq<char>>,
    pub updated_at: Seq<char>,
    pub updated_by: Seq<char>,
    pub updated: Option<Stamp>,
    pub scalar_text: Seq<char>,
}

impl View for ContextRow {
    type V = ContextRowView;

    open spec fn view(&self) -> ContextRowView {
        ContextRowView {
            context_key: self.context_key@,
            value: self.value@,
            description: opt(self.description),
            created_at: opt(self.created_at),
            created_by: opt(self.created_by),
            updated_at: self.updated_at@,
            updated_by: self.updated_by@,
            updated: self.updated,
            scalar_text: self.scalar_text@,
        }
    }
}

/// The meanings of a list of context entries.
pub open spec fn context_rows(v: Seq<ContextRow>) -> Seq<ContextRowView> {
    v.map_values(|r: ContextRow| r@)
}


/// A point in time: seconds since 1970 began, and the nanoseconds beyond them.
#[derive(Debug, Clone, Copy, PartialEq, Eq, Structural)]
pub struct Stamp {
    pub secs: i64,
    pub nanos: u32,
}

/// A column of an agent's row that tools may write.
#[derive(Debug, Clone, Copy, PartialEq, Eq, Structural)]
pub enum AgentField {
    Status,
    TerminatedAt,
    Color,
    WorkingDirectory,
    AoeSessionId,
    AutoEventLoop,
    AgentRole,
}

/// A value for a column.
#[derive(Debug)]
pub enum FieldValue {
    Text(String),
    OptionalText(Option<String>),
    Bool(bool),
}

pub enum FieldValueView {
    Text(Seq<char>),
    OptionalText(Option<Seq<char>>),
    Bool(bool),
}

impl View for FieldValue {
    type V = FieldValueView;

    open spec fn view(&self) -> FieldValueView {
        match *self {
            FieldValue::Text(s) => FieldValueView::Text(s@),
            FieldValue::OptionalText(s) => FieldValueView::OptionalText(opt(s)),
            FieldValue::Bool(b) => FieldValueView::Bool(b),
        }
    }
}

/// What can be counted of an agent.
#[derive(Debug, Clone, Copy, PartialEq, Eq, Structural)]
pub enum CountKind {
    MessagesSent,
    MessagesReceived,
    TasksCreated,
    TasksAssigned,
    AgentActions,
}

/// Which agents to list, in which order.
#[derive(Debug)]
pub struct AgentFilters {
    pub status: Option<String>,
    pub agent_id_pattern: Option<String>,
    pub include_terminated: bool,
    pub created_after: Option<String>,
    pub created_before: Option<String>,
    pub sort_by: String,
    pub sort_order: String,
    pub limit: i64,
    pub offset: i64,
}

pub struct AgentFiltersView {
    pub status: Option<Seq<char>>,
    pub agent_id_pattern: Option<Seq<char>>,
    pub include_terminated: bool,
    pub created_after: Option<Seq<char>>,
    pub created_before: Option<Seq<char>>,
    pub sort_by: Seq<char>,
    pub sort_order: Seq<char>,
    pub limit: i64,
    pub offset: i64,
}

impl View for AgentFilters {
    type V = AgentFiltersView;

    open spec fn view(&self) -> AgentFiltersView {
        AgentFiltersView {
            status: opt(self.status),
            agent_id_pattern: opt(self.agent_id_pattern),
            include_terminated: self.include_terminated,
            created_after: opt(self.created_after),
            created_before: opt(self.created_before),
            sort_by: self.sort_by@,
            sort_order: self.sort_order@,
            limit: self.limit,
            offset: self.offset,
        }
    }
}

/// A row for a new agent.
#[derive(Debug)]
pub struct NewAgent {
    pub token: String,
    pub agent_id: String,
    pub created_at: String,
    pub status: String,
    pub working_directory: String,
    pub color: String,
    pub agent_role: String,
}

pub struct NewAgentView {
    pub token: Seq<char>,
    pub agent_id: Seq<char>,
    pub created_at: Seq<char>,
    pub status: Seq<char>,
    pub working_directory: Seq<char>,
    pub color: Seq<char>,
    pub agent_role: Seq<char>,
}

impl View for NewAgent {
    type V = NewAgentView;

    open spec fn view(&self) -> NewAgentView {
        NewAgentView {
            token: self.token@,
            agent_id: self.agent_id@,
            created_at: self.created_at@,
            status: self.status@,
            working_directory: self.working_directory@,
            color: self.color@,
            agent_role: self.agent_role@,
        }
    }
}

/// The view of an optional tree.
pub open spec fn opt_tree(j: Option<Json>) -> Option<JsonView> {
    match j {
        Some(x) => Some(x@),
        None => None,
    }
}

// ---------------------------------------------------------------------
// Calls
// ---------------------------------------------------------------------

/// A tool call and what holds while it runs.
#[derive(Debug)]
pub struct Call {
    pub principal: Option<Principal>,
    pub arguments: Json,
    /// The time of the call.
    pub now: String,
    /// The time that `now` tells, where it can be read.
    pub instant: Option<Stamp>,
    /// The directory of the project.
    pub project_dir: String,
    /// The statuses of an agent that is out of service.
    pub terminal_agent_statuses: Vec<String>,
    /// The statuses of a task that is finished.
    pub terminal_task_statuses: Vec<String>,
}

/// The meaning of a call.
pub struct CallView {
    pub principal: Option<PrincipalView>,
    pub arguments: JsonView,
    pub now: Seq<char>,
    pub instant: Option<Stamp>,
    pub project_dir: Seq<char>,
    pub terminal_agent_statuses: Seq<Seq<char>>,
    pub terminal_task_statuses: Seq<Seq<char>>,
}

impl View for Call {
    type V = CallView;

    open spec fn view(&self) -> CallView {
        CallView {
            principal: match self.principal {
                Some(p) => Some(p@),
                None => None,
            },
            arguments: self.arguments@,
            now: self.now@,
            instant: self.instant,
            project_dir: self.project_dir@,
            terminal_agent_statuses: texts(self.terminal_agent_statuses@),
            terminal_task_statuses: texts(self.terminal_task_statuses@),
        }
    }
}

impl Call {
    /// The caller.
    pub fn caller(&self) -> (r: Option<&Principal>)
        ensures
            caller_view(r) == self@.principal,
    {
        match &self.principal {
            Some(p) => Some(p),
            None => None,
        }
    }
}

// ---------------------------------------------------------------------
// Actions
// ---------------------------------------------------------------------

/// What a tool asks of its surroundings.
#[allow(inconsistent_fields)]
#[derive(Debug)]
pub enum Action {
    /// End the call.
    Finish(ToolResult),
    /// Read the latest lines of the audit trail.
    ListActions { agent_id: Option<String>, action_type: Option<String>, limit: i64 },
    /// Add a line to the audit trail.
    LogAction { agent_id: String, action_type: String, task_id: Option<String>, details: Json, timestamp: String },
    /// Read a page of agents.
    QueryAgents(AgentFilters),
    /// Read the agents that are in service.
    ListActiveAgents,
    /// Read an agent's row.
    GetAgent { agent_id: String },
    /// Store a new agent.
    CreateAgent(NewAgent),
    /// Give a new manager its first profile.
    SeedManagerProfile { agent_id: String, profile: String, timestamp: String },
    /// Replace an agent's token.
    RotateToken { agent_id: String, token: String, timestamp: String },
    /// Write one column of an agent's row.
    UpdateAgent { agent_id: String, field: AgentField, value: FieldValue, timestamp: String },
    /// Confirm an agent's profile, and replace it where a new one is given.
    ReviewProfile { agent_id: String, profile: Option<String>, reviewer: String, timestamp: String },
    /// Take an agent out of service.
    TerminateAgent { agent_id: String, timestamp: String },
    /// Store the row that stands for a deleted agent.
    InsertTombstone { token: String, agent_id: String, timestamp: String },
    /// Delete an agent's row.
    DeleteAgent { agent_id: String },
    /// Delete the sessions of an agent.
    DeleteSessions { agent_id: String },
    /// Rename an agent in every message.
    RenameInMessages { from: String, to: String },
    /// Rename an agent as the creator of tasks.
    RenameTaskCreator { from: String, to: String },
    /// Rename an agent in the audit trail.
    RenameInActions { from: String, to: String },
    /// Count what concerns an agent.
    Count { kind: CountKind, agent_id: String },
    /// Read the latest messages that an agent sent.
    ListSentMessages { agent_id: String, limit: i64 },
    /// Read the titles of the latest tasks that an agent created, or that are assigned to it.
    ListTaskTitles { agent_id: String, assigned: bool, limit: i64 },
    /// Read the tasks that are assigned to an agent.
    ListTasksOf { agent_id: String },
    /// Take a task from its agent, and set its status where one is given.
    ReleaseTask { task_id: String, status: Option<String>, timestamp: String },
    /// Write a project setting.
    PutSetting { key: String, value: String, updated_by: String, timestamp: String },
    /// Read a project setting that is on or off.
    GetSwitch { key: String, default_on: bool },
    /// Wake the agent if it waits for events.
    Notify { agent_id: String },
    /// Mint a bearer token.
    MintToken,
    /// Take the next number of the colour counter.
    NextColorIndex,
    /// Read an environment variable.
    ReadEnv { key: String },
    /// Read the server's working directory.
    CurrentDir,
    /// Resolve a path on disk.
    Canonicalize { path: String },
    /// Read the size of the file map and its first entries.
    FileMapStatus { preview: usize },
    /// Read who uses a file.
    FileHolder { path: String },
    /// Enter a claim into the file map.
    ClaimFile { path: String, agent_id: String, status: String, timestamp: String },
    /// Take a file out of the file map.
    ReleaseFile { path: String },
    /// Read the metadata of a file.
    GetMetadata { path: String },
    /// Store the metadata of a file.
    PutMetadata { path: String, metadata: String, updated_by: String, timestamp: String },
    /// Check a message against the rules of the team and store it.
    SendMessage(OutgoingMessage),
    /// Work out the title under which a root message is shown.
    SubjectFor { subject: Option<String>, message_content: String },
    /// Read the latest messages of an agent.
    ListMessages { agent_id: String, include_sent: bool, include_received: bool, message_type: Option<String>, unread_only: bool, limit: i64 },
    /// Mark messages to an agent as read.
    MarkRead { message_ids: Vec<String>, recipient: String },
    /// Gather the events for an agent since a point in time.
    AssembleFeed { agent_id: String, since: Option<String>, now: String },
    /// Read the whole project context.
    ListContexts,
    /// Read an entry of the project context.
    GetContext { context_key: String },
    /// Store a new entry of the project context, unless there is one.
    CreateContext(NewContext),
    /// Store an entry of the project context. Its description is replaced where one is provided; a new entry gets it anyway.
    UpsertContext { context_key: String, value: String, description: Option<String>, description_provided: bool, updated_by: String, timestamp: String },
    /// Delete entries of the project context, and return them.
    DeleteContexts { context_keys: Vec<String> },
    /// Drop what was indexed of an entry of the project context.
    PurgeSource { context_key: String },
    /// Wake those whom changes of these entries concern.
    DeliverWakes { context_keys: Vec<String>, bulk: bool },
    /// Read the clock.
    Clock,
    /// Create a directory and those above it.
    CreateDir { path: String },
    /// Write a file.
    WriteFile { path: String, text: String },
    /// Store how far an agent has read its events.
    AdvanceCursor { agent_id: String, cursor: String, timestamp: String },
}

/// The meaning of an action.
#[allow(inconsistent_fields)]
pub enum ActionView {
    Finish(ResultView),
    ListActions { agent_id: Option<Seq<char>>, action_type: Option<Seq<char>>, limit: i64 },
    LogAction { agent_id: Seq<char>, action_type: Seq<char>, task_id: Option<Seq<char>>, details: JsonView, timestamp: Seq<char> },
    QueryAgents(AgentFiltersView),
    ListActiveAgents,
    GetAgent { agent_id: Seq<char> },
    CreateAgent(NewAgentView),
    SeedManagerProfile { agent_id: Seq<char>, profile: Seq<char>, timestamp: Seq<char> },
    RotateToken { agent_id: Seq<char>, token: Seq<char>, timestamp: Seq<char> },
    UpdateAgent { agent_id: Seq<char>, field: AgentField, value: FieldValueView, timestamp: Seq<char> },
    ReviewProfile { agent_id: Seq<char>, profile: Option<Seq<char>>, reviewer: Seq<char>, timestamp: Seq<char> },
    TerminateAgent { agent_id: Seq<char>, timestamp: Seq<char> },
    InsertTombstone { token: Seq<char>, agent_id: Seq<char>, timestamp: Seq<char> },
    DeleteAgent { agent_id: Seq<char> },
    DeleteSessions { agent_id: Seq<char> },
    RenameInMessages { from: Seq<char>, to: Seq<char> },
    RenameTaskCreator { from: Seq<char>, to: Seq<char> },
    RenameInActions { from: Seq<char>, to: Seq<char> },
    Count { kind: CountKind, agent_id: Seq<char> },
    ListSentMessages { agent_id: Seq<char>, limit: i64 },
    ListTaskTitles { agent_id: Seq<char>, assigned: bool, limit: i64 },
    ListTasksOf { agent_id: Seq<char> },
    ReleaseTask { task_id: Seq<char>, status: Option<Seq<char>>, timestamp: Seq<char> },
    PutSetting { key: Seq<char>, value: Seq<char>, updated_by: Seq<char>, timestamp: Seq<char> },
    GetSwitch { key: Seq<char>, default_on: bool },
    Notify { agent_id: Seq<char> },
    MintToken,
    NextColorIndex,
    ReadEnv { key: Seq<char> },
    CurrentDir,
    Canonicalize { path: Seq<char> },
    FileMapStatus { preview: usize },
    FileHolder { path: Seq<char> },
    ClaimFile { path: Seq<char>, agent_id: Seq<char>, status: Seq<char>, timestamp: Seq<char> },
    ReleaseFile { path: Seq<char> },
    GetMetadata { path: Seq<char> },
    PutMetadata { path: Seq<char>, metadata: Seq<char>, updated_by: Seq<char>, timestamp: Seq<char> },
    SendMessage(OutgoingMessageView),
    SubjectFor { subject: Option<Seq<char>>, message_content: Seq<char> },
    ListMessages { agent_id: Seq<char>, include_sent: bool, include_received: bool, message_type: Option<Seq<char>>, unread_only: bool, limit: i64 },
    MarkRead { message_ids: Seq<Seq<char>>, recipient: Seq<char> },
    AssembleFeed { agent_id: Seq<char>, since: Option<Seq<char>>, now: Seq<char> },
    ListContexts,
    GetContext { context_key: Seq<char> },
    CreateContext(NewContextView),
    UpsertContext { context_key: Seq<char>, value: Seq<char>, description: Option<Seq<char>>, description_provided: bool, updated_by: Seq<char>, timestamp: Seq<char> },
    DeleteContexts { context_keys: Seq<Seq<char>> },
    PurgeSource { context_key: Seq<char> },
    DeliverWakes { context_keys: Seq<Seq<char>>, bulk: bool },
    Clock,
    CreateDir { path: Seq<char> },
    WriteFile { path: Seq<char>, text: Seq<char> },
    AdvanceCursor { agent_id: Seq<char>, cursor: Seq<char>, timestamp: Seq<char> },
}

impl View for Action {
    type V = ActionView;

    open spec fn view(&self) -> ActionView {
        match *self {
            Action::Finish(x) => ActionView::Finish(x@),
            Action::ListActions { agent_id, action_type, limit } => ActionView::ListActions {
                agent_id: opt(agent_id),
                action_type: opt(action_type),
                limit,
            },
            Action::LogAction { agent_id, action_type, task_id, details, timestamp } => ActionView::LogAction {
                agent_id: agent_id@,
                action_type: action_type@,
                task_id: opt(task_id),
                details: details@,
                timestamp: timestamp@,
            },
            Action::QueryAgents(x) => ActionView::QueryAgents(x@),
            Action::ListActiveAgents => ActionView::ListActiveAgents,
            Action::GetAgent { agent_id } => ActionView::GetAgent {
                agent_id: agent_id@,
            },
            Action::CreateAgent(x) => ActionView::CreateAgent(x@),
            Action::SeedManagerProfile { agent_id, profile, timestamp } => ActionView::SeedManagerProfile {
                agent_id: agent_id@,
                profile: profile@,
                timestamp: timestamp@,
            },
            Action::RotateToken { agent_id, token, timestamp } => ActionView::RotateToken {
                agent_id: agent_id@,
                token: token@,
                timestamp: timestamp@,
            },
            Action::UpdateAgent { agent_id, field, value, timestamp } => ActionView::UpdateAgent {
                agent_id: agent_id@,
                field,
                value: value@,
                timestamp: timestamp@,
            },
            Action::ReviewProfile { agent_id, profile, reviewer, timestamp } => ActionView::ReviewProfile {
                agent_id: agent_id@,
                profile: opt(profile),
                reviewer: reviewer@,
                timestamp: timestamp@,
            },
            Action::TerminateAgent { agent_id, timestamp } => ActionView::TerminateAgent {
                agent_id: agent_id@,
                timestamp: timestamp@,
            },
            Action::InsertTombstone { token, agent_id, timestamp } => ActionView::InsertTombstone {
                token: token@,
                agent_id: agent_id@,
                timestamp: timestamp@,
            },
            Action::DeleteAgent { agent_id } => ActionView::DeleteAgent {
                agent_id: agent_id@,
            },
            Action::DeleteSessions { agent_id } => ActionView::DeleteSessions {
                agent_id: agent_id@,
            },
            Action::RenameInMessages { from, to } => ActionView::RenameInMessages {
                from: from@,
                to: to@,
            },
            Action::RenameTaskCreator { from, to } => ActionView::RenameTaskCreator {
                from: from@,
                to: to@,
            },
            Action::RenameInActions { from, to } => ActionView::RenameInActions {
                from: from@,
                to: to@,
            },
            Action::Count { kind, agent_id } => ActionView::Count {
                kind,
                agent_id: agent_id@,
            },
            Action::ListSentMessages { agent_id, limit } => ActionView::ListSentMessages {
                agent_id: agent_id@,
                limit,
            },
            Action::ListTaskTitles { agent_id, assigned, limit } => ActionView::ListTaskTitles {
                agent_id: agent_id@,
                assigned,
                limit,
            },
            Action::ListTasksOf { agent_id } => ActionView::ListTasksOf {
                agent_id: agent_id@,
            },
            Action::ReleaseTask { task_id, status, timestamp } => ActionView::ReleaseTask {
                task_id: task_id@,
                status: opt(status),
                timestamp: timestamp@,
            },
            Action::PutSetting { key, value, updated_by, timestamp } => ActionView::PutSetting {
                key: key@,
                value: value@,
                updated_by: updated_by@,
                timestamp: timestamp@,
            },
            Action::GetSwitch { key, default_on } => ActionView::GetSwitch {
                key: key@,
                default_on,
            },
            Action::Notify { agent_id } => ActionView::Notify {
                agent_id: agent_id@,
            },
            Action::MintToken => ActionView::MintToken,
            Action::NextColorIndex => ActionView::NextColorIndex,
            Action::ReadEnv { key } => ActionView::ReadEnv {
                key: key@,
            },
            Action::CurrentDir => ActionView::CurrentDir,
            Action::Canonicalize { path } => ActionView::Canonicalize {
                path: path@,
            },
            Action::FileMapStatus { preview } => ActionView::FileMapStatus {
                preview,
            },
            Action::FileHolder { path } => ActionView::FileHolder {
                path: path@,
            },
            Action::ClaimFile { path, agent_id, status, timestamp } => ActionView::ClaimFile {
                path: path@,
                agent_id: agent_id@,
                status: status@,
                timestamp: timestamp@,
            },
            Action::ReleaseFile { path } => ActionView::ReleaseFile {
                path: path@,
            },
            Action::GetMetadata { path } => ActionView::GetMetadata {
                path: path@,
            },
            Action::PutMetadata { path, metadata, updated_by, timestamp } => ActionView::PutMetadata {
                path: path@,
                metadata: metadata@,
                updated_by: updated_by@,
                timestamp: timestamp@,
            },
            Action::SendMessage(x) => ActionView::SendMessage(x@),
            Action::SubjectFor { subject, message_content } => ActionView::SubjectFor {
                subject: opt(subject),
                message_content: message_content@,
            },
            Action::ListMessages { agent_id, include_sent, include_received, message_type, unread_only, limit } => ActionView::ListMessages {
                agent_id: agent_id@,
                include_sent,
                include_received,
                message_type: opt(message_type),
                unread_only,
                limit,
            },
            Action::MarkRead { message_ids, recipient } => ActionView::MarkRead {
                message_ids: texts(message_ids@),
                recipient: recipient@,
            },
            Action::AssembleFeed { agent_id, since, now } => ActionView::AssembleFeed {
                agent_id: agent_id@,
                since: opt(since),
                now: now@,
            },
            Action::ListContexts => ActionView::ListContexts,
            Action::GetContext { context_key } => ActionView::GetContext {
                context_key: context_key@,
            },
            Action::CreateContext(x) => ActionView::CreateContext(x@),
            Action::UpsertContext { context_key, value, description, description_provided, updated_by, timestamp } => ActionView::UpsertContext {
                context_key: context_key@,
                value: value@,
                description: opt(description),
                description_provided,
                updated_by: updated_by@,
                timestamp: timestamp@,
            },
            Action::DeleteContexts { context_keys } => ActionView::DeleteContexts {
                context_keys: texts(context_keys@),
            },
            Action::PurgeSource { context_key } => ActionView::PurgeSource {
                context_key: context_key@,
            },
            Action::DeliverWakes { context_keys, bulk } => ActionView::DeliverWakes {
                context_keys: texts(context_keys@),
                bulk,
            },
            Action::Clock => ActionView::Clock,
            Action::CreateDir { path } => ActionView::CreateDir {
                path: path@,
            },
            Action::WriteFile { path, text } => ActionView::WriteFile {
                path: path@,
                text: text@,
            },
            Action::AdvanceCursor { agent_id, cursor, timestamp } => ActionView::AdvanceCursor {
                agent_id: agent_id@,
                cursor: cursor@,
                timestamp: timestamp@,
            },
        }
    }
}

// ---------------------------------------------------------------------
// Events
// ---------------------------------------------------------------------

/// The answer to an action.
#[allow(inconsistent_fields)]
#[derive(Debug)]
pub enum Event {
    /// The action failed.
    Failed,
    /// The action failed, and why.
    Error(String),
    /// The action was performed.
    Done,
    /// Whether the action changed something, or a switch is on.
    Changed(bool),
    /// A number.
    Count(i64),
    /// A number of the colour counter.
    Index(usize),
    /// A text, where there is one.
    Text(Option<String>),
    /// Texts.
    Texts(Vec<String>),
    /// An agent's row, where there is one.
    Agent(Option<AgentRow>),
    /// Agents' rows.
    Agents(Vec<AgentRow>),
    /// A page of agents, and how many there are in all.
    AgentPage { rows: Vec<AgentRow>, total: i64 },
    /// Lines of the audit trail.
    Actions(Vec<ActionRow>),
    /// The new row's creation time.
    Created { created_at: String },
    /// The store does not accept the id.
    InvalidId,
    /// There is such a row already.
    Duplicate,
    /// Tasks.
    Tasks(Vec<TaskRow>),
    /// Messages.
    Sent(Vec<SentMessage>),
    /// The size of the file map, and its first entries.
    FileMap { size: usize, preview: Vec<Field> },
    /// Who uses a file, where someone does.
    Holder(Option<Claim>),
    /// The metadata of a file, where there is some.
    Metadata(Option<MetadataRow>),
    /// A profile after its review; none without such an agent.
    Reviewed(Option<ReviewedProfile>),
    /// Messages of an agent.
    Messages(Vec<MessageRow>),
    /// The message is stored under this id.
    MessageSent { message_id: String },
    /// The rules of the team forbid the message.
    SendDenied(ToolResult),
    /// There is no such recipient.
    RecipientUnknown,
    /// There is no such message to reply to.
    ParentUnknown { message_id: String },
    /// The title of a message, and whether it was made up from the message.
    Subject { shown: Option<String>, placeholder: bool },
    /// Entries of the project context.
    Contexts(Vec<ContextRow>),
    /// An entry of the project context, where there is one.
    Context(Option<ContextRow>),
    /// A time.
    Time(Stamp),
    /// Events, and how far they reach.
    Feed { events: Vec<Json>, next_cursor: String },
}

/// The meaning of an event.
#[allow(inconsistent_fields)]
pub enum EventView {
    Failed,
    Error(Seq<char>),
    Done,
    Changed(bool),
    Count(i64),
    Index(usize),
    Text(Option<Seq<char>>),
    Texts(Seq<Seq<char>>),
    Agent(Option<AgentRowView>),
    Agents(Seq<AgentRowView>),
    AgentPage { rows: Seq<AgentRowView>, total: i64 },
    Actions(Seq<ActionRowView>),
    Created { created_at: Seq<char> },
    InvalidId,
    Duplicate,
    Tasks(Seq<TaskRowView>),
    Sent(Seq<SentMessageView>),
    FileMap { size: usize, preview: Map<Seq<char>, JsonView> },
    Holder(Option<ClaimView>),
    Metadata(Option<MetadataRowView>),
    Reviewed(Option<ReviewedProfileView>),
    Messages(Seq<MessageRowView>),
    MessageSent { message_id: Seq<char> },
    SendDenied(ResultView),
    RecipientUnknown,
    ParentUnknown { message_id: Seq<char> },
    Subject { shown: Option<Seq<char>>, placeholder: bool },
    Contexts(Seq<ContextRowView>),
    Context(Option<ContextRowView>),
    Time(Stamp),
    Feed { events: Seq<JsonView>, next_cursor: Seq<char> },
}

impl View for Event {
    type V = EventView;

    open spec fn view(&self) -> EventView {
        match *self {
            Event::Failed => EventView::Failed,
            Event::Error(x) => EventView::Error(x@),
            Event::Done => EventView::Done,
            Event::Changed(x) => EventView::Changed(x),
            Event::Count(x) => EventView::Count(x),
            Event::Index(x) => EventView::Index(x),
            Event::Text(x) => EventView::Text(opt(x)),
            Event::Texts(x) => EventView::Texts(texts(x@)),
            Event::Agent(x) => EventView::Agent(match x { Some(y) => Some(y@), None => None }),
            Event::Agents(x) => EventView::Agents(agent_rows(x@)),
            Event::AgentPage { rows, total } => EventView::AgentPage {
                rows: agent_rows(rows@),
                total,
            },
            Event::Actions(x) => EventView::Actions(action_rows(x@)),
            Event::Created { created_at } => EventView::Created {
                created_at: created_at@,
            },
            Event::InvalidId => EventView::InvalidId,
            Event::Duplicate => EventView::Duplicate,
            Event::Tasks(x) => EventView::Tasks(task_rows(x@)),
            Event::Sent(x) => EventView::Sent(sent_messages(x@)),
            Event::FileMap { size, preview } => EventView::FileMap {
                size,
                preview: object_view(preview@),
            },
            Event::Holder(x) => EventView::Holder(match x { Some(y) => Some(y@), None => None }),
            Event::Metadata(x) => EventView::Metadata(match x { Some(y) => Some(y@), None => None }),
            Event::Reviewed(x) => EventView::Reviewed(match x { Some(y) => Some(y@), None => None }),
            Event::Messages(x) => EventView::Messages(message_rows(x@)),
            Event::MessageSent { message_id } => EventView::MessageSent {
                message_id: message_id@,
            },
            Event::SendDenied(x) => EventView::SendDenied(x@),
            Event::RecipientUnknown => EventView::RecipientUnknown,
            Event::ParentUnknown { message_id } => EventView::ParentUnknown {
                message_id: message_id@,
            },
            Event::Subject { shown, placeholder } => EventView::Subject {
                shown: opt(shown),
                placeholder,
            },
            Event::Contexts(x) => EventView::Contexts(context_rows(x@)),
            Event::Context(x) => EventView::Context(match x { Some(y) => Some(y@), None => None }),
            Event::Time(x) => EventView::Time(x),
            Event::Feed { events, next_cursor } => EventView::Feed {
                events: list_view(events@),
                next_cursor: next_cursor@,
            },
        }
    }
}

/// The meanings of the events so far.
pub open spec fn events(v: Seq<Event>) -> Seq<EventView> {
    v.map_values(|e: Event| e@)
}

/// Whether an event tells of a failure.
pub open spec fn is_failure(e: EventView) -> bool {
    e is Failed || e is Error
}

/// Whether an event tells of a failure.
pub fn event_failed(e: &Event) -> (r: bool)
    ensures
        r == is_failure(e@),
{
    match e {
        Event::Failed => true,
        Event::Error(_) => true,
        _ => false,
    }
}

/// The first of `n` events from `from` on that is a failure, counted from
/// `from`.
pub open spec fn first_failed(h: Seq<EventView>, from: int, n: int) -> Option<int>
    decreases n,
{
    if n <= 0 {
        None
    } else {
        match first_failed(h, from, n - 1) {
            Some(i) => Some(i),
            None => if 0 <= from + n - 1 < h.len() && is_failure(h[from + n - 1]) {
                Some(n - 1)
            } else {
                None
            },
        }
    }
}

/// The first failure among `n` events from `from` on.
pub fn find_failed(history: &Vec<Event>, from: usize, n: usize) -> (r: Option<usize>)
    ensures
        match r {
            Some(i) => i < n && first_failed(events(history@), from as int, n as int) == Some(
                i as int,
            ),
            None => first_failed(events(history@), from as int, n as int) is None,
        },
{
    if n == 0 {
        return None;
    }
    let mut i: usize = 0;
    while i < n
        invariant
            i <= n,
            first_failed(events(history@), from as int, i as int) is None,
        decreases n - i,
    {
        if from < history.len() && i < history.len() - from {
            if event_failed(&history[from + i]) {
                proof {
                    lemma_first_failed_stays(events(history@), from as int, i + 1, n as int);
                }
                return Some(i);
            }
        }
        i = i + 1;
    }
    None
}

proof fn lemma_first_failed_stays(h: Seq<EventView>, from: int, n: int, m: int)
    requires
        n <= m,
        first_failed(h, from, n) is Some,
    ensures
        first_failed(h, from, m) == first_failed(h, from, n),
    decreases m,
{
    if n < m {
        lemma_first_failed_stays(h, from, n, m - 1);
    }
}

/// The agents of an event; none where it has no list.
pub open spec fn agents_in(e: EventView) -> Seq<AgentRowView> {
    match e {
        EventView::Agents(v) => v,
        _ => Seq::empty(),
    }
}

/// Wakes every agent in service and then ends with `end`; ends at once where
/// nobody is to be woken. The part of the dialogue from event `at` on.
pub open spec fn broadcast_view(
    h: Seq<EventView>,
    at: int,
    wanted: bool,
    end: ActionView,
) -> ActionView {
    if !wanted {
        end
    } else if h.len() <= at {
        ActionView::ListActiveAgents
    } else {
        let agents = agents_in(h[at]);
        let k = h.len() - at - 1;
        if k < agents.len() {
            ActionView::Notify { agent_id: agents[k].agent_id }
        } else {
            end
        }
    }
}

/// Wakes every agent in service, then ends with `end`.
pub fn broadcast(history: &Vec<Event>, at: usize, wanted: bool, end: Action) -> (r: Action)
    ensures
        r@ == broadcast_view(events(history@), at as int, wanted, end@),
{
    if !wanted {
        return end;
    }
    if history.len() <= at {
        return Action::ListActiveAgents;
    }
    let k: usize = history.len() - at - 1;
    match &history[at] {
        Event::Agents(v) => {
            if k < v.len() {
                return Action::Notify { agent_id: own(v[k].agent_id.as_str()) };
            }
        },
        _ => {},
    }
    end
}

// ---------------------------------------------------------------------
// Common endings
// ---------------------------------------------------------------------

/// The ending with data and a message.
pub open spec fn done_view(data: JsonView, message: Seq<char>) -> ActionView {
    ActionView::Finish(ResultView::Success { data: Some(data), message: Some(message) })
}

/// The ending on a bad argument.
pub open spec fn invalid_view(field: Option<Seq<char>>, message: Seq<char>) -> ActionView {
    ActionView::Finish(ResultView::Invalid { field, message })
}

/// The ending on something that is not there.
pub open spec fn not_found_view(resource: Seq<char>, identifier: Seq<char>) -> ActionView {
    ActionView::Finish(ResultView::NotFound { resource, identifier, hint: None })
}

/// The ending on a conflict.
pub open spec fn conflict_view(reason: Seq<char>) -> ActionView {
    ActionView::Finish(ResultView::Conflict { reason })
}

/// The ending on a refusal.
pub open spec fn denied_view(reason: Seq<char>) -> ActionView {
    ActionView::Finish(ResultView::PermissionDenied { reason })
}

/// The ending on a failure.
pub open spec fn failed_view(message: Seq<char>) -> ActionView {
    ActionView::Finish(ResultView::Failed { message })
}

/// What a caller reads when the store failed.
pub open spec fn db_error_text() -> Seq<char> {
    "A database error occurred; it has been logged. Retry, or ask an operator to check logs."@
}

pub fn done(data: Json, message: String) -> (r: Action)
    ensures
        r@ == done_view(data@, message@),
{
    Action::Finish(ToolResult::Success { data: Some(data), message: Some(message) })
}

pub fn invalid(field: &str, message: &str) -> (r: Action)
    ensures
        r@ == invalid_view(Some(field@), message@),
{
    Action::Finish(ToolResult::Invalid { field: Some(own(field)), message: own(message) })
}

pub fn not_found(resource: &str, identifier: &str) -> (r: Action)
    ensures
        r@ == not_found_view(resource@, identifier@),
{
    Action::Finish(
        ToolResult::NotFound { resource: own(resource), identifier: own(identifier), hint: None },
    )
}

pub fn conflict(reason: String) -> (r: Action)
    ensures
        r@ == conflict_view(reason@),
{
    Action::Finish(ToolResult::Conflict { reason })
}

pub fn denied(reason: &str) -> (r: Action)
    ensures
        r@ == denied_view(reason@),
{
    Action::Finish(ToolResult::PermissionDenied { reason: own(reason) })
}

pub fn failed(message: &str) -> (r: Action)
    ensures
        r@ == failed_view(message@),
{
    Action::Finish(ToolResult::Failed { message: own(message) })
}

pub fn db_error() -> (r: Action)
    ensures
        r@ == failed_view(db_error_text()),
{
    failed(
        "A database error occurred; it has been logged. Retry, or ask an operator to check logs.",
    )
}

} // verus!

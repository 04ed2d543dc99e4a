//! The tools by name: who may call each, and how its dialogue goes on.

use crate::principal::{
    caller_has, caller_view, has_capability, is_operator, Capability, Principal, PrincipalView,
};
use crate::protocol::{events, Action, ActionView, Call, CallView, Event, EventView};
use vstd::prelude::*;

verus! {

/// The tools.
#[derive(Debug, Clone, Copy, PartialEq, Eq, Structural)]
pub enum ToolName {
    ViewAuditLog,
    GetAgentTokens,
    ViewStatus,
    RegisterAgent,
    RotateAgentToken,
    RestoreAgent,
    EditAgent,
    TerminateAgent,
    PurgeAgent,
    WaitForEvents,
    FetchEventsSince,
    SendAgentMessage,
    BroadcastAdminMessage,
    GetAgentMessages,
    ViewAgents,
    UpdateAgentProfile,
    GetSystemPrompt,
    CheckFileStatus,
    UpdateFileStatus,
    ViewFileMetadata,
    UpdateFileMetadata,
    ValidateContextConsistency,
    ViewProjectContext,
    CreateProjectContext,
    UpdateProjectContext,
    BulkUpdateProjectContext,
    DeleteProjectContext,
    BackupProjectContext,
}

/// What a tool asks of its caller.
#[derive(Debug, Clone, Copy, PartialEq, Eq, Structural)]
pub enum Requirement {
    /// This permission.
    Capability(Capability),
    /// To be an agent.
    IdentifiedAgent,
    /// To be someone.
    AnyCaller,
    /// An operator's authority.
    Operator,
    /// To be an agent that may view messages.
    MessageReader,
    /// To use or view agents.
    RosterReader,
    /// To be an agent that may use files.
    FileUser,
    /// To be an agent, or to have this permission.
    ContextWriter(Capability),
}

/// What a tool asks of its caller.
pub open spec fn requirement(tool: ToolName) -> Requirement {
    match tool {
        ToolName::ViewAuditLog => Requirement::Capability(Capability::SystemConfigWrite),
        ToolName::GetAgentTokens => Requirement::Capability(Capability::AgentsRegister),
        ToolName::ViewStatus => Requirement::Capability(Capability::SystemConfigWrite),
        ToolName::RegisterAgent => Requirement::Capability(Capability::AgentsRegister),
        ToolName::RotateAgentToken => Requirement::Capability(Capability::AgentsRotateToken),
        ToolName::RestoreAgent => Requirement::Capability(Capability::AgentsTerminate),
        ToolName::EditAgent => Requirement::Capability(Capability::AgentsTerminate),
        ToolName::TerminateAgent => Requirement::Capability(Capability::AgentsTerminate),
        ToolName::PurgeAgent => Requirement::Capability(Capability::AgentsTerminate),
        ToolName::WaitForEvents => Requirement::IdentifiedAgent,
        ToolName::FetchEventsSince => Requirement::IdentifiedAgent,
        ToolName::SendAgentMessage => Requirement::AnyCaller,
        ToolName::BroadcastAdminMessage => Requirement::Operator,
        ToolName::GetAgentMessages => Requirement::MessageReader,
        ToolName::ViewAgents => Requirement::RosterReader,
        ToolName::UpdateAgentProfile => Requirement::Capability(Capability::AgentsUse),
        ToolName::GetSystemPrompt => Requirement::Capability(Capability::McpConnect),
        ToolName::CheckFileStatus => Requirement::FileUser,
        ToolName::UpdateFileStatus => Requirement::FileUser,
        ToolName::ViewFileMetadata => Requirement::FileUser,
        ToolName::UpdateFileMetadata => Requirement::Capability(Capability::SystemConfigWrite),
        ToolName::ValidateContextConsistency => Requirement::AnyCaller,
        ToolName::ViewProjectContext => Requirement::Capability(Capability::MemoriesView),
        ToolName::CreateProjectContext => Requirement::ContextWriter(Capability::MemoriesCreate),
        ToolName::UpdateProjectContext => Requirement::ContextWriter(Capability::MemoriesUpdate),
        ToolName::BulkUpdateProjectContext => Requirement::ContextWriter(Capability::MemoriesUpdate),
        ToolName::DeleteProjectContext => Requirement::ContextWriter(Capability::MemoriesDelete),
        ToolName::BackupProjectContext => Requirement::Capability(Capability::SystemConfigWrite),
    }
}

/// What `tool` asks of its caller.
pub fn required(tool: ToolName) -> (r: Requirement)
    ensures
        r == requirement(tool),
{
    match tool {
        ToolName::ViewAuditLog => Requirement::Capability(Capability::SystemConfigWrite),
        ToolName::GetAgentTokens => Requirement::Capability(Capability::AgentsRegister),
        ToolName::ViewStatus => Requirement::Capability(Capability::SystemConfigWrite),
        ToolName::RegisterAgent => Requirement::Capability(Capability::AgentsRegister),
        ToolName::RotateAgentToken => Requirement::Capability(Capability::AgentsRotateToken),
        ToolName::RestoreAgent => Requirement::Capability(Capability::AgentsTerminate),
        ToolName::EditAgent => Requirement::Capability(Capability::AgentsTerminate),
        ToolName::TerminateAgent => Requirement::Capability(Capability::AgentsTerminate),
        ToolName::PurgeAgent => Requirement::Capability(Capability::AgentsTerminate),
        ToolName::WaitForEvents => Requirement::IdentifiedAgent,
        ToolName::FetchEventsSince => Requirement::IdentifiedAgent,
        ToolName::SendAgentMessage => Requirement::AnyCaller,
        ToolName::BroadcastAdminMessage => Requirement::Operator,
        ToolName::GetAgentMessages => Requirement::MessageReader,
        ToolName::ViewAgents => Requirement::RosterReader,
        ToolName::UpdateAgentProfile => Requirement::Capability(Capability::AgentsUse),
        ToolName::GetSystemPrompt => Requirement::Capability(Capability::McpConnect),
        ToolName::CheckFileStatus => Requirement::FileUser,
        ToolName::UpdateFileStatus => Requirement::FileUser,
        ToolName::ViewFileMetadata => Requirement::FileUser,
        ToolName::UpdateFileMetadata => Requirement::Capability(Capability::SystemConfigWrite),
        ToolName::ValidateContextConsistency => Requirement::AnyCaller,
        ToolName::ViewProjectContext => Requirement::Capability(Capability::MemoriesView),
        ToolName::CreateProjectContext => Requirement::ContextWriter(Capability::MemoriesCreate),
        ToolName::UpdateProjectContext => Requirement::ContextWriter(Capability::MemoriesUpdate),
        ToolName::BulkUpdateProjectContext => Requirement::ContextWriter(Capability::MemoriesUpdate),
        ToolName::DeleteProjectContext => Requirement::ContextWriter(Capability::MemoriesDelete),
        ToolName::BackupProjectContext => Requirement::Capability(Capability::SystemConfigWrite),
    }
}

/// Whether a caller meets a requirement.
pub open spec fn meets(p: Option<PrincipalView>, r: Requirement) -> bool {
    match r {
        Requirement::Capability(cap) => caller_has(p, cap),
        Requirement::IdentifiedAgent => crate::agent_communication_tools::identified(p),
        Requirement::AnyCaller => p is Some,
        Requirement::Operator => is_operator(p),
        Requirement::MessageReader => crate::agent_communication_tools::identified(p)
            && caller_has(p, Capability::MessagesView),
        Requirement::RosterReader => caller_has(p, Capability::AgentsUse) || caller_has(
            p,
            Capability::AgentsView,
        ),
        Requirement::FileUser => crate::file_management_tools::file_capable(p),
        Requirement::ContextWriter(cap) => crate::context_health::may_write(p, cap),
    }
}

/// Whether the caller may call `tool`.
pub fn admits(tool: ToolName, principal: Option<&Principal>) -> (r: bool)
    ensures
        r == meets(caller_view(principal), requirement(tool)),
{
    match required(tool) {
        Requirement::Capability(cap) => has_capability(principal, cap),
        Requirement::IdentifiedAgent => {
            crate::agent_communication_tools::is_identified_agent(principal)
        },
        Requirement::AnyCaller => {
            crate::agent_communication_tools::is_authenticated_caller(principal)
        },
        Requirement::Operator => {
            crate::agent_communication_tools::is_operator_tier_caller(principal)
        },
        Requirement::MessageReader => {
            crate::agent_communication_tools::can_read_own_messages(principal)
        },
        Requirement::RosterReader => {
            crate::agent_roster_tools::principal_can_view_roster(principal)
        },
        Requirement::FileUser => crate::file_management_tools::is_file_capable_agent(principal),
        Requirement::ContextWriter(cap) => {
            crate::context_health::compound_write_gate(principal, cap)
        },
    }
}

/// Nobody calls a tool without an identity.
pub proof fn strangers_are_never_admitted(tool: ToolName)
    ensures
        !meets(None, requirement(tool)),
{
}

/// A caller who is no agent and has no permission beyond viewing the context
/// can change nothing of it.
pub proof fn viewers_cannot_write_the_context(p: PrincipalView)
    requires
        p.kind != crate::principal::PrincipalKind::AgentBearer,
        !caller_has(Some(p), Capability::MemoriesCreate),
        !caller_has(Some(p), Capability::MemoriesUpdate),
        !caller_has(Some(p), Capability::MemoriesDelete),
    ensures
        !meets(Some(p), requirement(ToolName::CreateProjectContext)),
        !meets(Some(p), requirement(ToolName::UpdateProjectContext)),
        !meets(Some(p), requirement(ToolName::BulkUpdateProjectContext)),
        !meets(Some(p), requirement(ToolName::DeleteProjectContext)),
{
}

/// What a tool tells a caller whom it does not admit, where it has words of
/// its own.
pub open spec fn refusal(tool: ToolName) -> Option<Seq<char>> {
    match tool {
        ToolName::ViewAuditLog => None,
        ToolName::GetAgentTokens => None,
        ToolName::ViewStatus => None,
        ToolName::RegisterAgent => None,
        ToolName::RotateAgentToken => None,
        ToolName::RestoreAgent => None,
        ToolName::EditAgent => None,
        ToolName::TerminateAgent => None,
        ToolName::PurgeAgent => None,
        ToolName::WaitForEvents => Some(crate::event_loop::WAIT_DENIED@),
        ToolName::FetchEventsSince => Some(crate::agent_communication_tools::FETCH_DENIED@),
        ToolName::SendAgentMessage => Some(crate::agent_communication_tools::SEND_DENIED@),
        ToolName::BroadcastAdminMessage => Some(crate::agent_communication_tools::BROADCAST_DENIED@),
        ToolName::GetAgentMessages => Some(crate::agent_communication_tools::READ_MESSAGES_DENIED@),
        ToolName::ViewAgents => Some(crate::agent_roster_tools::ROSTER_DENIED@),
        ToolName::UpdateAgentProfile => Some(crate::agent_roster_tools::PROFILE_DENIED@),
        ToolName::GetSystemPrompt => None,
        ToolName::CheckFileStatus => Some(crate::file_management_tools::CHECK_DENIED@),
        ToolName::UpdateFileStatus => Some(crate::file_management_tools::UPDATE_DENIED@),
        ToolName::ViewFileMetadata => Some(crate::file_metadata_tools::VIEW_DENIED@),
        ToolName::UpdateFileMetadata => Some(crate::file_metadata_tools::UPDATE_METADATA_DENIED@),
        ToolName::ValidateContextConsistency => Some(crate::context_health::AUTHENTICATED_DENIED_REASON@),
        ToolName::ViewProjectContext => None,
        ToolName::CreateProjectContext => Some(crate::context_health::WRITE_DENIED_REASON@),
        ToolName::UpdateProjectContext => Some(crate::context_health::WRITE_DENIED_REASON@),
        ToolName::BulkUpdateProjectContext => Some(crate::context_health::WRITE_DENIED_REASON@),
        ToolName::DeleteProjectContext => Some(crate::context_health::WRITE_DENIED_REASON@),
        ToolName::BackupProjectContext => None,
    }
}

/// What `tool` tells a caller whom it does not admit.
pub fn denial_reason(tool: ToolName) -> (r: Option<&'static str>)
    ensures
        crate::text::opt_str(r) == refusal(tool),
{
    match tool {
        ToolName::ViewAuditLog => None,
        ToolName::GetAgentTokens => None,
        ToolName::ViewStatus => None,
        ToolName::RegisterAgent => None,
        ToolName::RotateAgentToken => None,
        ToolName::RestoreAgent => None,
        ToolName::EditAgent => None,
        ToolName::TerminateAgent => None,
        ToolName::PurgeAgent => None,
        ToolName::WaitForEvents => Some(crate::event_loop::WAIT_DENIED),
        ToolName::FetchEventsSince => Some(crate::agent_communication_tools::FETCH_DENIED),
        ToolName::SendAgentMessage => Some(crate::agent_communication_tools::SEND_DENIED),
        ToolName::BroadcastAdminMessage => Some(crate::agent_communication_tools::BROADCAST_DENIED),
        ToolName::GetAgentMessages => Some(crate::agent_communication_tools::READ_MESSAGES_DENIED),
        ToolName::ViewAgents => Some(crate::agent_roster_tools::ROSTER_DENIED),
        ToolName::UpdateAgentProfile => Some(crate::agent_roster_tools::PROFILE_DENIED),
        ToolName::GetSystemPrompt => None,
        ToolName::CheckFileStatus => Some(crate::file_management_tools::CHECK_DENIED),
        ToolName::UpdateFileStatus => Some(crate::file_management_tools::UPDATE_DENIED),
        ToolName::ViewFileMetadata => Some(crate::file_metadata_tools::VIEW_DENIED),
        ToolName::UpdateFileMetadata => Some(crate::file_metadata_tools::UPDATE_METADATA_DENIED),
        ToolName::ValidateContextConsistency => Some(crate::context_health::AUTHENTICATED_DENIED_REASON),
        ToolName::ViewProjectContext => None,
        ToolName::CreateProjectContext => Some(crate::context_health::WRITE_DENIED_REASON),
        ToolName::UpdateProjectContext => Some(crate::context_health::WRITE_DENIED_REASON),
        ToolName::BulkUpdateProjectContext => Some(crate::context_health::WRITE_DENIED_REASON),
        ToolName::DeleteProjectContext => Some(crate::context_health::WRITE_DENIED_REASON),
        ToolName::BackupProjectContext => None,
    }
}

/// The name under which a tool is called.
pub open spec fn called(tool: ToolName) -> Seq<char> {
    match tool {
        ToolName::ViewAuditLog => "view_audit_log"@,
        ToolName::GetAgentTokens => "get_agent_tokens"@,
        ToolName::ViewStatus => "view_status"@,
        ToolName::RegisterAgent => "register_agent"@,
        ToolName::RotateAgentToken => "rotate_agent_token"@,
        ToolName::RestoreAgent => "restore_agent"@,
        ToolName::EditAgent => "edit_agent"@,
        ToolName::TerminateAgent => "terminate_agent"@,
        ToolName::PurgeAgent => "purge_agent"@,
        ToolName::WaitForEvents => "wait_for_events"@,
        ToolName::FetchEventsSince => "fetch_events_since"@,
        ToolName::SendAgentMessage => "send_agent_message"@,
        ToolName::BroadcastAdminMessage => "broadcast_admin_message"@,
        ToolName::GetAgentMessages => "get_agent_messages"@,
        ToolName::ViewAgents => "view_agents"@,
        ToolName::UpdateAgentProfile => "update_agent_profile"@,
        ToolName::GetSystemPrompt => "get_system_prompt"@,
        ToolName::CheckFileStatus => "check_file_status"@,
        ToolName::UpdateFileStatus => "update_file_status"@,
        ToolName::ViewFileMetadata => "view_file_metadata"@,
        ToolName::UpdateFileMetadata => "update_file_metadata"@,
        ToolName::ValidateContextConsistency => "validate_context_consistency"@,
        ToolName::ViewProjectContext => "view_project_context"@,
        ToolName::CreateProjectContext => "create_project_context"@,
        ToolName::UpdateProjectContext => "update_project_context"@,
        ToolName::BulkUpdateProjectContext => "bulk_update_project_context"@,
        ToolName::DeleteProjectContext => "delete_project_context"@,
        ToolName::BackupProjectContext => "backup_project_context"@,
    }
}

/// The name under which `tool` is called.
pub fn name(tool: ToolName) -> (r: &'static str)
    ensures
        r@ == called(tool),
{
    match tool {
        ToolName::ViewAuditLog => "view_audit_log",
        ToolName::GetAgentTokens => "get_agent_tokens",
        ToolName::ViewStatus => "view_status",
        ToolName::RegisterAgent => "register_agent",
        ToolName::RotateAgentToken => "rotate_agent_token",
        ToolName::RestoreAgent => "restore_agent",
        ToolName::EditAgent => "edit_agent",
        ToolName::TerminateAgent => "terminate_agent",
        ToolName::PurgeAgent => "purge_agent",
        ToolName::WaitForEvents => "wait_for_events",
        ToolName::FetchEventsSince => "fetch_events_since",
        ToolName::SendAgentMessage => "send_agent_message",
        ToolName::BroadcastAdminMessage => "broadcast_admin_message",
        ToolName::GetAgentMessages => "get_agent_messages",
        ToolName::ViewAgents => "view_agents",
        ToolName::UpdateAgentProfile => "update_agent_profile",
        ToolName::GetSystemPrompt => "get_system_prompt",
        ToolName::CheckFileStatus => "check_file_status",
        ToolName::UpdateFileStatus => "update_file_status",
        ToolName::ViewFileMetadata => "view_file_metadata",
        ToolName::UpdateFileMetadata => "update_file_metadata",
        ToolName::ValidateContextConsistency => "validate_context_consistency",
        ToolName::ViewProjectContext => "view_project_context",
        ToolName::CreateProjectContext => "create_project_context",
        ToolName::UpdateProjectContext => "update_project_context",
        ToolName::BulkUpdateProjectContext => "bulk_update_project_context",
        ToolName::DeleteProjectContext => "delete_project_context",
        ToolName::BackupProjectContext => "backup_project_context",
    }
}

/// The dialogue of a tool; `wait_for_events` has none of this form.
pub open spec fn dialogue(tool: ToolName, c: CallView, h: Seq<EventView>) -> Option<ActionView> {
    match tool {
        ToolName::ViewAuditLog => Some(crate::admin_tools::view_audit_log_next(c, h)),
        ToolName::GetAgentTokens => Some(crate::admin_tools::get_agent_tokens_next(c, h)),
        ToolName::ViewStatus => Some(crate::admin_tools::view_status_next(h)),
        ToolName::RegisterAgent => Some(crate::admin_tools::register_agent_next(c, h)),
        ToolName::RotateAgentToken => Some(crate::agent_lifecycle::rotate_agent_token_next(c, h)),
        ToolName::RestoreAgent => Some(crate::agent_lifecycle::restore_agent_next(c, h)),
        ToolName::EditAgent => Some(crate::agent_lifecycle::edit_agent_next(c, h)),
        ToolName::TerminateAgent => Some(crate::agent_lifecycle::terminate_agent_next(c, h)),
        ToolName::PurgeAgent => Some(crate::agent_lifecycle::purge_agent_next(c, h)),
        ToolName::WaitForEvents => None,
        ToolName::FetchEventsSince => Some(crate::agent_communication_tools::fetch_events_since_next(c, h)),
        ToolName::SendAgentMessage => Some(crate::agent_communication_tools::send_agent_message_next(c, h)),
        ToolName::BroadcastAdminMessage => Some(crate::agent_communication_tools::broadcast_admin_message_next(c, h)),
        ToolName::GetAgentMessages => Some(crate::agent_communication_tools::get_agent_messages_next(c, h)),
        ToolName::ViewAgents => Some(crate::agent_roster_tools::view_agents_next(h)),
        ToolName::UpdateAgentProfile => Some(crate::agent_roster_tools::update_agent_profile_next(c, h)),
        ToolName::GetSystemPrompt => Some(crate::agent_tools::get_system_prompt_next(c, h)),
        ToolName::CheckFileStatus => Some(crate::file_management_tools::check_file_status_next(c, h)),
        ToolName::UpdateFileStatus => Some(crate::file_management_tools::update_file_status_next(c, h)),
        ToolName::ViewFileMetadata => Some(crate::file_metadata_tools::view_file_metadata_next(c, h)),
        ToolName::UpdateFileMetadata => Some(crate::file_metadata_tools::update_file_metadata_next(c, h)),
        ToolName::ValidateContextConsistency => Some(crate::context_health::validate_next(c, h)),
        ToolName::ViewProjectContext => Some(crate::project_context_tools::view_project_context_next(c, h)),
        ToolName::CreateProjectContext => Some(crate::context_writing::create_project_context_next(c, h)),
        ToolName::UpdateProjectContext => Some(crate::context_writing::update_project_context_next(c, h)),
        ToolName::BulkUpdateProjectContext => Some(crate::context_writing::bulk_update_project_context_next(c, h)),
        ToolName::DeleteProjectContext => Some(crate::context_deletion::delete_project_context_next(c, h)),
        ToolName::BackupProjectContext => Some(crate::context_backup::backup_project_context_next(c, h)),
    }
}

/// What `tool` does after `history`.
pub fn next(tool: ToolName, call: &Call, history: &Vec<Event>) -> (r: Option<Action>)
    ensures
        match r {
            Some(a) => dialogue(tool, call@, events(history@)) == Some(a@),
            None => dialogue(tool, call@, events(history@)) is None,
        },
{
    match tool {
        ToolName::ViewAuditLog => Some(crate::admin_tools::ViewAuditLogTool::next(call, history)),
        ToolName::GetAgentTokens => Some(crate::admin_tools::GetAgentTokensTool::next(call, history)),
        ToolName::ViewStatus => Some(crate::admin_tools::ViewStatusTool::next(history)),
        ToolName::RegisterAgent => Some(crate::admin_tools::RegisterAgentTool::next(call, history)),
        ToolName::RotateAgentToken => Some(crate::agent_lifecycle::RotateAgentTokenTool::next(call, history)),
        ToolName::RestoreAgent => Some(crate::agent_lifecycle::RestoreAgentTool::next(call, history)),
        ToolName::EditAgent => Some(crate::agent_lifecycle::EditAgentTool::next(call, history)),
        ToolName::TerminateAgent => Some(crate::agent_lifecycle::TerminateAgentTool::next(call, history)),
        ToolName::PurgeAgent => Some(crate::agent_lifecycle::PurgeAgentTool::next(call, history)),
        ToolName::WaitForEvents => None,
        ToolName::FetchEventsSince => Some(crate::agent_communication_tools::FetchEventsSinceTool::next(call, history)),
        ToolName::SendAgentMessage => Some(crate::agent_communication_tools::SendAgentMessageTool::next(call, history)),
        ToolName::BroadcastAdminMessage => Some(crate::agent_communication_tools::BroadcastAdminMessageTool::next(call, history)),
        ToolName::GetAgentMessages => Some(crate::agent_communication_tools::GetAgentMessagesTool::next(call, history)),
        ToolName::ViewAgents => Some(crate::agent_roster_tools::ViewAgentsTool::next(history)),
        ToolName::UpdateAgentProfile => Some(crate::agent_roster_tools::UpdateAgentProfileTool::next(call, history)),
        ToolName::GetSystemPrompt => Some(crate::agent_tools::GetSystemPromptTool::next(call, history)),
        ToolName::CheckFileStatus => Some(crate::file_management_tools::CheckFileStatusTool::next(call, history)),
        ToolName::UpdateFileStatus => Some(crate::file_management_tools::UpdateFileStatusTool::next(call, history)),
        ToolName::ViewFileMetadata => Some(crate::file_metadata_tools::ViewFileMetadataTool::next(call, history)),
        ToolName::UpdateFileMetadata => Some(crate::file_metadata_tools::UpdateFileMetadataTool::next(call, history)),
        ToolName::ValidateContextConsistency => Some(crate::context_health::ValidateContextConsistencyTool::next(call, history)),
        ToolName::ViewProjectContext => Some(crate::project_context_tools::ViewProjectContextTool::next(call, history)),
        ToolName::CreateProjectContext => Some(crate::context_writing::CreateProjectContextTool::next(call, history)),
        ToolName::UpdateProjectContext => Some(crate::context_writing::UpdateProjectContextTool::next(call, history)),
        ToolName::BulkUpdateProjectContext => Some(crate::context_writing::BulkUpdateProjectContextTool::next(call, history)),
        ToolName::DeleteProjectContext => Some(crate::context_deletion::DeleteProjectContextTool::next(call, history)),
        ToolName::BackupProjectContext => Some(crate::context_backup::BackupProjectContextTool::next(call, history)),
    }
}

} // verus!

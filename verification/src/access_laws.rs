//! Who may call which tool, and under which name.

use crate::catalog::{called, dialogue, meets, refusal, requirement, ToolName};
use crate::principal::{grants, Capabilities, Capability, PrincipalKind, PrincipalView};
use crate::protocol::{ActionView, CallView, EventView};
use vstd::prelude::*;

verus! {

/// Whoever has every permission has each; anyone else has those that are listed.
pub proof fn permissions_are_listed(caps: Capabilities, cap: Capability)
    ensures
        caps is Sysadmin ==> grants(caps, cap),
        caps matches Capabilities::Listed(v) ==> (grants(caps, cap) <==> exists|i: int|
            0 <= i < v@.len() && #[trigger] v@[i] == cap),
{
}

/// What each tool asks of its caller. The tools of the operators ask for the
/// permission to register agents, to change their tokens, to end them or to set
/// up the system; those of the agents for an agent; and those that read or write
/// the context for the permission to do so, which every agent has to write.
pub proof fn tools_ask_for_permissions(p: PrincipalView)
    ensures
        ({
            let may = |tool: ToolName| meets(Some(p), requirement(tool));
            let has = |cap: Capability| grants(p.capabilities, cap);
            let agent = p.agent_id is Some && p.agent_id->0.len() > 0;
            let bearer = p.kind == PrincipalKind::AgentBearer;
            &&& may(ToolName::ViewAuditLog) <==> has(Capability::SystemConfigWrite)
            &&& may(ToolName::GetAgentTokens) <==> has(Capability::AgentsRegister)
            &&& may(ToolName::ViewStatus) <==> has(Capability::SystemConfigWrite)
            &&& may(ToolName::RegisterAgent) <==> has(Capability::AgentsRegister)
            &&& may(ToolName::RotateAgentToken) <==> has(Capability::AgentsRotateToken)
            &&& may(ToolName::RestoreAgent) <==> has(Capability::AgentsTerminate)
            &&& may(ToolName::EditAgent) <==> has(Capability::AgentsTerminate)
            &&& may(ToolName::TerminateAgent) <==> has(Capability::AgentsTerminate)
            &&& may(ToolName::PurgeAgent) <==> has(Capability::AgentsTerminate)
            &&& may(ToolName::UpdateAgentProfile) <==> has(Capability::AgentsUse)
            &&& may(ToolName::GetSystemPrompt) <==> has(Capability::McpConnect)
            &&& may(ToolName::UpdateFileMetadata) <==> has(Capability::SystemConfigWrite)
            &&& may(ToolName::ViewProjectContext) <==> has(Capability::MemoriesView)
            &&& may(ToolName::BackupProjectContext) <==> has(Capability::SystemConfigWrite)
            &&& may(ToolName::WaitForEvents) <==> agent
            &&& may(ToolName::FetchEventsSince) <==> agent
            &&& may(ToolName::SendAgentMessage)
            &&& may(ToolName::ValidateContextConsistency)
            &&& may(ToolName::BroadcastAdminMessage) <==> p.operator_tier
            &&& may(ToolName::GetAgentMessages) <==> agent && has(Capability::MessagesView)
            &&& may(ToolName::ViewAgents) <==> has(Capability::AgentsUse) || has(
                Capability::AgentsView,
            )
            &&& may(ToolName::CheckFileStatus) <==> bearer && has(Capability::FilesUse)
            &&& may(ToolName::UpdateFileStatus) <==> bearer && has(Capability::FilesUse)
            &&& may(ToolName::ViewFileMetadata) <==> bearer && has(Capability::FilesUse)
            &&& may(ToolName::CreateProjectContext) <==> bearer || has(Capability::MemoriesCreate)
            &&& may(ToolName::UpdateProjectContext) <==> bearer || has(Capability::MemoriesUpdate)
            &&& may(ToolName::BulkUpdateProjectContext) <==> bearer || has(
                Capability::MemoriesUpdate,
            )
            &&& may(ToolName::DeleteProjectContext) <==> bearer || has(Capability::MemoriesDelete)
        }),
{
}

/// A caller with every permission may call every tool that asks for one alone.
pub proof fn administrators_are_admitted(p: PrincipalView, tool: ToolName)
    requires
        p.capabilities is Sysadmin,
        p.operator_tier,
        p.agent_id is Some,
        p.agent_id->0.len() > 0,
        p.kind == PrincipalKind::AgentBearer,
    ensures
        meets(Some(p), requirement(tool)),
{
}

/// No two tools go by one name.
pub proof fn names_tell_tools_apart(a: ToolName, b: ToolName)
    requires
        called(a) == called(b),
    ensures
        a == b,
{
    reveal_strlit("view_audit_log");
    reveal_strlit("get_agent_tokens");
    reveal_strlit("view_status");
    reveal_strlit("register_agent");
    reveal_strlit("rotate_agent_token");
    reveal_strlit("restore_agent");
    reveal_strlit("edit_agent");
    reveal_strlit("terminate_agent");
    reveal_strlit("purge_agent");
    reveal_strlit("wait_for_events");
    reveal_strlit("fetch_events_since");
    reveal_strlit("send_agent_message");
    reveal_strlit("broadcast_admin_message");
    reveal_strlit("get_agent_messages");
    reveal_strlit("view_agents");
    reveal_strlit("update_agent_profile");
    reveal_strlit("get_system_prompt");
    reveal_strlit("check_file_status");
    reveal_strlit("update_file_status");
    reveal_strlit("view_file_metadata");
    reveal_strlit("update_file_metadata");
    reveal_strlit("validate_context_consistency");
    reveal_strlit("view_project_context");
    reveal_strlit("create_project_context");
    reveal_strlit("update_project_context");
    reveal_strlit("bulk_update_project_context");
    reveal_strlit("delete_project_context");
    reveal_strlit("backup_project_context");
    assert("view_audit_log"@.len() == 14);
    assert("get_agent_tokens"@.len() == 16);
    assert("view_status"@.len() == 11);
    assert("register_agent"@.len() == 14);
    assert("rotate_agent_token"@.len() == 18);
    assert("restore_agent"@.len() == 13);
    assert("edit_agent"@.len() == 10);
    assert("terminate_agent"@.len() == 15);
    assert("purge_agent"@.len() == 11);
    assert("wait_for_events"@.len() == 15);
    assert("fetch_events_since"@.len() == 18);
    assert("send_agent_message"@.len() == 18);
    assert("broadcast_admin_message"@.len() == 23);
    assert("get_agent_messages"@.len() == 18);
    assert("view_agents"@.len() == 11);
    assert("update_agent_profile"@.len() == 20);
    assert("get_system_prompt"@.len() == 17);
    assert("check_file_status"@.len() == 17);
    assert("update_file_status"@.len() == 18);
    assert("view_file_metadata"@.len() == 18);
    assert("update_file_metadata"@.len() == 20);
    assert("validate_context_consistency"@.len() == 28);
    assert("view_project_context"@.len() == 20);
    assert("create_project_context"@.len() == 22);
    assert("update_project_context"@.len() == 22);
    assert("bulk_update_project_context"@.len() == 27);
    assert("delete_project_context"@.len() == 22);
    assert("backup_project_context"@.len() == 22);
    assert("backup_project_context"@[0] == 'b');
    assert("check_file_status"@[0] == 'c');
    assert("create_project_context"@[0] == 'c');
    assert("delete_project_context"@[0] == 'd');
    assert("fetch_events_since"@[0] == 'f');
    assert("get_agent_messages"@[0] == 'g');
    assert("get_system_prompt"@[0] == 'g');
    assert("purge_agent"@[0] == 'p');
    assert("register_agent"@[0] == 'r');
    assert("rotate_agent_token"@[0] == 'r');
    assert("send_agent_message"@[0] == 's');
    assert("terminate_agent"@[0] == 't');
    assert("update_agent_profile"@[0] == 'u');
    assert("update_agent_profile"@[7] == 'a');
    assert("update_file_metadata"@[0] == 'u');
    assert("update_file_metadata"@[7] == 'f');
    assert("update_file_status"@[0] == 'u');
    assert("update_project_context"@[0] == 'u');
    assert("view_agents"@[0] == 'v');
    assert("view_agents"@[5] == 'a');
    assert("view_audit_log"@[0] == 'v');
    assert("view_file_metadata"@[0] == 'v');
    assert("view_project_context"@[0] == 'v');
    assert("view_status"@[0] == 'v');
    assert("view_status"@[5] == 's');
    assert("wait_for_events"@[0] == 'w');
}

/// A tool is told apart by its name, which says what it does.
pub proof fn tools_are_called_by_what_they_do()
    ensures
        called(ToolName::ViewAuditLog) == "view_audit_log"@,
        called(ToolName::GetAgentTokens) == "get_agent_tokens"@,
        called(ToolName::ViewStatus) == "view_status"@,
        called(ToolName::RegisterAgent) == "register_agent"@,
        called(ToolName::RotateAgentToken) == "rotate_agent_token"@,
        called(ToolName::RestoreAgent) == "restore_agent"@,
        called(ToolName::EditAgent) == "edit_agent"@,
        called(ToolName::TerminateAgent) == "terminate_agent"@,
        called(ToolName::PurgeAgent) == "purge_agent"@,
        called(ToolName::WaitForEvents) == "wait_for_events"@,
        called(ToolName::FetchEventsSince) == "fetch_events_since"@,
        called(ToolName::SendAgentMessage) == "send_agent_message"@,
        called(ToolName::BroadcastAdminMessage) == "broadcast_admin_message"@,
        called(ToolName::GetAgentMessages) == "get_agent_messages"@,
        called(ToolName::ViewAgents) == "view_agents"@,
        called(ToolName::UpdateAgentProfile) == "update_agent_profile"@,
        called(ToolName::GetSystemPrompt) == "get_system_prompt"@,
        called(ToolName::CheckFileStatus) == "check_file_status"@,
        called(ToolName::UpdateFileStatus) == "update_file_status"@,
        called(ToolName::ViewFileMetadata) == "view_file_metadata"@,
        called(ToolName::UpdateFileMetadata) == "update_file_metadata"@,
        called(ToolName::ValidateContextConsistency) == "validate_context_consistency"@,
        called(ToolName::ViewProjectContext) == "view_project_context"@,
        called(ToolName::CreateProjectContext) == "create_project_context"@,
        called(ToolName::UpdateProjectContext) == "update_project_context"@,
        called(ToolName::BulkUpdateProjectContext) == "bulk_update_project_context"@,
        called(ToolName::DeleteProjectContext) == "delete_project_context"@,
        called(ToolName::BackupProjectContext) == "backup_project_context"@,
{
}

/// Each tool goes through its own dialogue; waiting for events has none of this
/// form.
pub proof fn tools_go_through_their_own_dialogue(c: CallView, h: Seq<EventView>)
    ensures
        dialogue(ToolName::ViewAuditLog, c, h) == Some(crate::admin_tools::view_audit_log_next(c, h)),
        dialogue(ToolName::GetAgentTokens, c, h) == Some(crate::admin_tools::get_agent_tokens_next(c, h)),
        dialogue(ToolName::ViewStatus, c, h) == Some(crate::admin_tools::view_status_next(h)),
        dialogue(ToolName::RegisterAgent, c, h) == Some(crate::admin_tools::register_agent_next(c, h)),
        dialogue(ToolName::RotateAgentToken, c, h) == Some(crate::agent_lifecycle::rotate_agent_token_next(c, h)),
        dialogue(ToolName::RestoreAgent, c, h) == Some(crate::agent_lifecycle::restore_agent_next(c, h)),
        dialogue(ToolName::EditAgent, c, h) == Some(crate::agent_lifecycle::edit_agent_next(c, h)),
        dialogue(ToolName::TerminateAgent, c, h) == Some(crate::agent_lifecycle::terminate_agent_next(c, h)),
        dialogue(ToolName::PurgeAgent, c, h) == Some(crate::agent_lifecycle::purge_agent_next(c, h)),
        dialogue(ToolName::WaitForEvents, c, h) == None::<ActionView>,
        dialogue(ToolName::FetchEventsSince, c, h) == Some(crate::agent_communication_tools::fetch_events_since_next(c, h)),
        dialogue(ToolName::SendAgentMessage, c, h) == Some(crate::agent_communication_tools::send_agent_message_next(c, h)),
        dialogue(ToolName::BroadcastAdminMessage, c, h) == Some(crate::agent_communication_tools::broadcast_admin_message_next(c, h)),
        dialogue(ToolName::GetAgentMessages, c, h) == Some(crate::agent_communication_tools::get_agent_messages_next(c, h)),
        dialogue(ToolName::ViewAgents, c, h) == Some(crate::agent_roster_tools::view_agents_next(h)),
        dialogue(ToolName::UpdateAgentProfile, c, h) == Some(crate::agent_roster_tools::update_agent_profile_next(c, h)),
        dialogue(ToolName::GetSystemPrompt, c, h) == Some(crate::agent_tools::get_system_prompt_next(c, h)),
        dialogue(ToolName::CheckFileStatus, c, h) == Some(crate::file_management_tools::check_file_status_next(c, h)),
        dialogue(ToolName::UpdateFileStatus, c, h) == Some(crate::file_management_tools::update_file_status_next(c, h)),
        dialogue(ToolName::ViewFileMetadata, c, h) == Some(crate::file_metadata_tools::view_file_metadata_next(c, h)),
        dialogue(ToolName::UpdateFileMetadata, c, h) == Some(crate::file_metadata_tools::update_file_metadata_next(c, h)),
        dialogue(ToolName::ValidateContextConsistency, c, h) == Some(crate::context_health::validate_next(c, h)),
        dialogue(ToolName::ViewProjectContext, c, h) == Some(crate::project_context_tools::view_project_context_next(c, h)),
        dialogue(ToolName::CreateProjectContext, c, h) == Some(crate::context_writing::create_project_context_next(c, h)),
        dialogue(ToolName::UpdateProjectContext, c, h) == Some(crate::context_writing::update_project_context_next(c, h)),
        dialogue(ToolName::BulkUpdateProjectContext, c, h) == Some(crate::context_writing::bulk_update_project_context_next(c, h)),
        dialogue(ToolName::DeleteProjectContext, c, h) == Some(crate::context_deletion::delete_project_context_next(c, h)),
        dialogue(ToolName::BackupProjectContext, c, h) == Some(crate::context_backup::backup_project_context_next(c, h)),
{
}

/// Whom a tool refuses reads what the tool asks for; the tools that ask for one
/// permission alone have no words of their own.
pub proof fn refusals_say_what_is_asked_for()
    ensures
        refusal(ToolName::ViewAuditLog) is None,
        refusal(ToolName::GetAgentTokens) is None,
        refusal(ToolName::ViewStatus) is None,
        refusal(ToolName::RegisterAgent) is None,
        refusal(ToolName::RotateAgentToken) is None,
        refusal(ToolName::RestoreAgent) is None,
        refusal(ToolName::EditAgent) is None,
        refusal(ToolName::TerminateAgent) is None,
        refusal(ToolName::PurgeAgent) is None,
        refusal(ToolName::WaitForEvents) == Some(
            "Unauthorized: Valid agent token required to long-poll events"@,
        ),
        refusal(ToolName::FetchEventsSince) == Some(
            "Unauthorized: Valid agent token required to fetch events"@,
        ),
        refusal(ToolName::SendAgentMessage) == Some(
            "Unauthorized: Valid token or operator session required"@,
        ),
        refusal(ToolName::BroadcastAdminMessage) == Some(
            "Unauthorized: operator role required to broadcast"@,
        ),
        refusal(ToolName::GetAgentMessages) == Some(
            "Unauthorized: Valid agent token with the messages.view capability required to retrieve messages"@,
        ),
        refusal(ToolName::ViewAgents) == Some(
            "Unauthorized: An authenticated agent or operator is required to view the agent roster."@,
        ),
        refusal(ToolName::UpdateAgentProfile) == Some(
            "Unauthorized: An authenticated agent is required to update a profile."@,
        ),
        refusal(ToolName::GetSystemPrompt) is None,
        refusal(ToolName::CheckFileStatus) == Some(
            "Unauthorized: agent token with files.use capability required to check file status"@,
        ),
        refusal(ToolName::UpdateFileStatus) == Some(
            "Unauthorized: agent token with files.use capability required to update file status"@,
        ),
        refusal(ToolName::ViewFileMetadata) == Some(
            "Unauthorized: agent token with files.use capability required to view file metadata"@,
        ),
        refusal(ToolName::UpdateFileMetadata) == Some(
            "Unauthorized: Updating file metadata is an operator-only action; a worker agent cannot record file metadata. Ask a project operator to set it. (You can still read metadata with view_file_metadata.)"@,
        ),
        refusal(ToolName::ValidateContextConsistency) == Some(
            "Unauthorized: Valid token or operator session required"@,
        ),
        refusal(ToolName::ViewProjectContext) is None,
        refusal(ToolName::CreateProjectContext) == Some(
            "Unauthorized: Valid token or operator session required, and viewer-tier operators cannot mutate project context (read-only project membership)"@,
        ),
        refusal(ToolName::UpdateProjectContext) == Some(
            "Unauthorized: Valid token or operator session required, and viewer-tier operators cannot mutate project context (read-only project membership)"@,
        ),
        refusal(ToolName::BulkUpdateProjectContext) == Some(
            "Unauthorized: Valid token or operator session required, and viewer-tier operators cannot mutate project context (read-only project membership)"@,
        ),
        refusal(ToolName::DeleteProjectContext) == Some(
            "Unauthorized: Valid token or operator session required, and viewer-tier operators cannot mutate project context (read-only project membership)"@,
        ),
        refusal(ToolName::BackupProjectContext) is None,
{
}

} // verus!

use conexus_tools::catalog::ToolName;
use conexus_tools::context_writing::IDENTIFIER_MAX_LEN;
use conexus_tools::schemas::{description, schema, PATH_MAX_LEN};

fn parsed(tool: ToolName) -> serde_json::Value {
    serde_json::from_str(schema(tool)).unwrap()
}

fn max_len(tool: ToolName, field: &str) -> usize {
    parsed(tool)["properties"][field]["maxLength"].as_u64().unwrap() as usize
}

#[test]
fn file_management_tools_schema_max_lengths_match_the_shared_constant() {
    for tool in [ToolName::CheckFileStatus, ToolName::UpdateFileStatus] {
        assert_eq!(max_len(tool, "filepath"), PATH_MAX_LEN);
    }
}

#[test]
fn file_metadata_tools_schema_max_lengths_match_the_shared_constant() {
    for tool in [ToolName::ViewFileMetadata, ToolName::UpdateFileMetadata] {
        assert_eq!(max_len(tool, "filepath"), PATH_MAX_LEN);
    }
}

#[test]
fn view_schema_max_length_matches_the_shared_constant() {
    assert_eq!(max_len(ToolName::ViewProjectContext, "context_key"), IDENTIFIER_MAX_LEN);
}

#[test]
fn create_schema_max_length_matches_the_shared_constant() {
    assert_eq!(max_len(ToolName::CreateProjectContext, "context_key"), IDENTIFIER_MAX_LEN);
}

#[test]
fn delete_schema_has_no_key_length_cap_matching_pythons_own_note() {
    let delete = parsed(ToolName::DeleteProjectContext);
    assert!(delete["properties"]["context_key"].get("maxLength").is_none());
}

#[test]
fn update_tool_schema_does_not_declare_updates_matching_pythons_own_inconsistency() {
    let update = parsed(ToolName::UpdateProjectContext);
    assert!(update["properties"].get("updates").is_none());
}

#[test]
fn every_schema_is_a_closed_object() {
    for tool in [
        ToolName::ViewAuditLog,
        ToolName::GetAgentTokens,
        ToolName::ViewStatus,
        ToolName::RegisterAgent,
        ToolName::RotateAgentToken,
        ToolName::RestoreAgent,
        ToolName::EditAgent,
        ToolName::TerminateAgent,
        ToolName::PurgeAgent,
        ToolName::WaitForEvents,
        ToolName::FetchEventsSince,
        ToolName::SendAgentMessage,
        ToolName::BroadcastAdminMessage,
        ToolName::GetAgentMessages,
        ToolName::ViewAgents,
        ToolName::UpdateAgentProfile,
        ToolName::GetSystemPrompt,
        ToolName::CheckFileStatus,
        ToolName::UpdateFileStatus,
        ToolName::ViewFileMetadata,
        ToolName::UpdateFileMetadata,
        ToolName::ValidateContextConsistency,
        ToolName::ViewProjectContext,
        ToolName::CreateProjectContext,
        ToolName::UpdateProjectContext,
        ToolName::BulkUpdateProjectContext,
        ToolName::DeleteProjectContext,
        ToolName::BackupProjectContext,
    ] {
        let p = parsed(tool);
        assert_eq!(p["type"], "object");
        assert_eq!(p["additionalProperties"], false);
        assert!(!description(tool).is_empty());
    }
}

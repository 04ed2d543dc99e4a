use conexus_tools::catalog;
use conexus_tools::catalog::ToolName;
use conexus_tools::file_management_tools::{
    is_file_capable_agent, normalize_lexically, resolve_abs_filepath, CheckFileStatusTool,
    UpdateFileStatusTool,
};
use conexus_tools::file_metadata_tools::{UpdateFileMetadataTool, ViewFileMetadataTool};
use conexus_tools::json::{Field, Json};
use conexus_tools::principal::{Capabilities, Capability, Principal, PrincipalKind};
use conexus_tools::protocol::{
    Action, AgentRow, Call, Claim, Event, MetadataRow, Stamp, ToolResult,
};

fn text(s: &str) -> Json {
    Json::Text(s.to_string())
}

fn obj(pairs: Vec<(&str, Json)>) -> Json {
    Json::Object(
        pairs
            .into_iter()
            .map(|(k, v)| Field { key: k.to_string(), value: v })
            .collect(),
    )
}

fn finished(a: Action) -> ToolResult {
    match a {
        Action::Finish(r) => r,
        other => panic!("expected an end, got {other:?}"),
    }
}

fn success(a: Action) -> (Json, String) {
    match finished(a) {
        ToolResult::Success { data: Some(d), message: Some(m) } => (d, m),
        other => panic!("expected success, got {other:?}"),
    }
}

fn person(agent_id: Option<&str>, caps: Vec<Capability>) -> Principal {
    Principal {
        kind: PrincipalKind::AgentBearer,
        user_id: None,
        agent_id: agent_id.map(str::to_string),
        project_name: None,
        agent_role: None,
        capabilities: Capabilities::Listed(caps),
        actor_label: agent_id.unwrap_or("op").to_string(),
        sender_label: agent_id.unwrap_or("op").to_string(),
        operator_tier: false,
        confirmed_operator_tier: false,
    }
}

fn call(principal: Option<Principal>, arguments: Json) -> Call {
    Call {
        principal,
        arguments,
        now: "2026-06-01T00:01:00Z".to_string(),
        instant: Some(Stamp { secs: 1780272060, nanos: 0 }),
        project_dir: "/tmp/project".to_string(),
        terminal_agent_statuses: vec!["terminated".to_string(), "tombstone".to_string()],
        terminal_task_statuses: vec!["completed".to_string(), "failed".to_string()],
    }
}


fn agent(agent_id: &str, status: &str) -> AgentRow {
    AgentRow {
        token: "old-token-value".to_string(),
        agent_id: agent_id.to_string(),
        created_at: "2026-06-01T00:00:00Z".to_string(),
        status: status.to_string(),
        current_task: None,
        working_directory: "/home/alice/repo".to_string(),
        color: None,
        terminated_at: None,
        updated_at: None,
        aoe_session_id: None,
        auto_event_loop: true,
        last_event_seen_at: None,
        last_activity_at: None,
        agent_role: "worker".to_string(),
        profile: None,
        profile_updated_at: None,
        profile_reviewed_at: None,
        profile_updated_by: None,
    }
}

fn agent_principal(id: &str) -> Principal {
    person(Some(id), vec![Capability::FilesUse])
}

fn home() -> Event {
    Event::Agent(Some(agent("alice", "active")))
}

fn claim(by: &str) -> Event {
    Event::Holder(Some(Claim {
        agent_id: by.to_string(),
        status: "editing".to_string(),
        timestamp: "t0".to_string(),
    }))
}

#[test]
fn resolve_abs_filepath_normalizes_a_relative_path_lexically() {
    assert_eq!(
        resolve_abs_filepath("/home/alice/repo", "src/../lib/./main.rs"),
        "/home/alice/repo/lib/main.rs"
    );
}

#[test]
fn resolve_abs_filepath_leaves_an_absolute_path_untouched() {
    assert_eq!(
        resolve_abs_filepath("/home/alice/repo", "/etc/hosts"),
        "/etc/hosts"
    );
}

#[test]
fn paths_are_normalized_by_their_letters() {
    for (path, normal) in [
        ("/", "/"),
        ("//a///b/", "/a/b"),
        ("/../..", "/"),
        ("/a/../../b", "/b"),
        ("a/../..", ".."),
        ("../../a/..", "../.."),
        ("./a/.", "a"),
        ("", ""),
        ("...", "..."),
    ] {
        assert_eq!(normalize_lexically(path), normal, "{path}");
        assert_eq!(normalize_lexically(normal), normal, "{normal}");
    }
    assert_eq!(resolve_abs_filepath("", "a/b"), "a/b");
    assert_eq!(resolve_abs_filepath("/x/", "y"), "/x/y");
}

#[test]
fn a_predicate_denies_a_non_agent_bearer_principal() {
    let mut op = agent_principal("alice");
    op.kind = PrincipalKind::ForwardingHeader;
    assert!(!is_file_capable_agent(Some(&op)));
}

#[test]
fn a_predicate_denies_missing_principal() {
    assert!(!is_file_capable_agent(None));
}

#[test]
fn a_worker_cannot_update_metadata() {
    let principal = agent_principal("alice");
    assert!(!catalog::admits(ToolName::ViewFileMetadata, None));
    assert!(!catalog::admits(ToolName::UpdateFileMetadata, Some(&principal)));
    assert!(catalog::admits(ToolName::ViewFileMetadata, Some(&principal)));
}

fn file(path: &str) -> Call {
    call(Some(agent_principal("alice")), obj(vec![("filepath", text(path))]))
}

#[test]
fn a_check_reports_who_uses_a_file() {
    let c = file("src/a.rs");
    assert!(matches!(CheckFileStatusTool::next(&c, &vec![]), Action::GetAgent { .. }));
    match CheckFileStatusTool::next(&c, &vec![home()]) {
        Action::FileHolder { path } => assert_eq!(path, "/home/alice/repo/src/a.rs"),
        other => panic!("{other:?}"),
    }
    let (data, message) =
        success(CheckFileStatusTool::next(&c, &vec![home(), Event::Holder(None)]));
    assert_eq!(data.flag_at("in_use"), Some(false));
    assert!(message.ends_with("is not currently being used by any agent according to the file map."));
    let (data, message) = success(CheckFileStatusTool::next(&c, &vec![home(), claim("bob")]));
    assert_eq!(data.text_at("agent_id"), Some("bob"));
    assert_eq!(
        message,
        "File 'src/a.rs' (resolved: /home/alice/repo/src/a.rs) is currently being used by agent 'bob' since t0. Status: editing"
    );
    let (_, message) = success(CheckFileStatusTool::next(&c, &vec![home(), claim("alice")]));
    assert!(message.contains("is currently being used by YOU (alice) since t0. Status: editing"));
    assert!(matches!(
        finished(CheckFileStatusTool::next(&file(""), &vec![])),
        ToolResult::Invalid { .. }
    ));
}

#[test]
fn an_agent_without_a_directory_uses_the_servers() {
    let c = file("a");
    assert!(matches!(
        CheckFileStatusTool::next(&c, &vec![Event::Agent(None)]),
        Action::CurrentDir
    ));
    let h = vec![Event::Failed, Event::Text(Some("/srv".to_string()))];
    match CheckFileStatusTool::next(&c, &h) {
        Action::FileHolder { path } => assert_eq!(path, "/srv/a"),
        other => panic!("{other:?}"),
    }
}

fn set(status: &str) -> Call {
    call(
        Some(agent_principal("alice")),
        obj(vec![("filepath", text("a")), ("status", text(status))]),
    )
}

#[test]
fn a_foreign_claim_can_be_neither_taken_nor_released() {
    for status in ["editing", "reading", "reviewing", "released"] {
        let c = set(status);
        match finished(UpdateFileStatusTool::next(&c, &vec![home(), claim("bob")])) {
            ToolResult::Conflict { reason } => {
                assert!(reason.contains("is already claimed by agent 'bob' since t0 (status: editing)."));
                assert!(reason.contains("frees only when 'bob' releases it"));
            }
            other => panic!("{other:?}"),
        }
    }
}

#[test]
fn a_free_or_own_file_is_claimed() {
    let c = set("reviewing");
    for holder in [Event::Holder(None), claim("alice")] {
        match UpdateFileStatusTool::next(&c, &vec![home(), holder]) {
            Action::ClaimFile { path, agent_id, status, .. } => {
                assert_eq!(path, "/home/alice/repo/a");
                assert_eq!(agent_id, "alice");
                assert_eq!(status, "reviewing");
            }
            other => panic!("{other:?}"),
        }
    }
    let h = vec![home(), Event::Holder(None), Event::Done];
    let (data, message) = success(UpdateFileStatusTool::next(&c, &h));
    assert_eq!(data.text_at("status"), Some("reviewing"));
    assert!(message.ends_with("is now registered to agent 'alice' with status 'reviewing'."));
}

#[test]
fn releasing_is_idempotent() {
    let c = set("released");
    let held = || vec![home(), claim("alice")];
    assert!(matches!(UpdateFileStatusTool::next(&c, &held()), Action::ReleaseFile { .. }));
    let mut h = held();
    h.push(Event::Changed(true));
    let (data, _) = success(UpdateFileStatusTool::next(&c, &h));
    assert_eq!(data.text_at("status"), Some("released"));
    let h = vec![home(), Event::Holder(None), Event::Changed(false)];
    let (data, message) = success(UpdateFileStatusTool::next(&c, &h));
    assert_eq!(data.flag_at("in_use"), Some(false));
    assert!(message.contains("already considered released or never tracked"));
}

#[test]
fn unknown_statuses_are_refused() {
    match finished(UpdateFileStatusTool::next(&set("hoarding"), &vec![])) {
        ToolResult::Invalid { field, message } => {
            assert_eq!(field.as_deref(), Some("status"));
            assert_eq!(
                message,
                "Invalid status: 'hoarding'. Must be one of: editing, reading, reviewing, released"
            );
        }
        other => panic!("{other:?}"),
    }
    match finished(UpdateFileStatusTool::next(&file("a"), &vec![])) {
        ToolResult::Invalid { field, .. } => assert_eq!(field.as_deref(), Some("status")),
        other => panic!("{other:?}"),
    }
}

fn row(metadata: &str) -> Event {
    Event::Metadata(Some(MetadataRow {
        metadata: metadata.to_string(),
        updated_by: Some("op".to_string()),
        last_updated: Some("t".to_string()),
        content_hash: None,
    }))
}

#[test]
fn metadata_is_looked_up_under_the_path_on_disk() {
    let c = file("a");
    assert!(matches!(ViewFileMetadataTool::next(&c, &vec![home()]), Action::Canonicalize { .. }));
    let disk = || Event::Text(Some("/real/a".to_string()));
    match ViewFileMetadataTool::next(&c, &vec![home(), disk()]) {
        Action::GetMetadata { path } => assert_eq!(path, "/real/a"),
        other => panic!("{other:?}"),
    }
    match ViewFileMetadataTool::next(&c, &vec![home(), Event::Failed]) {
        Action::GetMetadata { path } => assert_eq!(path, "/home/alice/repo/a"),
        other => panic!("{other:?}"),
    }
    let h = vec![home(), disk(), row("{\"purpose\": \"x\"}")];
    let (data, message) = success(ViewFileMetadataTool::next(&c, &h));
    assert_eq!(data.get("metadata").unwrap().text_at("purpose"), Some("x"));
    assert_eq!(data.text_at("content_hash"), Some("N/A"));
    assert!(message.starts_with("Metadata for file 'a' (normalized: /real/a):\n\n{\n  \"content_hash\": \"N/A\""));
    let h = vec![home(), disk(), row("{bad")];
    let (data, _) = success(ViewFileMetadataTool::next(&c, &h));
    assert_eq!(data.get("metadata").unwrap().text_at("raw_value"), Some("{bad"));
    let h = vec![home(), disk(), Event::Metadata(None)];
    let (data, _) = success(ViewFileMetadataTool::next(&c, &h));
    assert_eq!(data.get("metadata"), Some(&Json::Null));
    let h = vec![home(), disk(), Event::Failed];
    assert!(matches!(finished(ViewFileMetadataTool::next(&c, &h)), ToolResult::Failed { .. }));
}

#[test]
fn a_path_with_a_null_character_is_refused() {
    match finished(ViewFileMetadataTool::next(&file("a\0b"), &vec![home()])) {
        ToolResult::Invalid { message, .. } => {
            assert_eq!(message, "filepath could not be resolved to a valid path.");
        }
        other => panic!("{other:?}"),
    }
}

#[test]
fn metadata_is_stored_as_compact_text() {
    let c = call(
        Some(agent_principal("alice")),
        obj(vec![("filepath", text("a")), ("metadata", obj(vec![("b", text("\"")), ("a", Json::Null)]))]),
    );
    let disk = || Event::Text(Some("/real/a".to_string()));
    match UpdateFileMetadataTool::next(&c, &vec![home(), disk()]) {
        Action::PutMetadata { path, metadata, updated_by, .. } => {
            assert_eq!(path, "/real/a");
            assert_eq!(metadata, "{\"a\":null,\"b\":\"\\\"\"}");
            assert_eq!(updated_by, "alice");
        }
        other => panic!("{other:?}"),
    }
    let h = vec![home(), disk(), Event::Done];
    assert!(matches!(UpdateFileMetadataTool::next(&c, &h), Action::LogAction { .. }));
    let h = vec![home(), disk(), Event::Done, Event::Failed];
    let (data, message) = success(UpdateFileMetadataTool::next(&c, &h));
    assert_eq!(data.text_at("filepath"), Some("/real/a"));
    assert_eq!(message, "File metadata updated successfully for 'a' (normalized: /real/a).");
    let h = vec![home(), disk(), Event::Error("e".to_string())];
    assert!(matches!(finished(UpdateFileMetadataTool::next(&c, &h)), ToolResult::Failed { .. }));
    let c = call(
        Some(agent_principal("alice")),
        obj(vec![("filepath", text("a")), ("metadata", text("x"))]),
    );
    assert!(matches!(
        finished(UpdateFileMetadataTool::next(&c, &vec![])),
        ToolResult::Invalid { .. }
    ));
}

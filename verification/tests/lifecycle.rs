use conexus_tools::agent_lifecycle::{
    disconnect_agent, disconnect_all_agents, gather_purge_preview, purge_tombstone,
    reconnect_agent, reconnect_all_agents, EditAgentTool, PurgeAgentTool, RestoreAgentTool,
    RotateAgentTokenTool, TerminateAgentTool,
};
use conexus_tools::json::{Field, Json};
use conexus_tools::principal::{Capabilities, Capability, Principal, PrincipalKind};
use conexus_tools::protocol::{
    Action, AgentField, AgentRow, Call, CountKind, Event, FieldValue, SentMessage, Stamp, TaskRow,
    ToolResult,
};

fn text(s: &str) -> Json {
    Json::Text(s.to_string())
}

fn obj(pairs: Vec<(&str, Json)>) -> Json {
    Json::Object(
        pairs
            .into_iter()
            .map(|(k, v)| Field { key: k.to_string(), value: v })
            .collect(),
    )
}

fn finished(a: Action) -> ToolResult {
    match a {
        Action::Finish(r) => r,
        other => panic!("expected an end, got {other:?}"),
    }
}

fn success(a: Action) -> (Json, String) {
    match finished(a) {
        ToolResult::Success { data: Some(d), message: Some(m) } => (d, m),
        other => panic!("expected success, got {other:?}"),
    }
}

fn person(agent_id: Option<&str>, caps: Vec<Capability>) -> Principal {
    Principal {
        kind: PrincipalKind::AgentBearer,
        user_id: None,
        agent_id: agent_id.map(str::to_string),
        project_name: None,
        agent_role: None,
        capabilities: Capabilities::Listed(caps),
        actor_label: agent_id.unwrap_or("op").to_string(),
        sender_label: agent_id.unwrap_or("op").to_string(),
        operator_tier: false,
        confirmed_operator_tier: false,
    }
}

fn call(principal: Option<Principal>, arguments: Json) -> Call {
    Call {
        principal,
        arguments,
        now: "2026-06-01T00:01:00Z".to_string(),
        instant: Some(Stamp { secs: 1780272060, nanos: 0 }),
        project_dir: "/tmp/project".to_string(),
        terminal_agent_statuses: vec!["terminated".to_string(), "tombstone".to_string()],
        terminal_task_statuses: vec!["completed".to_string(), "failed".to_string()],
    }
}


fn agent(agent_id: &str, status: &str) -> AgentRow {
    AgentRow {
        token: "old-token-value".to_string(),
        agent_id: agent_id.to_string(),
        created_at: "2026-06-01T00:00:00Z".to_string(),
        status: status.to_string(),
        current_task: None,
        working_directory: "/home/alice/repo".to_string(),
        color: None,
        terminated_at: None,
        updated_at: None,
        aoe_session_id: None,
        auto_event_loop: true,
        last_event_seen_at: None,
        last_activity_at: None,
        agent_role: "worker".to_string(),
        profile: None,
        profile_updated_at: None,
        profile_reviewed_at: None,
        profile_updated_by: None,
    }
}

fn op() -> Principal {
    person(None, vec![Capability::AgentsTerminate])
}

fn on(agent_id: &str, mut more: Vec<(&str, Json)>) -> Call {
    let mut args = vec![("agent_id", text(agent_id))];
    args.append(&mut more);
    call(Some(op()), obj(args))
}

fn task(id: &str, status: &str) -> TaskRow {
    TaskRow { task_id: id.to_string(), status: status.to_string() }
}

fn found(agent_id: &str, status: &str) -> Event {
    Event::Agent(Some(agent(agent_id, status)))
}

#[test]
fn purge_tombstone_matches_the_deleted_bracket_format() {
    assert_eq!(purge_tombstone("alice"), "[deleted-alice]");
}

#[test]
fn every_lifecycle_tool_needs_an_agent_id() {
    let c = call(Some(op()), obj(vec![]));
    let none: Vec<Event> = vec![];
    for a in [
        RotateAgentTokenTool::next(&c, &none),
        RestoreAgentTool::next(&c, &none),
        EditAgentTool::next(&c, &none),
        TerminateAgentTool::next(&c, &none),
        PurgeAgentTool::next(&c, &none),
    ] {
        match finished(a) {
            ToolResult::Invalid { field, .. } => assert_eq!(field.as_deref(), Some("agent_id")),
            other => panic!("{other:?}"),
        }
    }
}

#[test]
fn rotation_refuses_the_unknown_and_the_terminated() {
    let c = on("alice", vec![]);
    assert!(matches!(
        finished(RotateAgentTokenTool::next(&c, &vec![Event::Agent(None)])),
        ToolResult::NotFound { .. }
    ));
    match finished(RotateAgentTokenTool::next(&c, &vec![found("alice", "terminated")])) {
        ToolResult::Conflict { reason } => assert_eq!(
            reason,
            "Agent 'alice' is terminated; restore it before rotating its token"
        ),
        other => panic!("{other:?}"),
    }
}

#[test]
fn rotation_records_suffixes_only_and_shows_the_token_once() {
    let c = on("alice", vec![]);
    let token = || Event::Text(Some("0123456789abcdef0123456789abcdef".to_string()));
    assert!(matches!(
        RotateAgentTokenTool::next(&c, &vec![found("alice", "active")]),
        Action::MintToken
    ));
    assert!(matches!(
        RotateAgentTokenTool::next(&c, &vec![found("alice", "active"), token()]),
        Action::RotateToken { .. }
    ));
    let h = vec![found("alice", "active"), token(), Event::Changed(true)];
    match RotateAgentTokenTool::next(&c, &h) {
        Action::LogAction { details, .. } => {
            assert_eq!(details.text_at("old_token_suffix"), Some("alue"));
            assert_eq!(details.text_at("new_token_suffix"), Some("cdef"));
            assert!(!details.compact().contains("old-token-value"));
        }
        other => panic!("{other:?}"),
    }
    let h = vec![found("alice", "active"), token(), Event::Changed(true), Event::Failed];
    let (data, _) = success(RotateAgentTokenTool::next(&c, &h));
    assert_eq!(data.text_at("token"), Some("0123456789abcdef0123456789abcdef"));
    let h = vec![found("alice", "active"), token(), Event::Changed(false)];
    assert_eq!(
        finished(RotateAgentTokenTool::next(&c, &h)),
        ToolResult::Failed { message: "Failed to rotate token for agent 'alice'.".to_string() }
    );
}

#[test]
fn a_suffix_never_splits_a_character() {
    let c = on("alice", vec![]);
    let log = |token: &str| {
        let mut row = agent("alice", "active");
        row.token = token.to_string();
        let h = vec![
            Event::Agent(Some(row)),
            Event::Text(Some("abcdefgh".to_string())),
            Event::Changed(true),
        ];
        match RotateAgentTokenTool::next(&c, &h) {
            Action::LogAction { details, .. } => {
                details.text_at("old_token_suffix").map(str::to_string)
            }
            other => panic!("{other:?}"),
        }
    };
    assert_eq!(log("ab"), None);
    assert_eq!(log("abcd"), None);
    assert_eq!(log("abcde"), Some("bcde".to_string()));
    assert_eq!(log("xxéé"), Some("éé".to_string()));
    assert_eq!(log("€€"), None);
    assert_eq!(log("a🚀"), Some("🚀".to_string()));
}

#[test]
fn restoration_takes_terminated_agents_only() {
    let c = on("alice", vec![]);
    match finished(RestoreAgentTool::next(&c, &vec![found("alice", "active")])) {
        ToolResult::Conflict { reason } => assert_eq!(
            reason,
            "Agent 'alice' is not terminated (status=\"active\"); nothing to restore"
        ),
        other => panic!("{other:?}"),
    }
    match RestoreAgentTool::next(&c, &vec![found("alice", "terminated")]) {
        Action::UpdateAgent { field, value: FieldValue::Text(s), .. } => {
            assert_eq!(field, AgentField::Status);
            assert_eq!(s, "created");
        }
        other => panic!("{other:?}"),
    }
    match RestoreAgentTool::next(&c, &vec![found("alice", "terminated"), Event::Done]) {
        Action::UpdateAgent { field, value: FieldValue::OptionalText(None), .. } => {
            assert_eq!(field, AgentField::TerminatedAt);
        }
        other => panic!("{other:?}"),
    }
    let h = vec![found("alice", "terminated"), Event::Done, Event::Done, Event::Done];
    let (data, message) = success(RestoreAgentTool::next(&c, &h));
    assert_eq!(data.text_at("status"), Some("created"));
    assert_eq!(message, "Agent 'alice' restored");
    let h = vec![found("alice", "terminated"), Event::Failed];
    assert!(matches!(finished(RestoreAgentTool::next(&c, &h)), ToolResult::Failed { .. }));
}

#[test]
fn edits_need_a_field_and_a_proper_role() {
    let none: Vec<Event> = vec![];
    assert!(matches!(
        finished(EditAgentTool::next(&on("alice", vec![("status", text("x"))]), &none)),
        ToolResult::Invalid { field: None, .. }
    ));
    match finished(EditAgentTool::next(&on("alice", vec![("agent_role", text("overlord"))]), &none))
    {
        ToolResult::Invalid { field, message } => {
            assert_eq!(field.as_deref(), Some("agent_role"));
            assert_eq!(message, "Invalid agent_role \"overlord\": must be 'worker' or 'manager'.");
        }
        other => panic!("{other:?}"),
    }
}

#[test]
fn edits_are_written_in_their_order() {
    let c = on(
        "alice",
        vec![
            ("auto_event_loop", Json::Bool(false)),
            ("aoe_session_id", text("")),
            ("color", text("#123456")),
        ],
    );
    let mut h = vec![found("alice", "active")];
    match EditAgentTool::next(&c, &h) {
        Action::UpdateAgent { field, value: FieldValue::OptionalText(Some(s)), .. } => {
            assert_eq!(field, AgentField::Color);
            assert_eq!(s, "#123456");
        }
        other => panic!("{other:?}"),
    }
    h.push(Event::Done);
    assert!(matches!(
        EditAgentTool::next(&c, &h),
        Action::UpdateAgent {
            field: AgentField::AoeSessionId,
            value: FieldValue::OptionalText(None),
            ..
        }
    ));
    h.push(Event::Done);
    assert!(matches!(
        EditAgentTool::next(&c, &h),
        Action::UpdateAgent {
            field: AgentField::AutoEventLoop,
            value: FieldValue::Bool(false),
            ..
        }
    ));
    h.push(Event::Done);
    assert!(matches!(EditAgentTool::next(&c, &h), Action::LogAction { .. }));
    h.push(Event::Done);
    assert!(matches!(EditAgentTool::next(&c, &h), Action::Notify { .. }));
    h.push(Event::Done);
    let (data, message) = success(EditAgentTool::next(&c, &h));
    assert_eq!(data.list_at("updated").unwrap().len(), 3);
    assert_eq!(message, "Agent 'alice' updated: color, aoe_session_id, auto_event_loop");
}

#[test]
fn an_edit_without_the_switch_wakes_nobody_and_a_failed_one_stops() {
    let c = on("bob", vec![("color", text("#abcdef"))]);
    let h = vec![found("bob", "active"), Event::Done, Event::Done];
    assert!(matches!(finished(EditAgentTool::next(&c, &h)), ToolResult::Success { .. }));
    let h = vec![found("bob", "active"), Event::Failed];
    assert_eq!(
        finished(EditAgentTool::next(&c, &h)),
        ToolResult::Failed { message: "Failed to update field \"color\"".to_string() }
    );
    assert!(matches!(
        finished(EditAgentTool::next(&c, &vec![Event::Agent(None)])),
        ToolResult::NotFound { .. }
    ));
}

#[test]
fn termination_hands_back_open_tasks_only() {
    let c = on("alice", vec![]);
    let tasks = || Event::Tasks(vec![task("t1", "completed"), task("t2", "in_progress")]);
    assert!(matches!(
        finished(TerminateAgentTool::next(&c, &vec![Event::Changed(false)])),
        ToolResult::NotFound { .. }
    ));
    let mut h = vec![Event::Changed(true), tasks()];
    match TerminateAgentTool::next(&c, &h) {
        Action::ReleaseTask { task_id, status, .. } => {
            assert_eq!(task_id, "t2");
            assert_eq!(status.as_deref(), Some("unassigned"));
        }
        other => panic!("{other:?}"),
    }
    h.push(Event::Done);
    match TerminateAgentTool::next(&c, &h) {
        Action::LogAction { agent_id, action_type, .. } => {
            assert_eq!(agent_id, "admin");
            assert_eq!(action_type, "terminated_agent");
        }
        other => panic!("{other:?}"),
    }
    h.push(Event::Done);
    assert!(matches!(TerminateAgentTool::next(&c, &h), Action::ListActiveAgents));
    h.push(Event::Agents(vec![agent("bob", "active")]));
    match TerminateAgentTool::next(&c, &h) {
        Action::Notify { agent_id } => assert_eq!(agent_id, "bob"),
        other => panic!("{other:?}"),
    }
    h.push(Event::Done);
    let (data, _) = success(TerminateAgentTool::next(&c, &h));
    assert_eq!(data.text_at("status"), Some("terminated"));
}

#[test]
fn termination_without_open_tasks_wakes_nobody() {
    let c = on("alice", vec![]);
    let h = vec![Event::Changed(true), Event::Failed, Event::Done];
    assert!(matches!(finished(TerminateAgentTool::next(&c, &h)), ToolResult::Success { .. }));
}

fn purge_history(tasks: Vec<TaskRow>) -> Vec<Event> {
    vec![
        found("alice", "active"),
        Event::Count(1),
        Event::Count(2),
        Event::Count(3),
        Event::Failed,
        Event::Count(5),
        Event::Done,
        Event::Done,
        Event::Done,
        Event::Tasks(tasks),
    ]
}

#[test]
fn a_purge_counts_before_it_changes_anything() {
    let c = on("alice", vec![]);
    let all = purge_history(vec![]);
    let kinds = [
        CountKind::MessagesSent,
        CountKind::MessagesReceived,
        CountKind::TasksCreated,
        CountKind::TasksAssigned,
        CountKind::AgentActions,
    ];
    let mut h: Vec<Event> = vec![];
    assert!(matches!(PurgeAgentTool::next(&c, &h), Action::GetAgent { .. }));
    let mut rest = all.into_iter();
    h.push(rest.next().unwrap());
    for k in kinds {
        match PurgeAgentTool::next(&c, &h) {
            Action::Count { kind, .. } => assert_eq!(kind, k),
            other => panic!("{other:?}"),
        }
        h.push(rest.next().unwrap());
    }
    match PurgeAgentTool::next(&c, &h) {
        Action::InsertTombstone { token, agent_id, .. } => {
            assert_eq!(token, "__tombstone_alice");
            assert_eq!(agent_id, "[deleted-alice]");
        }
        other => panic!("{other:?}"),
    }
    h.push(rest.next().unwrap());
    assert!(matches!(PurgeAgentTool::next(&c, &h), Action::RenameInMessages { .. }));
    h.push(rest.next().unwrap());
    assert!(matches!(PurgeAgentTool::next(&c, &h), Action::RenameTaskCreator { .. }));
    h.push(rest.next().unwrap());
    assert!(matches!(PurgeAgentTool::next(&c, &h), Action::ListTasksOf { .. }));
}

#[test]
fn a_purge_keeps_the_status_of_finished_tasks() {
    let c = on("alice", vec![]);
    let mut h = purge_history(vec![task("done", "completed"), task("open", "pending")]);
    match PurgeAgentTool::next(&c, &h) {
        Action::ReleaseTask { task_id, status, .. } => {
            assert_eq!(task_id, "done");
            assert_eq!(status, None);
        }
        other => panic!("{other:?}"),
    }
    h.push(Event::Done);
    match PurgeAgentTool::next(&c, &h) {
        Action::ReleaseTask { task_id, status, .. } => {
            assert_eq!(task_id, "open");
            assert_eq!(status.as_deref(), Some("unassigned"));
        }
        other => panic!("{other:?}"),
    }
    h.push(Event::Done);
    assert!(matches!(PurgeAgentTool::next(&c, &h), Action::RenameInActions { .. }));
    h.push(Event::Done);
    assert!(matches!(PurgeAgentTool::next(&c, &h), Action::DeleteSessions { .. }));
    h.push(Event::Done);
    match PurgeAgentTool::next(&c, &h) {
        Action::LogAction { agent_id, action_type, .. } => {
            assert_eq!(agent_id, "op");
            assert_eq!(action_type, "purged_agent");
        }
        other => panic!("{other:?}"),
    }
    h.push(Event::Done);
    assert!(matches!(PurgeAgentTool::next(&c, &h), Action::DeleteAgent { .. }));
    h.push(Event::Done);
    assert!(matches!(PurgeAgentTool::next(&c, &h), Action::ListActiveAgents));
    h.push(Event::Agents(vec![]));
    let (data, message) = success(PurgeAgentTool::next(&c, &h));
    assert_eq!(data.text_at("tombstone"), Some("[deleted-alice]"));
    assert_eq!(data.get("counts").unwrap().int_at("messages_sent"), Some(1));
    assert_eq!(data.get("counts").unwrap().int_at("tasks_assigned"), Some(0));
    assert_eq!(message, "Agent 'alice' purged");
}

#[test]
fn a_purge_with_only_finished_tasks_wakes_nobody() {
    let c = on("alice", vec![]);
    let mut h = purge_history(vec![task("done", "completed")]);
    for _ in 0..5 {
        h.push(Event::Done);
    }
    assert!(matches!(finished(PurgeAgentTool::next(&c, &h)), ToolResult::Success { .. }));
    assert!(matches!(
        finished(PurgeAgentTool::next(&c, &vec![Event::Failed])),
        ToolResult::NotFound { .. }
    ));
}

#[test]
fn a_preview_shortens_its_samples() {
    let sent = vec![SentMessage { content: "x".repeat(81), timestamp: "t".to_string() }];
    let h = vec![
        Event::Count(1),
        Event::Count(0),
        Event::Count(0),
        Event::Count(0),
        Event::Count(9),
        Event::Sent(sent),
        Event::Texts(vec!["made".to_string()]),
        Event::Texts(vec![]),
    ];
    match finished(gather_purge_preview("alice", &h)) {
        ToolResult::Success { data: Some(d), message: None } => {
            let samples = d.get("samples").unwrap();
            let content = samples.list_at("messages_sent").unwrap()[0].text_at("content").unwrap();
            assert_eq!(content, format!("{}...", "x".repeat(80)));
            assert_eq!(samples.list_at("tasks_created").unwrap().len(), 1);
            assert_eq!(d.get("counts").unwrap().int_at("agent_actions"), Some(9));
        }
        other => panic!("{other:?}"),
    }
}

#[test]
fn switches_need_the_permission_to_terminate() {
    let worker = person(Some("alice"), vec![]);
    let none: Vec<Event> = vec![];
    for a in [
        disconnect_agent(Some(&worker), "bob", "now", &none),
        reconnect_agent(None, "bob", "now", &none),
        disconnect_all_agents(Some(&worker), "now", &none),
        reconnect_all_agents(None, "now", &none),
    ] {
        assert!(matches!(finished(a), ToolResult::PermissionDenied { .. }));
    }
}

#[test]
fn one_agent_is_paused_and_resumed() {
    let p = op();
    let h = vec![found("bob", "active")];
    match disconnect_agent(Some(&p), "bob", "now", &h) {
        Action::UpdateAgent { field, value: FieldValue::Bool(b), .. } => {
            assert_eq!(field, AgentField::AutoEventLoop);
            assert!(!b);
        }
        other => panic!("{other:?}"),
    }
    assert!(matches!(
        reconnect_agent(Some(&p), "bob", "now", &h),
        Action::UpdateAgent { value: FieldValue::Bool(true), .. }
    ));
    let h = vec![found("bob", "active"), Event::Done, Event::Done, Event::Done];
    let (data, _) = success(disconnect_agent(Some(&p), "bob", "now", &h));
    assert_eq!(data.int_at("closed_streams"), Some(0));
    assert!(matches!(
        finished(disconnect_agent(Some(&p), "bob", "now", &vec![found("bob", "terminated")])),
        ToolResult::NotFound { .. }
    ));
    let h = vec![found("bob", "active"), Event::Failed];
    assert_eq!(
        finished(reconnect_agent(Some(&p), "bob", "now", &h)),
        ToolResult::Failed { message: "Failed to set auto_event_loop".to_string() }
    );
}

#[test]
fn everyone_is_paused_and_resumed() {
    let p = op();
    match disconnect_all_agents(Some(&p), "now", &vec![]) {
        Action::PutSetting { key, value, .. } => {
            assert_eq!(key, "config_auto_event_loop_global");
            assert_eq!(value, "false");
        }
        other => panic!("{other:?}"),
    }
    let h = vec![Event::Done, Event::Done, Event::Agents(vec![agent("bob", "active")])];
    assert!(matches!(reconnect_all_agents(Some(&p), "now", &h), Action::Notify { .. }));
    let h = vec![Event::Done, Event::Done, Event::Failed];
    assert!(matches!(
        finished(reconnect_all_agents(Some(&p), "now", &h)),
        ToolResult::Success { .. }
    ));
    assert_eq!(
        finished(disconnect_all_agents(Some(&p), "now", &vec![Event::Failed])),
        ToolResult::Failed { message: "Database error on disconnect-all".to_string() }
    );
}

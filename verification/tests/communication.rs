use conexus_tools::agent_communication_tools::{
    can_read_own_messages, is_identified_agent, looks_like_reply, priority_icon,
    BroadcastAdminMessageTool, FetchEventsSinceTool, GetAgentMessagesTool, SendAgentMessageTool,
    REPLY_HINT_TEXT,
};
use conexus_tools::agent_roster_tools::{
    principal_can_view_roster, UpdateAgentProfileTool, ViewAgentsTool,
};
use conexus_tools::agent_tools::{generate_system_prompt, GetSystemPromptTool};
use conexus_tools::catalog;
use conexus_tools::catalog::ToolName;
use conexus_tools::json::{jint, Field, Json};
use conexus_tools::principal::{AgentRole, Capabilities, Capability, Principal, PrincipalKind};
use conexus_tools::protocol::{
    Action, AgentRow, Call, Event, MessageRow, ReviewedProfile, Stamp, ToolResult,
};

fn text(s: &str) -> Json {
    Json::Text(s.to_string())
}

fn obj(pairs: Vec<(&str, Json)>) -> Json {
    Json::Object(
        pairs
            .into_iter()
            .map(|(k, v)| Field { key: k.to_string(), value: v })
            .collect(),
    )
}

fn finished(a: Action) -> ToolResult {
    match a {
        Action::Finish(r) => r,
        other => panic!("expected an end, got {other:?}"),
    }
}

fn success(a: Action) -> (Json, String) {
    match finished(a) {
        ToolResult::Success { data: Some(d), message: Some(m) } => (d, m),
        other => panic!("expected success, got {other:?}"),
    }
}

fn person(agent_id: Option<&str>, caps: Vec<Capability>) -> Principal {
    Principal {
        kind: PrincipalKind::AgentBearer,
        user_id: None,
        agent_id: agent_id.map(str::to_string),
        project_name: None,
        agent_role: None,
        capabilities: Capabilities::Listed(caps),
        actor_label: agent_id.unwrap_or("op").to_string(),
        sender_label: agent_id.unwrap_or("op").to_string(),
        operator_tier: false,
        confirmed_operator_tier: false,
    }
}

fn call(principal: Option<Principal>, arguments: Json) -> Call {
    Call {
        principal,
        arguments,
        now: "2026-06-01T00:01:00Z".to_string(),
        instant: Some(Stamp { secs: 1780272060, nanos: 0 }),
        project_dir: "/tmp/project".to_string(),
        terminal_agent_statuses: vec!["terminated".to_string(), "tombstone".to_string()],
        terminal_task_statuses: vec!["completed".to_string(), "failed".to_string()],
    }
}


fn agent(agent_id: &str, status: &str) -> AgentRow {
    AgentRow {
        token: "old-token-value".to_string(),
        agent_id: agent_id.to_string(),
        created_at: "2026-06-01T00:00:00Z".to_string(),
        status: status.to_string(),
        current_task: None,
        working_directory: "/home/alice/repo".to_string(),
        color: None,
        terminated_at: None,
        updated_at: None,
        aoe_session_id: None,
        auto_event_loop: true,
        last_event_seen_at: None,
        last_activity_at: None,
        agent_role: "worker".to_string(),
        profile: None,
        profile_updated_at: None,
        profile_reviewed_at: None,
        profile_updated_by: None,
    }
}

fn agent_bearer(agent_id: &str) -> Principal {
    person(Some(agent_id), vec![])
}

fn reader(agent_id: &str) -> Principal {
    person(Some(agent_id), vec![Capability::MessagesView])
}

#[test]
fn is_identified_agent_admits_an_agent_bearer_with_an_id() {
    assert!(is_identified_agent(Some(&agent_bearer("alice"))));
}

#[test]
fn is_identified_agent_denies_a_missing_principal() {
    assert!(!is_identified_agent(None));
}

#[test]
fn is_identified_agent_denies_a_principal_with_no_agent_id() {
    let mut operator = agent_bearer("alice");
    operator.agent_id = None;
    assert!(!is_identified_agent(Some(&operator)));
    assert!(!is_identified_agent(Some(&agent_bearer(""))));
}

#[test]
fn can_read_own_messages_denies_an_empty_bundle_bearer() {
    let p = agent_bearer("alice");
    assert!(!can_read_own_messages(Some(&p)));
}

#[test]
fn can_read_own_messages_admits_a_bearer_with_the_capability() {
    let p = reader("alice");
    assert!(can_read_own_messages(Some(&p)));
}

#[test]
fn can_read_own_messages_denies_no_principal() {
    assert!(!can_read_own_messages(None));
}

#[test]
fn a_caller_with_neither_read_capability_is_denied() {
    let principal = person(Some("caller-1"), vec![Capability::McpConnect]);
    assert!(!catalog::admits(ToolName::ViewAgents, Some(&principal)));
    let viewer = person(Some("caller-1"), vec![Capability::AgentsView]);
    assert!(catalog::admits(ToolName::ViewAgents, Some(&viewer)));
}

#[test]
fn a_missing_principal_is_denied() {
    assert!(!principal_can_view_roster(None));
}

#[test]
fn reply_subjects_are_recognised() {
    for s in ["RE: last week", "re:", "  Re \t : x", "\u{a0}rE:"] {
        assert!(looks_like_reply(s), "{s:?}");
    }
    for s in ["", "r", "re", "ree: x", "fwd: re: x", "re x:"] {
        assert!(!looks_like_reply(s), "{s:?}");
    }
}

#[test]
fn priorities_have_their_signs() {
    assert_eq!(priority_icon("low"), "🔵");
    assert_eq!(priority_icon("normal"), "⚪");
    assert_eq!(priority_icon("high"), "🟡");
    assert_eq!(priority_icon("urgent"), "🔴");
    assert_eq!(priority_icon("other"), "⚪");
}

fn feed(n: usize) -> Event {
    Event::Feed { events: (0..n).map(|_| obj(vec![])).collect(), next_cursor: "c1".to_string() }
}

#[test]
fn fetching_resumes_from_the_stored_position() {
    let c = call(Some(agent_bearer("leo")), obj(vec![]));
    let mut row = agent("leo", "active");
    row.last_event_seen_at = Some("c0".to_string());
    let known = || {
        let mut r = agent("leo", "active");
        r.last_event_seen_at = Some("c0".to_string());
        Event::Agent(Some(r))
    };
    assert!(matches!(FetchEventsSinceTool::next(&c, &vec![]), Action::GetAgent { .. }));
    match FetchEventsSinceTool::next(&c, &vec![Event::Agent(Some(row))]) {
        Action::AssembleFeed { since, .. } => assert_eq!(since.as_deref(), Some("c0")),
        other => panic!("{other:?}"),
    }
    assert!(matches!(
        FetchEventsSinceTool::next(&c, &vec![known(), feed(1)]),
        Action::AdvanceCursor { .. }
    ));
    let (data, message) =
        success(FetchEventsSinceTool::next(&c, &vec![known(), feed(1), Event::Done]));
    assert!(data.get("cursor").is_some());
    assert!(data.get("next_cursor").is_none());
    assert_eq!(message, "{\"cursor\":\"c1\",\"events\":[{}]}");
    assert!(matches!(
        finished(FetchEventsSinceTool::next(&c, &vec![known(), feed(0)])),
        ToolResult::Success { .. }
    ));
    assert!(matches!(
        finished(FetchEventsSinceTool::next(&c, &vec![known(), Event::Failed])),
        ToolResult::Failed { .. }
    ));
}

#[test]
fn fetching_takes_a_cursor_and_nothing_else() {
    let c = call(Some(agent_bearer("mia")), obj(vec![("cursor", jint(12345))]));
    match finished(FetchEventsSinceTool::next(&c, &vec![])) {
        ToolResult::Invalid { field, .. } => assert_eq!(field.as_deref(), Some("cursor")),
        other => panic!("{other:?}"),
    }
    let c = call(Some(agent_bearer("mia")), obj(vec![("cursor", text("x"))]));
    assert!(matches!(
        FetchEventsSinceTool::next(&c, &vec![]),
        Action::AssembleFeed { .. }
    ));
    let c = call(None, obj(vec![]));
    assert!(matches!(
        finished(FetchEventsSinceTool::next(&c, &vec![])),
        ToolResult::PermissionDenied { .. }
    ));
}

fn sending(args: Vec<(&str, Json)>) -> Call {
    call(Some(agent_bearer("alice")), obj(args))
}

fn sent() -> Event {
    Event::MessageSent { message_id: "m1".to_string() }
}

#[test]
fn a_message_needs_a_recipient_and_a_text() {
    for (args, field) in [
        (vec![("message", text("hi"))], "recipient_id"),
        (vec![("recipient_id", text("")), ("message", text("hi"))], "recipient_id"),
        (vec![("recipient_id", text("bob"))], "message"),
    ] {
        match finished(SendAgentMessageTool::next(&sending(args), &vec![])) {
            ToolResult::Invalid { field: f, .. } => assert_eq!(f.as_deref(), Some(field)),
            other => panic!("{other:?}"),
        }
    }
}

#[test]
fn a_sent_message_is_recorded_and_wakes_its_recipient() {
    let c = sending(vec![("recipient_id", text("bob")), ("message", text("hello bob"))]);
    let mut h: Vec<Event> = vec![];
    match SendAgentMessageTool::next(&c, &h) {
        Action::GetSwitch { key, default_on } => {
            assert_eq!(key, "config_allow_worker_to_worker");
            assert!(default_on);
        }
        other => panic!("{other:?}"),
    }
    h.push(Event::Changed(false));
    match SendAgentMessageTool::next(&c, &h) {
        Action::SendMessage(m) => {
            assert!(!m.allow_worker_to_worker);
            assert_eq!(m.message_type, "text");
            assert_eq!(m.priority, "normal");
        }
        other => panic!("{other:?}"),
    }
    h.push(sent());
    assert!(matches!(SendAgentMessageTool::next(&c, &h), Action::LogAction { .. }));
    h.push(Event::Done);
    match SendAgentMessageTool::next(&c, &h) {
        Action::Notify { agent_id } => assert_eq!(agent_id, "bob"),
        other => panic!("{other:?}"),
    }
    h.push(Event::Done);
    assert!(matches!(SendAgentMessageTool::next(&c, &h), Action::SubjectFor { .. }));
    h.push(Event::Subject { shown: Some("hello bob".to_string()), placeholder: true });
    let (data, message) = success(SendAgentMessageTool::next(&c, &h));
    assert_eq!(
        message,
        "Message sent to bob. Message stored for recipient (Message ID: m1)"
    );
    assert_eq!(data.flag_at("subject_is_placeholder"), Some(true));
    assert!(data.get("reply_hint").is_none());
}

#[test]
fn an_unsent_message_ends_the_call() {
    let c = sending(vec![
        ("recipient_id", text("ghost")),
        ("message", text("hi")),
        ("parent_message_id", text("p")),
    ]);
    let refusal = || ToolResult::PermissionDenied { reason: "no".to_string() };
    let end = |e: Event| finished(SendAgentMessageTool::next(&c, &vec![Event::Changed(true), e]));
    assert_eq!(end(Event::SendDenied(refusal())), refusal());
    assert!(matches!(
        end(Event::RecipientUnknown),
        ToolResult::NotFound { resource, identifier, .. }
            if resource == "agent" && identifier == "ghost"
    ));
    assert!(matches!(
        end(Event::ParentUnknown { message_id: "p".to_string() }),
        ToolResult::NotFound { resource, identifier, .. }
            if resource == "parent message" && identifier == "p"
    ));
    assert_eq!(
        end(Event::Error("disk".to_string())),
        ToolResult::Failed { message: "Database error sending message: disk".to_string() }
    );
}

#[test]
fn the_reply_hint_is_for_messages_that_are_no_replies() {
    let h = || {
        vec![
            Event::Changed(true),
            sent(),
            Event::Done,
            Event::Done,
            Event::Subject { shown: Some("RE: x".to_string()), placeholder: false },
        ]
    };
    let c = sending(vec![
        ("recipient_id", text("bob")),
        ("message", text("m")),
        ("subject", text("RE: x")),
    ]);
    let (data, message) = success(SendAgentMessageTool::next(&c, &h()));
    assert_eq!(data.text_at("reply_hint"), Some(REPLY_HINT_TEXT));
    assert!(message.ends_with(REPLY_HINT_TEXT));
    let c = sending(vec![
        ("recipient_id", text("bob")),
        ("message", text("m")),
        ("subject", text("RE: x")),
        ("parent_message_id", text("m0")),
    ]);
    let (data, _) = success(SendAgentMessageTool::next(&c, &h()));
    assert!(data.get("reply_hint").is_none());
    assert_eq!(data.get("subject"), Some(&Json::Null));
}

fn operator() -> Principal {
    let mut p = person(None, vec![]);
    p.operator_tier = true;
    p
}

#[test]
fn a_broadcast_goes_to_everyone_but_admin_and_system() {
    let c = call(Some(operator()), obj(vec![("message", text("tonight"))]));
    let rows = || {
        Event::Agents(vec![
            agent("alice", "active"),
            agent("admin", "active"),
            agent("sys", "system"),
            agent("bob", "active"),
        ])
    };
    let mut h = vec![rows(), Event::Changed(true)];
    match BroadcastAdminMessageTool::next(&c, &h) {
        Action::SendMessage(m) => {
            assert_eq!(m.recipient_id, "alice");
            assert_eq!(m.message_type, "broadcast");
            assert_eq!(m.priority, "high");
        }
        other => panic!("{other:?}"),
    }
    h.push(Event::RecipientUnknown);
    h.push(Event::Changed(true));
    match BroadcastAdminMessageTool::next(&c, &h) {
        Action::SendMessage(m) => assert_eq!(m.recipient_id, "bob"),
        other => panic!("{other:?}"),
    }
    h.push(sent());
    h.push(Event::Done);
    h.push(Event::Done);
    let (data, message) = success(BroadcastAdminMessageTool::next(&c, &h));
    assert_eq!(data.int_at("sent_count"), Some(1));
    assert_eq!(data.int_at("failed_count"), Some(1));
    assert_eq!(data.list_at("recipients").unwrap()[0], text("bob"));
    assert_eq!(message, "Broadcast sent to 1 agents. 1 failed.");
}

#[test]
fn a_broadcast_needs_an_operator_a_message_and_someone_to_hear_it() {
    let c = call(Some(agent_bearer("alice")), obj(vec![("message", text("x"))]));
    assert!(matches!(
        finished(BroadcastAdminMessageTool::next(&c, &vec![])),
        ToolResult::PermissionDenied { .. }
    ));
    let c = call(Some(operator()), obj(vec![]));
    assert!(matches!(
        finished(BroadcastAdminMessageTool::next(&c, &vec![])),
        ToolResult::Invalid { .. }
    ));
    let c = call(Some(operator()), obj(vec![("message", text("x"))]));
    let (data, message) = success(BroadcastAdminMessageTool::next(&c, &vec![Event::Agents(vec![])]));
    assert_eq!(data.int_at("sent_count"), Some(0));
    assert_eq!(message, "No active agents to broadcast to");
    assert_eq!(
        finished(BroadcastAdminMessageTool::next(&c, &vec![Event::Error("e".to_string())])),
        ToolResult::Failed { message: "Database error listing active agents: e".to_string() }
    );
}

fn message(id: &str, from: &str, to: &str, read: bool) -> MessageRow {
    MessageRow {
        message_id: id.to_string(),
        sender_id: from.to_string(),
        recipient_id: to.to_string(),
        message_content: "hi bob".to_string(),
        message_type: "text".to_string(),
        priority: "normal".to_string(),
        timestamp: "t0".to_string(),
        delivered: false,
        read,
        subject: None,
        parent_message_id: None,
        shown_subject: Some("hi bob".to_string()),
        subject_is_placeholder: true,
    }
}

#[test]
fn reading_marks_only_what_was_returned_to_its_recipient() {
    let c = call(Some(reader("bob")), obj(vec![("include_sent", Json::Bool(true))]));
    let rows = || {
        Event::Messages(vec![
            message("m1", "alice", "bob", false),
            message("m2", "bob", "alice", false),
            message("m3", "alice", "bob", true),
        ])
    };
    match GetAgentMessagesTool::next(&c, &vec![rows()]) {
        Action::MarkRead { message_ids, recipient } => {
            assert_eq!(message_ids, vec!["m1".to_string()]);
            assert_eq!(recipient, "bob");
        }
        other => panic!("{other:?}"),
    }
    let (data, text) = success(GetAgentMessagesTool::next(&c, &vec![rows(), Event::Done]));
    assert_eq!(data.int_at("count"), Some(3));
    assert!(text.starts_with(
        "Messages for bob (showing 3 of max 20):\n\n⬅️ 📩 ⚪ [text] alice\n   t0\n   Subject (auto): hi bob\n   hi bob\n\n➡️ 📩 ⚪ [text] alice\n"
    ));
}

#[test]
fn reading_can_leave_messages_unread() {
    let c = call(Some(reader("bob")), obj(vec![("mark_as_read", Json::Bool(false))]));
    let rows = Event::Messages(vec![message("m1", "alice", "bob", false)]);
    assert!(matches!(
        finished(GetAgentMessagesTool::next(&c, &vec![rows])),
        ToolResult::Success { .. }
    ));
}

#[test]
fn reading_needs_a_direction_and_a_permission() {
    let c = call(
        Some(reader("bob")),
        obj(vec![("include_sent", Json::Bool(false)), ("include_received", Json::Bool(false))]),
    );
    assert!(matches!(
        finished(GetAgentMessagesTool::next(&c, &vec![])),
        ToolResult::Invalid { field: None, .. }
    ));
    let c = call(Some(agent_bearer("bob")), obj(vec![]));
    assert!(matches!(
        finished(GetAgentMessagesTool::next(&c, &vec![])),
        ToolResult::PermissionDenied { .. }
    ));
    let c = call(Some(reader("bob")), obj(vec![("limit", jint(101))]));
    assert!(matches!(
        GetAgentMessagesTool::next(&c, &vec![]),
        Action::ListMessages { limit: 20, include_received: true, .. }
    ));
    let (data, message) = success(GetAgentMessagesTool::next(&c, &vec![Event::Messages(vec![])]));
    assert_eq!(message, "No messages found");
    assert_eq!(data.int_at("count"), Some(0));
}

#[test]
fn replies_show_what_they_reply_to() {
    let mut m = message("m1", "alice", "bob", true);
    m.parent_message_id = Some("m0".to_string());
    let c = call(Some(reader("bob")), obj(vec![]));
    let (data, text) = success(GetAgentMessagesTool::next(&c, &vec![Event::Messages(vec![m])]));
    assert!(text.contains("   ↳ reply to: m0\n"));
    assert!(!text.contains("Subject"));
    assert_eq!(data.list_at("messages").unwrap()[0].get("subject"), Some(&Json::Null));
}

#[test]
fn the_roster_is_sorted_and_leaves_system_entries_out() {
    let mut zebra = agent("zebra-agent", "active");
    zebra.agent_role = String::new();
    let rows = vec![zebra, agent("sys", "system"), agent("alpha-agent", "active")];
    match finished(ViewAgentsTool::next(&vec![Event::Agents(rows)])) {
        ToolResult::Success { data: Some(d), message: None } => {
            let list = d.list_at("agents").unwrap();
            assert_eq!(list.len(), 2);
            assert_eq!(list[0].text_at("agent_id"), Some("alpha-agent"));
            assert_eq!(list[1].text_at("agent_id"), Some("zebra-agent"));
            assert_eq!(list[1].text_at("agent_role"), Some("worker"));
        }
        other => panic!("{other:?}"),
    }
}

fn manager(id: &str) -> Principal {
    let mut p = person(Some(id), vec![Capability::AgentsUse]);
    p.agent_role = Some(AgentRole::Manager);
    p
}

fn reviewed(changed: bool) -> Event {
    Event::Reviewed(Some(ReviewedProfile {
        profile: Some("p".to_string()),
        profile_updated_at: None,
        profile_reviewed_at: Some("t".to_string()),
        changed,
    }))
}

#[test]
fn an_agent_confirms_its_profile_whatever_the_settings() {
    let c = call(Some(agent_bearer("alice")), obj(vec![]));
    match UpdateAgentProfileTool::next(&c, &vec![]) {
        Action::ReviewProfile { agent_id, profile, reviewer, .. } => {
            assert_eq!(agent_id, "alice");
            assert_eq!(profile, None);
            assert_eq!(reviewer, "alice");
        }
        other => panic!("{other:?}"),
    }
    let (_, message) = success(UpdateAgentProfileTool::next(&c, &vec![reviewed(false)]));
    assert_eq!(message, "Profile confirmed (no content change).");
}

#[test]
fn changing_a_profile_goes_by_its_switch() {
    let c = call(Some(agent_bearer("alice")), obj(vec![("profile", text("new"))]));
    match UpdateAgentProfileTool::next(&c, &vec![]) {
        Action::GetSwitch { key, .. } => assert_eq!(key, "config_allow_worker_update_own_profile"),
        other => panic!("{other:?}"),
    }
    match finished(UpdateAgentProfileTool::next(&c, &vec![Event::Changed(false)])) {
        ToolResult::PermissionDenied { reason } => {
            assert!(reason.starts_with("config_allow_worker_update_own_profile is disabled;"));
        }
        other => panic!("{other:?}"),
    }
    let (data, message) =
        success(UpdateAgentProfileTool::next(&c, &vec![Event::Changed(true), reviewed(true)]));
    assert_eq!(message, "Profile updated.");
    assert_eq!(data.flag_at("changed"), Some(true));
    let c = call(Some(manager("boss")), obj(vec![("profile", text("new"))]));
    match UpdateAgentProfileTool::next(&c, &vec![]) {
        Action::GetSwitch { key, .. } => assert_eq!(key, "config_allow_manager_update_own_profile"),
        other => panic!("{other:?}"),
    }
}

#[test]
fn managers_curate_workers_and_nobody_else_does() {
    let args = || obj(vec![("agent_id", text("bob")), ("profile", text("x"))]);
    let c = call(Some(agent_bearer("alice")), args());
    assert!(matches!(
        finished(UpdateAgentProfileTool::next(&c, &vec![])),
        ToolResult::PermissionDenied { .. }
    ));
    let c = call(Some(manager("boss")), args());
    let mut other_manager = agent("bob", "active");
    other_manager.agent_role = "manager".to_string();
    assert!(matches!(
        finished(UpdateAgentProfileTool::next(&c, &vec![Event::Agent(Some(other_manager))])),
        ToolResult::PermissionDenied { .. }
    ));
    assert!(matches!(
        finished(UpdateAgentProfileTool::next(&c, &vec![Event::Agent(None)])),
        ToolResult::NotFound { .. }
    ));
    let known = || Event::Agent(Some(agent("bob", "active")));
    assert!(matches!(
        UpdateAgentProfileTool::next(&c, &vec![known()]),
        Action::GetSwitch { .. }
    ));
    assert!(matches!(
        finished(UpdateAgentProfileTool::next(&c, &vec![known(), Event::Changed(false)])),
        ToolResult::PermissionDenied { .. }
    ));
    assert!(matches!(
        UpdateAgentProfileTool::next(&c, &vec![known(), Event::Changed(true)]),
        Action::ReviewProfile { .. }
    ));
}

#[test]
fn the_prompt_names_the_agent_and_its_directory() {
    let p = generate_system_prompt("alice", "/repo", "worker");
    assert!(p.starts_with("You are an AI agent connected"));
    assert!(p.contains("Your working directory is: /repo\nAgent ID: alice\nAgent Type: Worker\n\n**Tool access:**"));
    assert!(!p.contains("Coordinating teammates"));
    let m = generate_system_prompt("boss", "/repo", "manager");
    assert!(m.contains("Agent Type: Admin\n"));
    assert!(m.contains("\n\n**Coordinating teammates (messaging):**"));
}

#[test]
fn the_prompt_falls_back_to_the_servers_directory() {
    let c = call(Some(agent_bearer("alice")), obj(vec![]));
    assert!(matches!(
        GetSystemPromptTool::next(&c, &vec![Event::Agent(None)]),
        Action::CurrentDir
    ));
    let h = vec![Event::Agent(None), Event::Text(Some("/srv".to_string()))];
    match finished(GetSystemPromptTool::next(&c, &h)) {
        ToolResult::Success { data: None, message: Some(m) } => {
            assert!(m.starts_with("System Prompt for Agent 'alice':\n\nYou are"));
            assert!(m.contains("Your working directory is: /srv\n"));
        }
        other => panic!("{other:?}"),
    }
    let h = vec![Event::Agent(Some(agent("alice", "active")))];
    assert!(matches!(
        finished(GetSystemPromptTool::next(&c, &h)),
        ToolResult::Success { .. }
    ));
    assert!(matches!(
        finished(GetSystemPromptTool::next(&c, &vec![Event::Failed])),
        ToolResult::Failed { .. }
    ));
}

#[test]
fn strangers_are_admitted_nowhere() {
    for t in [
        ToolName::ViewAuditLog,
        ToolName::WaitForEvents,
        ToolName::SendAgentMessage,
        ToolName::CheckFileStatus,
        ToolName::ValidateContextConsistency,
        ToolName::CreateProjectContext,
    ] {
        assert!(!catalog::admits(t, None), "{}", catalog::name(t));
    }
}

#[test]
fn a_plain_worker_is_denied_the_operators_tools() {
    let worker = agent_bearer("alice");
    for t in [
        ToolName::ViewAuditLog,
        ToolName::GetAgentTokens,
        ToolName::ViewStatus,
        ToolName::RegisterAgent,
        ToolName::RotateAgentToken,
        ToolName::RestoreAgent,
        ToolName::EditAgent,
        ToolName::TerminateAgent,
        ToolName::PurgeAgent,
        ToolName::BroadcastAdminMessage,
        ToolName::BackupProjectContext,
    ] {
        assert!(!catalog::admits(t, Some(&worker)), "{}", catalog::name(t));
    }
    assert!(catalog::admits(ToolName::WaitForEvents, Some(&worker)));
    assert_eq!(catalog::denial_reason(ToolName::PurgeAgent), None);
    assert!(catalog::denial_reason(ToolName::ViewAgents).is_some());
    assert!(catalog::next(ToolName::WaitForEvents, &call(None, obj(vec![])), &vec![]).is_none());
}

#[test]
fn prompts_name_the_agent_and_only_managers_hear_of_messaging() {
    let heading = "**Coordinating teammates (messaging):**";
    let lines = |kind: &str| {
        format!("\n\nYour working directory is: /w\nAgent ID: zoe\nAgent Type: {kind}\n\n**Tool access:**")
    };
    let manager = generate_system_prompt("zoe", "/w", "manager");
    assert!(manager.contains(&lines("Admin")));
    assert!(manager.contains(&format!("available to you.\n\n{heading} To message another agent")));
    let worker = generate_system_prompt("zoe", "/w", "worker");
    assert!(worker.contains(&lines("Worker")));
    assert!(!worker.contains(heading));
    assert!(worker.ends_with("available to you."));
    for role in ["", "Manager", "MANAGER", "admin", "overlord"] {
        assert_eq!(generate_system_prompt("zoe", "/w", role), worker);
    }
}

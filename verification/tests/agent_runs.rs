use conexus_tools::admin_tools::{generate_token, MANAGER_DEFAULT_PROFILE, REDACTED_TOKEN};
use conexus_tools::catalog::{admits, next, ToolName};
use conexus_tools::file_management_tools::{working_directory_for, Place};
use conexus_tools::json::{read_json, Field, Json};
use conexus_tools::principal::{AgentRole, Capabilities, Capability, Principal, PrincipalKind};
use conexus_tools::protocol::{
    Action, ActionRow, AgentField, AgentRow, Call, CountKind, Event, FieldValue, ReviewedProfile,
    Stamp, TaskRow, ToolResult,
};
use serde_json::Value;

struct Message {
    id: String,
    sender: String,
    recipient: String,
}

struct Task {
    id: String,
    created_by: String,
    assigned_to: Option<String>,
    status: String,
}

struct Line {
    agent_id: String,
    action_type: String,
    details: Json,
    timestamp: String,
}

/// A database in memory.
#[derive(Default)]
struct Db {
    agents: Vec<AgentRow>,
    messages: Vec<Message>,
    tasks: Vec<Task>,
    actions: Vec<Line>,
    sessions: Vec<(String, String)>,
    files: Vec<(String, String)>,
    switched_off: Vec<String>,
    woken: Vec<String>,
    colors: usize,
}

fn copy(row: &AgentRow) -> AgentRow {
    AgentRow {
        token: row.token.clone(),
        agent_id: row.agent_id.clone(),
        created_at: row.created_at.clone(),
        status: row.status.clone(),
        current_task: row.current_task.clone(),
        working_directory: row.working_directory.clone(),
        color: row.color.clone(),
        terminated_at: row.terminated_at.clone(),
        updated_at: row.updated_at.clone(),
        aoe_session_id: row.aoe_session_id.clone(),
        auto_event_loop: row.auto_event_loop,
        last_event_seen_at: row.last_event_seen_at.clone(),
        last_activity_at: row.last_activity_at.clone(),
        agent_role: row.agent_role.clone(),
        profile: row.profile.clone(),
        profile_updated_at: row.profile_updated_at.clone(),
        profile_reviewed_at: row.profile_reviewed_at.clone(),
        profile_updated_by: row.profile_updated_by.clone(),
    }
}

fn agent(agent_id: &str, token: &str, status: &str, created_at: &str) -> AgentRow {
    AgentRow {
        token: token.to_string(),
        agent_id: agent_id.to_string(),
        created_at: created_at.to_string(),
        status: status.to_string(),
        current_task: None,
        working_directory: "/tmp".to_string(),
        color: None,
        terminated_at: None,
        updated_at: None,
        aoe_session_id: None,
        auto_event_loop: true,
        last_event_seen_at: None,
        last_activity_at: None,
        agent_role: "worker".to_string(),
        profile: None,
        profile_updated_at: None,
        profile_reviewed_at: None,
        profile_updated_by: None,
    }
}

fn is_terminal(status: &str) -> bool {
    status == "terminated" || status == "tombstone"
}

impl Db {
    fn seed_agent(&mut self, agent_id: &str, token: &str, created_at: &str) {
        self.agents.push(agent(agent_id, token, "active", created_at));
    }

    fn seed_role(&mut self, agent_id: &str, role: &str) {
        self.seed_agent(agent_id, &format!("{agent_id}-tok"), "2026-06-01T00:00:00Z");
        self.row(agent_id).unwrap().agent_role = role.to_string();
    }

    fn seed_message(&mut self, id: &str, from: &str, to: &str) {
        self.messages.push(Message {
            id: id.to_string(),
            sender: from.to_string(),
            recipient: to.to_string(),
        });
    }

    fn seed_task(&mut self, id: &str, assigned_to: Option<&str>, status: &str) {
        self.tasks.push(Task {
            id: id.to_string(),
            created_by: "alice".to_string(),
            assigned_to: assigned_to.map(str::to_string),
            status: status.to_string(),
        });
    }

    fn seed_action(&mut self, agent_id: &str, action_type: &str, timestamp: &str) {
        self.actions.push(Line {
            agent_id: agent_id.to_string(),
            action_type: action_type.to_string(),
            details: Json::Null,
            timestamp: timestamp.to_string(),
        });
    }

    fn row(&mut self, agent_id: &str) -> Option<&mut AgentRow> {
        self.agents.iter_mut().find(|r| r.agent_id == agent_id)
    }

    fn task(&mut self, id: &str) -> &mut Task {
        self.tasks.iter_mut().find(|t| t.id == id).unwrap()
    }

    fn lines(&self, action_type: &str) -> Vec<&Line> {
        self.actions.iter().filter(|l| l.action_type == action_type).collect()
    }

    fn terminate(&mut self, agent_id: &str, timestamp: &str) -> bool {
        match self.row(agent_id) {
            Some(row) if !is_terminal(&row.status) => {
                row.status = "terminated".to_string();
                row.terminated_at = Some(timestamp.to_string());
                true
            }
            _ => false,
        }
    }

    fn working_directory(&mut self, agent_id: &str) -> String {
        let found = Event::Agent(self.row(agent_id).map(|r| copy(r)));
        match working_directory_for(agent_id, &vec![found]) {
            Place::At { dir, .. } => dir,
            Place::Ask(other) => panic!("{other:?}"),
        }
    }

    fn update(&mut self, agent_id: &str, field: AgentField, value: FieldValue) {
        if let Some(row) = self.row(agent_id) {
            match (field, value) {
                (AgentField::Status, FieldValue::Text(s)) => row.status = s,
                (AgentField::TerminatedAt, FieldValue::OptionalText(t)) => row.terminated_at = t,
                (AgentField::Color, FieldValue::OptionalText(t)) => row.color = t,
                (AgentField::WorkingDirectory, FieldValue::Text(s)) => row.working_directory = s,
                (AgentField::AoeSessionId, FieldValue::OptionalText(t)) => row.aoe_session_id = t,
                (AgentField::AutoEventLoop, FieldValue::Bool(b)) => row.auto_event_loop = b,
                (AgentField::AgentRole, FieldValue::Text(s)) => row.agent_role = s,
                other => panic!("{other:?}"),
            }
        }
    }

    fn perform(&mut self, action: Action) -> Event {
        match action {
            Action::ListActions { agent_id, action_type, limit } => Event::Actions(
                self.actions
                    .iter()
                    .filter(|l| agent_id.as_ref().map_or(true, |id| l.agent_id == *id))
                    .filter(|l| action_type.as_ref().map_or(true, |t| l.action_type == *t))
                    .take(limit as usize)
                    .map(|l| ActionRow {
                        timestamp: l.timestamp.clone(),
                        agent_id: l.agent_id.clone(),
                        action_type: l.action_type.clone(),
                        details: Some(l.details.compact()),
                    })
                    .collect(),
            ),
            Action::LogAction { agent_id, action_type, details, timestamp, .. } => {
                self.actions.push(Line { agent_id, action_type, details, timestamp });
                Event::Done
            }
            Action::QueryAgents(f) => {
                let rows: Vec<AgentRow> = self
                    .agents
                    .iter()
                    .filter(|r| f.include_terminated || r.status != "terminated")
                    .filter(|r| f.status.as_ref().map_or(true, |s| r.status == *s))
                    .map(copy)
                    .collect();
                let total = rows.len() as i64;
                Event::AgentPage {
                    rows: rows.into_iter().skip(f.offset as usize).take(f.limit as usize).collect(),
                    total,
                }
            }
            Action::ListActiveAgents => Event::Agents(
                self.agents.iter().filter(|r| !is_terminal(&r.status)).map(copy).collect(),
            ),
            Action::GetAgent { agent_id } => Event::Agent(self.row(&agent_id).map(|r| copy(r))),
            Action::CreateAgent(new) => {
                if self.row(&new.agent_id).is_some() {
                    return Event::Duplicate;
                }
                let mut row = agent(&new.agent_id, &new.token, &new.status, &new.created_at);
                row.working_directory = new.working_directory;
                row.color = Some(new.color);
                row.agent_role = new.agent_role;
                self.agents.push(row);
                Event::Created { created_at: new.created_at }
            }
            Action::SeedManagerProfile { agent_id, profile, timestamp } => {
                let row = self.row(&agent_id).unwrap();
                row.profile = Some(profile);
                row.profile_updated_at = Some(timestamp);
                Event::Done
            }
            Action::RotateToken { agent_id, token, .. } => match self.row(&agent_id) {
                Some(row) => {
                    row.token = token;
                    Event::Changed(true)
                }
                None => Event::Changed(false),
            },
            Action::UpdateAgent { agent_id, field, value, timestamp } => {
                self.update(&agent_id, field, value);
                if let Some(row) = self.row(&agent_id) {
                    row.updated_at = Some(timestamp);
                }
                Event::Done
            }
            Action::ReviewProfile { agent_id, profile, reviewer, timestamp } => {
                Event::Reviewed(self.row(&agent_id).map(|row| {
                    let changed = profile.is_some() && profile != row.profile;
                    if changed {
                        row.profile = profile;
                        row.profile_updated_at = Some(timestamp.clone());
                        row.profile_updated_by = Some(reviewer);
                    }
                    row.profile_reviewed_at = Some(timestamp);
                    ReviewedProfile {
                        profile: row.profile.clone(),
                        profile_updated_at: row.profile_updated_at.clone(),
                        profile_reviewed_at: row.profile_reviewed_at.clone(),
                        changed,
                    }
                }))
            }
            Action::TerminateAgent { agent_id, timestamp } => {
                Event::Changed(self.terminate(&agent_id, &timestamp))
            }
            Action::InsertTombstone { token, agent_id, timestamp } => {
                if self.row(&agent_id).is_none() {
                    self.agents.push(agent(&agent_id, &token, "tombstone", &timestamp));
                }
                Event::Done
            }
            Action::DeleteAgent { agent_id } => {
                self.agents.retain(|r| r.agent_id != agent_id);
                Event::Done
            }
            Action::DeleteSessions { agent_id } => {
                self.sessions.retain(|(_, owner)| *owner != agent_id);
                Event::Done
            }
            Action::RenameInMessages { from, to } => {
                for m in &mut self.messages {
                    if m.sender == from {
                        m.sender = to.clone();
                    }
                    if m.recipient == from {
                        m.recipient = to.clone();
                    }
                }
                Event::Done
            }
            Action::RenameTaskCreator { from, to } => {
                for t in &mut self.tasks {
                    if t.created_by == from {
                        t.created_by = to.clone();
                    }
                }
                Event::Done
            }
            Action::RenameInActions { from, to } => {
                for l in &mut self.actions {
                    if l.agent_id == from {
                        l.agent_id = to.clone();
                    }
                }
                Event::Done
            }
            Action::Count { kind, agent_id } => Event::Count(match kind {
                CountKind::MessagesSent => {
                    self.messages.iter().filter(|m| m.sender == agent_id).count()
                }
                CountKind::MessagesReceived => {
                    self.messages.iter().filter(|m| m.recipient == agent_id).count()
                }
                CountKind::TasksCreated => {
                    self.tasks.iter().filter(|t| t.created_by == agent_id).count()
                }
                CountKind::TasksAssigned => {
                    self.tasks.iter().filter(|t| t.assigned_to.as_ref() == Some(&agent_id)).count()
                }
                CountKind::AgentActions => {
                    self.actions.iter().filter(|l| l.agent_id == agent_id).count()
                }
            } as i64),
            Action::ListTasksOf { agent_id } => Event::Tasks(
                self.tasks
                    .iter()
                    .filter(|t| t.assigned_to.as_ref() == Some(&agent_id))
                    .map(|t| TaskRow { task_id: t.id.clone(), status: t.status.clone() })
                    .collect(),
            ),
            Action::ReleaseTask { task_id, status, .. } => {
                let task = self.task(&task_id);
                task.assigned_to = None;
                if let Some(s) = status {
                    task.status = s;
                }
                Event::Done
            }
            Action::GetSwitch { key, default_on } => {
                Event::Changed(if self.switched_off.contains(&key) { false } else { default_on })
            }
            Action::Notify { agent_id } => {
                self.woken.push(agent_id);
                Event::Done
            }
            Action::MintToken => Event::Text(Some(generate_token().unwrap())),
            Action::NextColorIndex => {
                self.colors += 1;
                Event::Index(self.colors - 1)
            }
            Action::ReadEnv { .. } => Event::Text(None),
            Action::CurrentDir => Event::Text(Some("/srv".to_string())),
            Action::FileMapStatus { preview } => Event::FileMap {
                size: self.files.len(),
                preview: self
                    .files
                    .iter()
                    .take(preview)
                    .map(|(path, holder)| Field {
                        key: path.clone(),
                        value: Json::Text(holder.clone()),
                    })
                    .collect(),
            },
            other => panic!("no such action here: {other:?}"),
        }
    }

    fn run(&mut self, tool: ToolName, principal: Principal, arguments: &str, now: &str) -> ToolResult {
        let call = Call {
            principal: Some(principal),
            arguments: read_json(arguments).unwrap(),
            now: now.to_string(),
            instant: Some(Stamp { secs: 1780272060, nanos: 0 }),
            project_dir: "/tmp".to_string(),
            terminal_agent_statuses: vec!["terminated".to_string(), "tombstone".to_string()],
            terminal_task_statuses: vec![
                "completed".to_string(),
                "cancelled".to_string(),
                "failed".to_string(),
            ],
        };
        let mut history: Vec<Event> = Vec::new();
        loop {
            match next(tool, &call, &history).unwrap() {
                Action::Finish(result) => return result,
                action => {
                    let event = self.perform(action);
                    history.push(event);
                }
            }
        }
    }
}

fn ok(result: ToolResult) -> (Value, String) {
    match result {
        ToolResult::Success { data, message } => {
            (data.map_or(Value::Null, |d| d.to_value()), message.unwrap_or_default())
        }
        other => panic!("expected success, got {other:?}"),
    }
}

fn bearer(agent_id: &str, role: AgentRole, caps: Vec<Capability>) -> Principal {
    Principal {
        kind: PrincipalKind::AgentBearer,
        user_id: None,
        agent_id: Some(agent_id.to_string()),
        project_name: None,
        agent_role: Some(role),
        capabilities: Capabilities::Listed(caps),
        actor_label: agent_id.to_string(),
        sender_label: agent_id.to_string(),
        operator_tier: false,
        confirmed_operator_tier: false,
    }
}

fn worker() -> Principal {
    bearer("alice", AgentRole::Worker, vec![])
}

fn operator_with(caps: Vec<Capability>) -> Principal {
    Principal {
        kind: PrincipalKind::ForwardingHeader,
        user_id: Some("op-1".to_string()),
        agent_id: None,
        project_name: None,
        agent_role: None,
        capabilities: Capabilities::Listed(caps),
        actor_label: "op-1".to_string(),
        sender_label: "op-1".to_string(),
        operator_tier: true,
        confirmed_operator_tier: false,
    }
}

fn operator() -> Principal {
    operator_with(vec![Capability::SystemConfigWrite])
}

fn confirmed_operator() -> Principal {
    let mut p = operator_with(vec![Capability::AgentsRegister]);
    p.kind = PrincipalKind::OperatorSession;
    p.confirmed_operator_tier = true;
    p
}

fn cap_only_non_confirmed() -> Principal {
    let mut p = operator_with(vec![Capability::AgentsRegister]);
    p.operator_tier = false;
    p
}

fn terminator() -> Principal {
    operator_with(vec![Capability::AgentsTerminate])
}

fn denies(tool: ToolName, p: &Principal) -> bool {
    !admits(tool, Some(p))
}

const EARLY: &str = "2026-06-01T00:00:00Z";
const NOW: &str = "2026-06-01T00:01:00Z";
const LATER: &str = "2026-06-01T00:02:00Z";

#[test]
fn view_audit_log_denies_a_plain_worker() {
    assert!(denies(ToolName::ViewAuditLog, &worker()));
}

#[test]
fn view_audit_log_returns_recent_entries_for_an_operator() {
    let mut db = Db::default();
    db.seed_action("alice", "created_task", "2026-06-01T00:00:00Z");
    db.seed_action("bob", "deleted_task", "2026-06-01T00:00:01Z");
    let (data, message) =
        ok(db.run(ToolName::ViewAuditLog, operator(), "{}", "2026-06-01T00:00:02Z"));
    assert_eq!(data["count"], 2);
    assert_eq!(data["entries"][0]["action"], "created_task");
    assert_eq!(data["entries"][1]["action"], "deleted_task");
    assert!(message.contains("2 entries displayed"));
}

#[test]
fn view_audit_log_filters_by_agent_id_and_action() {
    let mut db = Db::default();
    db.seed_action("alice", "created_task", "2026-06-01T00:00:00Z");
    db.seed_action("alice", "deleted_task", "2026-06-01T00:00:01Z");
    db.seed_action("bob", "deleted_task", "2026-06-01T00:00:02Z");
    let (data, _) = ok(db.run(
        ToolName::ViewAuditLog,
        operator(),
        "{\"agent_id\": \"alice\", \"action\": \"deleted_task\"}",
        "2026-06-01T00:00:03Z",
    ));
    assert_eq!(data["count"], 1);
}

#[test]
fn view_audit_log_on_an_empty_table_reports_zero_entries() {
    let (data, _) = ok(Db::default().run(ToolName::ViewAuditLog, operator(), "{}", EARLY));
    assert_eq!(data["count"], 0);
}

#[test]
fn get_agent_tokens_denies_a_plain_worker() {
    assert!(denies(ToolName::GetAgentTokens, &worker()));
}

#[test]
fn get_agent_tokens_masks_tokens_by_default_even_for_a_confirmed_operator() {
    let mut db = Db::default();
    db.seed_agent("alice", "tok-alice-secret", EARLY);
    let (data, _) = ok(db.run(ToolName::GetAgentTokens, confirmed_operator(), "{}", NOW));
    assert_eq!(data["agents"][0]["token"], REDACTED_TOKEN);
    assert_eq!(data["filters_applied"]["include_sensitive_data"], false);
}

#[test]
fn get_agent_tokens_exposes_tokens_only_for_a_confirmed_operator_who_opts_in() {
    let mut db = Db::default();
    db.seed_agent("alice", "tok-alice-secret", EARLY);
    let args = "{\"include_sensitive_data\": true}";
    let (data, _) = ok(db.run(ToolName::GetAgentTokens, confirmed_operator(), args, NOW));
    assert_eq!(data["agents"][0]["token"], "tok-alice-secret");
    assert_eq!(data["filters_applied"]["include_sensitive_data"], true);
}

#[test]
fn get_agent_tokens_masks_a_cap_only_non_confirmed_caller_even_with_opt_in() {
    let mut db = Db::default();
    db.seed_agent("alice", "tok-alice-secret", EARLY);
    let args = "{\"include_sensitive_data\": true}";
    let (data, _) = ok(db.run(ToolName::GetAgentTokens, cap_only_non_confirmed(), args, NOW));
    assert_eq!(data["agents"][0]["token"], REDACTED_TOKEN);
}

#[test]
fn get_agent_tokens_pagination_reports_has_more() {
    let mut db = Db::default();
    db.seed_agent("alice", "tok-a", "2026-06-01T00:00:00Z");
    db.seed_agent("bob", "tok-b", "2026-06-01T00:00:01Z");
    db.seed_agent("carol", "tok-c", "2026-06-01T00:00:02Z");
    let (data, _) = ok(db.run(ToolName::GetAgentTokens, confirmed_operator(), "{\"limit\": 2}", NOW));
    assert_eq!(data["pagination"]["total_count"], 3);
    assert_eq!(data["pagination"]["returned_count"], 2);
    assert_eq!(data["pagination"]["has_more"], true);
}

#[test]
fn get_agent_tokens_filters_by_status() {
    let mut db = Db::default();
    db.seed_agent("alice", "tok-a", EARLY);
    db.terminate("alice", "2026-06-01T00:00:01Z");
    let args = "{\"filter_status\": \"terminated\", \"include_terminated\": true}";
    let (data, _) = ok(db.run(ToolName::GetAgentTokens, confirmed_operator(), args, NOW));
    assert_eq!(data["pagination"]["total_count"], 1);
}

#[test]
fn get_agent_tokens_writes_a_durable_audit_row() {
    let mut db = Db::default();
    db.seed_agent("alice", "tok-a", EARLY);
    ok(db.run(ToolName::GetAgentTokens, confirmed_operator(), "{}", NOW));
    assert_eq!(db.lines("get_agent_tokens").len(), 1);
}

#[test]
fn view_status_denies_a_plain_worker() {
    assert!(denies(ToolName::ViewStatus, &worker()));
}

#[test]
fn view_status_reports_live_agents_and_excludes_the_system_pseudo_agent() {
    let mut db = Db::default();
    db.seed_agent("alice", "tok-a", EARLY);
    db.agents.push(agent("system", "tok-system", "system", EARLY));
    let (data, message) = ok(db.run(ToolName::ViewStatus, operator(), "{}", NOW));
    assert_eq!(data["active_agents_count"], 1);
    assert!(data["agents_details"].get("alice").is_some());
    assert!(data["agents_details"].get("system").is_none());
    assert!(message.contains("MCP Server Status"));
}

#[test]
fn view_status_excludes_a_terminated_agent() {
    let mut db = Db::default();
    db.seed_agent("alice", "tok-a", EARLY);
    db.terminate("alice", "2026-06-01T00:00:01Z");
    let (data, _) = ok(db.run(ToolName::ViewStatus, operator(), "{}", NOW));
    assert_eq!(data["active_agents_count"], 0);
}

#[test]
fn view_status_reports_the_file_map_size_and_preview() {
    let mut db = Db::default();
    db.files.push(("/tmp/a.txt".to_string(), "alice".to_string()));
    let (data, _) = ok(db.run(ToolName::ViewStatus, operator(), "{}", NOW));
    assert_eq!(data["file_map_size"], 1);
    assert!(data["file_map_preview"].get("/tmp/a.txt").is_some());
}

#[test]
fn register_agent_denies_a_plain_worker() {
    assert!(denies(ToolName::RegisterAgent, &worker()));
}

#[test]
fn register_agent_creates_a_worker_with_default_role() {
    let mut db = Db::default();
    let args = "{\"name\": \"alice\"}";
    let (data, message) = ok(db.run(ToolName::RegisterAgent, confirmed_operator(), args, EARLY));
    assert_eq!(data["agent_id"], "alice");
    assert_eq!(data["agent_role"], "worker");
    let token = data["token"].as_str().unwrap().to_string();
    assert_eq!(token.len(), 32);
    assert!(data["mcp_snippet"].as_str().unwrap().contains(&token));
    assert!(message.contains("registered"));
    let row = db.row("alice").unwrap();
    assert_eq!(row.status, "created");
    assert_eq!(row.profile, None);
}

#[test]
fn register_agent_seeds_the_manager_default_profile() {
    let mut db = Db::default();
    let args = "{\"name\": \"boss\", \"role\": \"manager\"}";
    ok(db.run(ToolName::RegisterAgent, confirmed_operator(), args, EARLY));
    let row = db.row("boss").unwrap();
    assert_eq!(row.profile.as_deref(), Some(MANAGER_DEFAULT_PROFILE));
    assert_eq!(row.profile_updated_by, None);
}

fn register(args: &str) -> ToolResult {
    Db::default().run(ToolName::RegisterAgent, confirmed_operator(), args, EARLY)
}

#[test]
fn register_agent_rejects_an_invalid_role() {
    let result = register("{\"name\": \"alice\", \"role\": \"superadmin\"}");
    assert!(matches!(result, ToolResult::Invalid { .. }));
}

#[test]
fn register_agent_rejects_a_bracketed_name() {
    let result = register("{\"name\": \"deleted-alice]\"}");
    assert!(matches!(result, ToolResult::Invalid { .. }));
}

#[test]
fn register_agent_rejects_a_reserved_admin_prefixed_name() {
    let result = register("{\"name\": \"admin-bob\"}");
    assert!(matches!(result, ToolResult::Invalid { .. }));
}

#[test]
fn register_agent_duplicate_name_is_a_conflict() {
    let mut db = Db::default();
    db.seed_agent("alice", "tok-a", EARLY);
    let args = "{\"name\": \"alice\"}";
    let result = db.run(ToolName::RegisterAgent, confirmed_operator(), args, NOW);
    assert!(matches!(result, ToolResult::Conflict { .. }));
}

#[test]
fn register_agent_snippet_includes_the_project_and_host() {
    let (data, _) = ok(register(
        "{\"name\": \"alice\", \"project_name\": \"demo\", \"host\": \"https://host.example\"}",
    ));
    assert_eq!(data["project_name"], "demo");
    let snippet: Value = serde_json::from_str(data["mcp_snippet"].as_str().unwrap()).unwrap();
    assert_eq!(
        snippet["mcpServers"]["agent-mcp"]["url"],
        "https://host.example/agent-mcp/mcp/demo"
    );
}

#[test]
fn register_agent_writes_a_durable_audit_row() {
    let mut db = Db::default();
    ok(db.run(ToolName::RegisterAgent, confirmed_operator(), "{\"name\": \"alice\"}", EARLY));
    assert_eq!(db.lines("registered_agent").len(), 1);
}

const ALICE: &str = "{\"agent_id\": \"alice\"}";
const BOB: &str = "{\"agent_id\": \"bob\"}";
const GHOST: &str = "{\"agent_id\": \"ghost\"}";

fn rotator() -> Principal {
    operator_with(vec![Capability::AgentsRotateToken])
}

#[test]
fn rotate_agent_token_denies_a_plain_worker() {
    assert!(denies(ToolName::RotateAgentToken, &worker()));
}

#[test]
fn rotate_agent_token_replaces_the_bearer_and_returns_it_once() {
    let mut db = Db::default();
    db.seed_agent("alice", "old-token-value", EARLY);
    let (data, _) = ok(db.run(ToolName::RotateAgentToken, rotator(), ALICE, NOW));
    let token = data["token"].as_str().unwrap();
    assert_ne!(token, "old-token-value");
    assert_eq!(token.len(), 32);
    assert_eq!(db.row("alice").unwrap().token, token);
}

#[test]
fn rotate_agent_token_missing_agent_is_not_found() {
    let result = Db::default().run(ToolName::RotateAgentToken, rotator(), GHOST, EARLY);
    assert!(matches!(result, ToolResult::NotFound { .. }));
}

#[test]
fn rotate_agent_token_refuses_a_terminated_agent() {
    let mut db = Db::default();
    db.seed_agent("alice", "tok-a", EARLY);
    db.terminate("alice", "2026-06-01T00:00:01Z");
    let result = db.run(ToolName::RotateAgentToken, rotator(), ALICE, LATER);
    assert!(matches!(result, ToolResult::Conflict { .. }));
}

#[test]
fn rotate_agent_token_writes_a_durable_audit_row_with_suffixes_only() {
    let mut db = Db::default();
    db.seed_agent("alice", "old-token-value", EARLY);
    ok(db.run(ToolName::RotateAgentToken, rotator(), ALICE, NOW));
    let details = db.lines("rotated_agent_token")[0].details.compact();
    assert!(!details.contains("old-token-value"));
    assert!(details.contains("alue"));
}

#[test]
fn a_short_token_stays_out_of_the_audit_trail() {
    for token in ["a", "abcd"] {
        let mut db = Db::default();
        db.seed_agent("alice", token, EARLY);
        ok(db.run(ToolName::RotateAgentToken, rotator(), ALICE, NOW));
        let details = &db.lines("rotated_agent_token")[0].details;
        assert_eq!(details.get("old_token_suffix"), Some(&Json::Null));
    }
}

#[test]
fn restore_agent_denies_a_plain_worker() {
    assert!(denies(ToolName::RestoreAgent, &worker()));
}

#[test]
fn restore_agent_flips_a_terminated_agent_back_to_created() {
    let mut db = Db::default();
    db.seed_agent("alice", "tok-a", EARLY);
    db.terminate("alice", "2026-06-01T00:00:01Z");
    ok(db.run(ToolName::RestoreAgent, terminator(), ALICE, LATER));
    let row = db.row("alice").unwrap();
    assert_eq!(row.status, "created");
    assert_eq!(row.terminated_at, None);
}

#[test]
fn restore_agent_refuses_a_non_terminated_agent() {
    let mut db = Db::default();
    db.seed_agent("alice", "tok-a", EARLY);
    let result = db.run(ToolName::RestoreAgent, terminator(), ALICE, NOW);
    assert!(matches!(result, ToolResult::Conflict { .. }));
}

#[test]
fn restore_agent_working_directory_is_immediately_visible_after_restore() {
    let mut db = Db::default();
    db.seed_agent("alice", "tok-a", EARLY);
    db.row("alice").unwrap().working_directory = "/tmp/alice-wd".to_string();
    db.terminate("alice", "2026-06-01T00:00:01Z");
    ok(db.run(ToolName::RestoreAgent, terminator(), ALICE, LATER));
    assert_eq!(db.working_directory("alice"), "/tmp/alice-wd");
}

#[test]
fn a_second_restore_is_a_conflict() {
    let mut db = Db::default();
    db.seed_agent("alice", "tok-a", EARLY);
    ok(db.run(ToolName::TerminateAgent, terminator(), ALICE, NOW));
    ok(db.run(ToolName::RestoreAgent, terminator(), ALICE, LATER));
    let result = db.run(ToolName::RestoreAgent, terminator(), ALICE, LATER);
    assert!(matches!(result, ToolResult::Conflict { .. }));
    assert_eq!(db.row("alice").unwrap().status, "created");
}

#[test]
fn restore_agent_missing_agent_is_not_found() {
    let result = Db::default().run(ToolName::RestoreAgent, terminator(), GHOST, EARLY);
    assert!(matches!(result, ToolResult::NotFound { .. }));
}

#[test]
fn edit_agent_denies_a_plain_worker() {
    assert!(denies(ToolName::EditAgent, &worker()));
}

fn edit(db: &mut Db, args: &str) -> ToolResult {
    db.run(ToolName::EditAgent, terminator(), args, NOW)
}

#[test]
fn edit_agent_updates_the_color() {
    let mut db = Db::default();
    db.seed_agent("alice", "tok-a", EARLY);
    let (data, _) = ok(edit(&mut db, "{\"agent_id\": \"alice\", \"color\": \"#123456\"}"));
    assert_eq!(data["updated"], Value::from(vec!["color"]));
    assert_eq!(db.row("alice").unwrap().color.as_deref(), Some("#123456"));
}

#[test]
fn edit_agent_no_editable_fields_is_invalid() {
    let mut db = Db::default();
    db.seed_agent("alice", "tok-a", EARLY);
    assert!(matches!(edit(&mut db, ALICE), ToolResult::Invalid { .. }));
}

#[test]
fn edit_agent_rejects_an_invalid_agent_role() {
    let mut db = Db::default();
    db.seed_agent("alice", "tok-a", EARLY);
    let result = edit(&mut db, "{\"agent_id\": \"alice\", \"agent_role\": \"overlord\"}");
    assert!(matches!(result, ToolResult::Invalid { .. }));
}

#[test]
fn edit_agent_clears_aoe_session_id_with_an_empty_string() {
    let mut db = Db::default();
    db.seed_agent("alice", "tok-a", EARLY);
    db.row("alice").unwrap().aoe_session_id = Some("old-session".to_string());
    ok(edit(&mut db, "{\"agent_id\": \"alice\", \"aoe_session_id\": \"\"}"));
    assert_eq!(db.row("alice").unwrap().aoe_session_id, None);
}

#[test]
fn edit_agent_toggling_auto_event_loop_wakes_the_agents_waiter() {
    let mut db = Db::default();
    db.seed_agent("alice", "tok-a", EARLY);
    ok(edit(&mut db, "{\"agent_id\": \"alice\", \"auto_event_loop\": false}"));
    assert_eq!(db.woken, vec!["alice"]);
}

#[test]
fn edit_agent_missing_agent_is_not_found() {
    let result = edit(&mut Db::default(), "{\"agent_id\": \"ghost\", \"color\": \"#000000\"}");
    assert!(matches!(result, ToolResult::NotFound { .. }));
}

#[test]
fn edit_agent_working_directory_change_is_immediately_visible() {
    let mut db = Db::default();
    db.seed_agent("alice", "tok-a", EARLY);
    ok(edit(&mut db, "{\"agent_id\": \"alice\", \"working_directory\": \"/tmp/new-wd\"}"));
    assert_eq!(db.working_directory("alice"), "/tmp/new-wd");
}

#[test]
fn edit_agent_non_workdir_field_leaves_working_directory_untouched() {
    let mut db = Db::default();
    db.seed_agent("bob", "tok-b", EARLY);
    ok(edit(&mut db, "{\"agent_id\": \"bob\", \"color\": \"#abcdef\"}"));
    assert_eq!(db.working_directory("bob"), "/tmp");
}

#[test]
fn terminate_agent_denies_a_plain_worker() {
    assert!(denies(ToolName::TerminateAgent, &worker()));
}

#[test]
fn terminate_agent_flips_status_and_revokes_the_token() {
    let mut db = Db::default();
    db.seed_agent("alice", "tok-a", EARLY);
    ok(db.run(ToolName::TerminateAgent, terminator(), ALICE, NOW));
    let row = db.row("alice").unwrap();
    assert_eq!(row.status, "terminated");
    assert!(row.terminated_at.is_some());
}

#[test]
fn terminate_agent_missing_agent_is_not_found() {
    let result = Db::default().run(ToolName::TerminateAgent, terminator(), GHOST, EARLY);
    assert!(matches!(result, ToolResult::NotFound { .. }));
}

#[test]
fn terminate_agent_on_an_already_terminated_agent_is_not_found_not_conflict() {
    let mut db = Db::default();
    db.seed_agent("alice", "tok-a", EARLY);
    db.terminate("alice", "2026-06-01T00:00:01Z");
    let result = db.run(ToolName::TerminateAgent, terminator(), ALICE, LATER);
    assert!(matches!(result, ToolResult::NotFound { .. }));
}

#[test]
fn terminate_agent_reassigns_active_tasks_but_preserves_terminal_ones() {
    let mut db = Db::default();
    db.seed_agent("alice", "tok-a", EARLY);
    db.seed_task("task-active", Some("alice"), "in_progress");
    db.seed_task("task-done", Some("alice"), "completed");
    ok(db.run(ToolName::TerminateAgent, terminator(), ALICE, NOW));
    assert_eq!(db.task("task-active").status, "unassigned");
    assert_eq!(db.task("task-active").assigned_to, None);
    assert_eq!(db.task("task-done").status, "completed");
    assert_eq!(db.task("task-done").assigned_to.as_deref(), Some("alice"));
}

#[test]
fn terminate_agent_wakes_every_active_agent_when_a_task_is_reassigned() {
    let mut db = Db::default();
    db.seed_agent("alice", "tok-a", EARLY);
    db.seed_agent("bob", "tok-b", EARLY);
    db.seed_task("task-active", Some("alice"), "in_progress");
    ok(db.run(ToolName::TerminateAgent, terminator(), ALICE, NOW));
    assert!(db.woken.contains(&"bob".to_string()));
}

#[test]
fn terminate_agent_writes_a_durable_audit_row_attributed_to_admin() {
    let mut db = Db::default();
    db.seed_agent("alice", "tok-a", EARLY);
    ok(db.run(ToolName::TerminateAgent, terminator(), ALICE, NOW));
    let lines = db.lines("terminated_agent");
    assert_eq!(lines.len(), 1);
    assert_eq!(lines[0].agent_id, "admin");
}

fn purge(db: &mut Db, args: &str) -> ToolResult {
    db.run(ToolName::PurgeAgent, terminator(), args, NOW)
}

fn two_agents() -> Db {
    let mut db = Db::default();
    db.seed_agent("alice", "tok-a", EARLY);
    db.seed_agent("bob", "tok-b", EARLY);
    db
}

#[test]
fn purge_agent_denies_a_plain_worker() {
    assert!(denies(ToolName::PurgeAgent, &worker()));
}

#[test]
fn purge_agent_missing_agent_is_not_found() {
    assert!(matches!(purge(&mut Db::default(), GHOST), ToolResult::NotFound { .. }));
}

#[test]
fn purge_agent_hard_deletes_the_row() {
    let mut db = two_agents();
    let (data, message) = ok(purge(&mut db, ALICE));
    assert_eq!(data["tombstone"], "[deleted-alice]");
    assert!(message.contains("purged"));
    assert!(db.row("alice").is_none());
}

#[test]
fn purge_agent_inserts_a_tombstone_row() {
    let mut db = two_agents();
    ok(purge(&mut db, ALICE));
    assert_eq!(db.row("[deleted-alice]").unwrap().status, "tombstone");
}

#[test]
fn purge_agent_tombstones_sent_and_received_messages() {
    let mut db = two_agents();
    db.seed_message("msg-1", "alice", "bob");
    db.seed_message("msg-2", "bob", "alice");
    let (data, _) = ok(purge(&mut db, ALICE));
    assert_eq!(data["counts"]["messages_sent"], 1);
    assert_eq!(data["counts"]["messages_received"], 1);
    assert_eq!(db.messages[0].id, "msg-1");
    assert_eq!(db.messages[0].sender, "[deleted-alice]");
    assert_eq!(db.messages[0].recipient, "bob");
    assert_eq!(db.messages[1].id, "msg-2");
    assert_eq!(db.messages[1].recipient, "[deleted-alice]");
}

#[test]
fn purge_agent_reassigns_active_tasks_and_clears_but_preserves_terminal_ones() {
    let mut db = two_agents();
    db.seed_task("task-active", Some("alice"), "in_progress");
    db.seed_task("task-done", Some("alice"), "completed");
    ok(purge(&mut db, ALICE));
    assert_eq!(db.task("task-active").status, "unassigned");
    assert_eq!(db.task("task-active").assigned_to, None);
    assert_eq!(db.task("task-done").status, "completed");
    assert_eq!(db.task("task-done").assigned_to, None);
}

#[test]
fn purge_agent_tombstones_created_tasks_and_audit_rows() {
    let mut db = two_agents();
    db.seed_task("task-1", None, "unassigned");
    db.seed_action("alice", "did_something", EARLY);
    ok(purge(&mut db, ALICE));
    assert_eq!(db.task("task-1").created_by, "[deleted-alice]");
    assert_eq!(db.lines("did_something")[0].agent_id, "[deleted-alice]");
    assert_ne!(db.lines("purged_agent")[0].agent_id, "[deleted-alice]");
}

#[test]
fn purge_agent_wakes_every_active_agent_when_a_task_is_reassigned() {
    let mut db = two_agents();
    db.seed_task("task-active", Some("alice"), "in_progress");
    ok(purge(&mut db, ALICE));
    assert_eq!(db.woken, vec!["bob"]);
}

#[test]
fn purge_agent_with_only_a_terminal_task_wakes_nobody() {
    let mut db = two_agents();
    db.seed_task("task-done", Some("alice"), "completed");
    ok(purge(&mut db, ALICE));
    assert!(db.woken.is_empty());
}

#[test]
fn purge_agent_deletes_claude_code_session_rows() {
    let mut db = two_agents();
    db.sessions.push(("s1".to_string(), "alice".to_string()));
    ok(purge(&mut db, ALICE));
    assert!(db.sessions.is_empty());
}

#[test]
fn purge_agent_leaves_a_bystanders_claude_code_session_intact() {
    let mut db = two_agents();
    db.sessions.push(("s-bob".to_string(), "bob".to_string()));
    ok(purge(&mut db, ALICE));
    assert_eq!(db.sessions, vec![("s-bob".to_string(), "bob".to_string())]);
}

#[test]
fn purge_agent_re_purging_an_already_purged_identity_is_not_found() {
    let mut db = two_agents();
    ok(purge(&mut db, ALICE));
    let before = db.actions.len();
    assert!(matches!(purge(&mut db, ALICE), ToolResult::NotFound { .. }));
    assert_eq!(db.actions.len(), before);
}

#[test]
fn purge_agent_purging_two_distinct_agents_never_conflicts() {
    let mut db = two_agents();
    ok(purge(&mut db, ALICE));
    ok(purge(&mut db, BOB));
    assert_eq!(db.agents.len(), 2);
    assert!(db.agents.iter().all(|r| r.status == "tombstone"));
}

#[test]
fn nothing_names_a_purged_agent_and_others_keep_their_rows() {
    let mut db = two_agents();
    db.seed_message("msg-1", "alice", "alice");
    db.seed_message("msg-2", "bob", "carol");
    db.seed_task("t1", Some("alice"), "in_progress");
    db.seed_task("t2", Some("bob"), "in_progress");
    db.tasks[1].created_by = "bob".to_string();
    db.seed_action("alice", "did_something", EARLY);
    db.seed_action("bob", "did_something", EARLY);
    db.sessions.push(("s1".to_string(), "alice".to_string()));
    ok(purge(&mut db, ALICE));
    assert!(db.messages.iter().all(|m| m.sender != "alice" && m.recipient != "alice"));
    assert!(db.tasks.iter().all(|t| t.created_by != "alice"));
    assert!(db.tasks.iter().all(|t| t.assigned_to.as_deref() != Some("alice")));
    assert!(db.actions.iter().all(|l| l.agent_id != "alice"));
    assert!(db.sessions.is_empty() && db.row("alice").is_none());
    assert_eq!((db.messages[1].sender.as_str(), db.messages[1].recipient.as_str()), ("bob", "carol"));
    assert_eq!(db.task("t2").assigned_to.as_deref(), Some("bob"));
    assert_eq!(db.task("t2").status, "in_progress");
    assert_eq!(db.actions[1].agent_id, "bob");
    assert_eq!(db.row("bob").unwrap().token, "tok-b");
}

fn run_with_failures(db: &mut Db, fails: fn(&Action) -> bool) -> ToolResult {
    let call = Call {
        principal: Some(terminator()),
        arguments: read_json(ALICE).unwrap(),
        now: NOW.to_string(),
        instant: None,
        project_dir: "/tmp".to_string(),
        terminal_agent_statuses: vec!["terminated".to_string(), "tombstone".to_string()],
        terminal_task_statuses: vec!["completed".to_string()],
    };
    let mut history: Vec<Event> = Vec::new();
    loop {
        match next(ToolName::PurgeAgent, &call, &history).unwrap() {
            Action::Finish(result) => return result,
            action if fails(&action) => history.push(Event::Failed),
            action => {
                let event = db.perform(action);
                history.push(event);
            }
        }
    }
}

#[test]
fn a_purge_is_whole_though_counts_and_wakes_fail() {
    let mut db = two_agents();
    db.seed_message("msg-1", "alice", "bob");
    db.seed_task("t1", Some("alice"), "in_progress");
    let (data, _) = ok(run_with_failures(&mut db, |a| {
        matches!(a, Action::Count { .. } | Action::ListActiveAgents | Action::Notify { .. })
    }));
    assert_eq!(data["counts"]["messages_sent"], 0);
    assert!(db.row("alice").is_none() && db.woken.is_empty());
    assert_eq!(db.messages[0].sender, "[deleted-alice]");
    assert_eq!(db.task("t1").assigned_to, None);
    assert_eq!(db.task("t1").created_by, "[deleted-alice]");
}

#[test]
fn a_purge_ends_where_the_tombstone_cannot_be_stored() {
    let mut db = two_agents();
    db.seed_message("msg-1", "alice", "bob");
    let result = run_with_failures(&mut db, |a| matches!(a, Action::InsertTombstone { .. }));
    assert!(matches!(result, ToolResult::Failed { .. }));
    assert_eq!(db.messages[0].sender, "alice");
    assert!(db.row("alice").is_some());
}

#[test]
fn lists_live_agents_sorted_by_id_excluding_terminated_tombstone_and_system() {
    let mut db = Db::default();
    db.seed_role("zebra-agent", "worker");
    db.seed_role("alpha-agent", "manager");
    db.seed_role("gone-agent", "worker");
    db.row("gone-agent").unwrap().status = "terminated".to_string();
    db.seed_role("system", "worker");
    db.row("system").unwrap().status = "system".to_string();
    let caller = bearer("caller-1", AgentRole::Worker, vec![Capability::AgentsUse]);
    let (data, _) = ok(db.run(ToolName::ViewAgents, caller, "null", EARLY));
    let agents = data["agents"].as_array().unwrap();
    let ids: Vec<&str> = agents.iter().map(|a| a["agent_id"].as_str().unwrap()).collect();
    assert_eq!(ids, vec!["alpha-agent", "zebra-agent"]);
    assert_eq!(agents[0]["agent_role"], "manager");
}

#[test]
fn an_operator_tier_view_capability_also_admits() {
    let mut db = Db::default();
    db.seed_role("only-agent", "worker");
    let caller = operator_with(vec![Capability::AgentsView]);
    assert!(admits(ToolName::ViewAgents, Some(&caller)));
    let (data, _) = ok(db.run(ToolName::ViewAgents, caller, "null", EARLY));
    assert_eq!(data["agents"].as_array().unwrap().len(), 1);
}

fn peer(agent_id: &str, role: AgentRole) -> Principal {
    bearer(agent_id, role, vec![Capability::AgentsUse])
}

fn own_profiles_locked() -> Db {
    let mut db = Db::default();
    db.seed_role("worker-1", "worker");
    db.switched_off.push("config_allow_worker_update_own_profile".to_string());
    db
}

#[test]
fn self_confirm_with_no_profile_arg_always_succeeds_even_with_toggle_off() {
    let caller = peer("worker-1", AgentRole::Worker);
    let result = own_profiles_locked().run(ToolName::UpdateAgentProfile, caller, "null", EARLY);
    assert!(matches!(result, ToolResult::Success { .. }), "{result:?}");
}

#[test]
fn self_edit_is_denied_when_the_own_role_toggle_is_off() {
    let caller = peer("worker-1", AgentRole::Worker);
    let args = "{\"profile\": \"new text\"}";
    let result = own_profiles_locked().run(ToolName::UpdateAgentProfile, caller, args, EARLY);
    assert!(matches!(result, ToolResult::PermissionDenied { .. }), "{result:?}");
}

#[test]
fn manager_may_curate_a_workers_profile() {
    let mut db = Db::default();
    db.seed_role("manager-1", "manager");
    db.seed_role("worker-1", "worker");
    let args = "{\"profile\": \"curated\", \"agent_id\": \"worker-1\"}";
    let caller = peer("manager-1", AgentRole::Manager);
    let (data, _) = ok(db.run(ToolName::UpdateAgentProfile, caller, args, EARLY));
    assert_eq!(data["profile"], "curated");
}

#[test]
fn manager_may_not_edit_another_managers_profile() {
    let mut db = Db::default();
    db.seed_role("manager-1", "manager");
    db.seed_role("manager-2", "manager");
    let args = "{\"profile\": \"hijacked\", \"agent_id\": \"manager-2\"}";
    let caller = peer("manager-1", AgentRole::Manager);
    let result = db.run(ToolName::UpdateAgentProfile, caller, args, EARLY);
    assert!(matches!(result, ToolResult::PermissionDenied { .. }), "{result:?}");
    assert_eq!(db.row("manager-2").unwrap().profile, None);
}

#[test]
fn a_worker_may_not_edit_another_agents_profile() {
    let mut db = Db::default();
    db.seed_role("worker-1", "worker");
    db.seed_role("worker-2", "worker");
    let args = "{\"profile\": \"hijacked\", \"agent_id\": \"worker-2\"}";
    let caller = peer("worker-1", AgentRole::Worker);
    let result = db.run(ToolName::UpdateAgentProfile, caller, args, EARLY);
    assert!(matches!(result, ToolResult::PermissionDenied { .. }), "{result:?}");
}

fn prompted(db: &mut Db, agent_id: &str, role: AgentRole) -> String {
    let caller = bearer(agent_id, role, vec![Capability::McpConnect]);
    ok(db.run(ToolName::GetSystemPrompt, caller, "null", EARLY)).1
}

#[test]
fn returns_a_worker_labeled_prompt_with_the_agents_working_directory() {
    let mut db = Db::default();
    db.seed_role("worker-1", "worker");
    db.row("worker-1").unwrap().working_directory = "/home/worker-1/repo".to_string();
    let message = prompted(&mut db, "worker-1", AgentRole::Worker);
    assert!(message.contains("System Prompt for Agent 'worker-1'"));
    assert!(message.contains("Agent Type: Worker"));
    assert!(message.contains("/home/worker-1/repo"));
    assert!(!message.contains("send_agent_message"));
}

#[test]
fn a_manager_gets_the_admin_label_and_the_teammate_messaging_note() {
    let mut db = Db::default();
    db.seed_role("manager-1", "manager");
    db.row("manager-1").unwrap().working_directory = "/home/manager-1/repo".to_string();
    let message = prompted(&mut db, "manager-1", AgentRole::Manager);
    assert!(message.contains("Agent Type: Admin"));
    assert!(message.contains("send_agent_message"));
    assert!(message.contains("Your working folder"));
}

#[test]
fn an_unknown_agent_falls_back_to_the_server_cwd_and_worker_label() {
    let message = prompted(&mut Db::default(), "ghost-agent", AgentRole::Worker);
    assert!(message.contains("System Prompt for Agent 'ghost-agent'"));
    assert!(message.contains("Agent Type: Worker"));
    assert!(message.contains("/srv"));
}

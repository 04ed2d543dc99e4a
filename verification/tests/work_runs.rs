use conexus_tools::catalog::{admits, next, ToolName};
use conexus_tools::json::{jint, read_json, Field, Json};
use conexus_tools::principal::{AgentRole, Capabilities, Capability, Principal, PrincipalKind};
use conexus_tools::protocol::{
    Action, AgentRow, Call, Claim, ContextRow, Event, MessageRow, MetadataRow, Stamp, ToolResult,
};
use serde_json::Value;

/// A database, a file map and a disk in memory.
#[derive(Default)]
struct Db {
    agents: Vec<String>,
    homes: Vec<(String, String)>,
    messages: Vec<MessageRow>,
    actions: Vec<String>,
    claims: Vec<(String, Claim)>,
    metadata: Vec<(String, MetadataRow)>,
    contexts: Vec<ContextRow>,
    chunks: Vec<String>,
    dirs: Vec<String>,
    files: Vec<(String, String)>,
    switched_off: Vec<String>,
    woken: Vec<String>,
    cursor: Option<String>,
    caller: String,
}

fn agent(agent_id: &str, home: &str) -> AgentRow {
    AgentRow {
        token: format!("tok-{agent_id}"),
        agent_id: agent_id.to_string(),
        created_at: "2026-06-01T00:00:00Z".to_string(),
        status: "active".to_string(),
        current_task: None,
        working_directory: home.to_string(),
        color: None,
        terminated_at: None,
        updated_at: None,
        aoe_session_id: None,
        auto_event_loop: true,
        last_event_seen_at: None,
        last_activity_at: None,
        agent_role: "worker".to_string(),
        profile: None,
        profile_updated_at: None,
        profile_reviewed_at: None,
        profile_updated_by: None,
    }
}

fn stamp(s: &str) -> Option<Stamp> {
    s.parse::<chrono::DateTime<chrono::Utc>>()
        .ok()
        .map(|t| Stamp { secs: t.timestamp(), nanos: t.timestamp_subsec_nanos() })
}

fn entry(key: &str, value: &str, description: Option<&str>, by: &str, at: &str) -> ContextRow {
    ContextRow {
        context_key: key.to_string(),
        value: value.to_string(),
        description: description.map(str::to_string),
        created_at: Some(at.to_string()),
        created_by: Some(by.to_string()),
        updated_at: at.to_string(),
        updated_by: by.to_string(),
        updated: stamp(at),
        scalar_text: match read_json(value) {
            Some(Json::Text(s)) => s,
            _ => value.to_string(),
        },
    }
}

fn same_entry(e: &ContextRow) -> ContextRow {
    let mut copy = entry(
        &e.context_key,
        &e.value,
        e.description.as_deref(),
        e.created_by.as_deref().unwrap(),
        &e.updated_at,
    );
    copy.updated_by = e.updated_by.clone();
    copy
}

fn message(id: &str, from: &str, to: &str, text: &str, kind: &str, at: &str) -> MessageRow {
    MessageRow {
        message_id: id.to_string(),
        sender_id: from.to_string(),
        recipient_id: to.to_string(),
        message_content: text.to_string(),
        message_type: kind.to_string(),
        priority: "normal".to_string(),
        timestamp: at.to_string(),
        delivered: false,
        read: false,
        subject: None,
        parent_message_id: None,
        shown_subject: None,
        subject_is_placeholder: false,
    }
}

fn same_message(m: &MessageRow) -> MessageRow {
    let mut copy = message(
        &m.message_id,
        &m.sender_id,
        &m.recipient_id,
        &m.message_content,
        &m.message_type,
        &m.timestamp,
    );
    copy.read = m.read;
    copy.subject = m.subject.clone();
    copy.parent_message_id = m.parent_message_id.clone();
    copy
}

impl Db {
    fn with_agents(ids: &[&str]) -> Db {
        let mut db = Db::default();
        for id in ids {
            db.agents.push(id.to_string());
            db.homes.push((id.to_string(), format!("/home/{id}/repo")));
        }
        db
    }

    fn get(&self, key: &str) -> Option<&ContextRow> {
        self.contexts.iter().find(|e| e.context_key == key)
    }

    fn seed(&mut self, key: &str, value: &str, at: &str) {
        self.contexts.push(entry(key, value, Some("d"), "alice", at));
    }

    fn claim(&self, path: &str) -> Option<&Claim> {
        self.claims.iter().find(|(p, _)| p == path).map(|(_, c)| c)
    }

    fn stored(&self, id: &str) -> &MessageRow {
        self.messages.iter().find(|m| m.message_id == id).unwrap()
    }

    fn row(&self, agent_id: &str) -> Option<AgentRow> {
        self.homes.iter().find(|(id, _)| id == agent_id).map(|(id, home)| agent(id, home))
    }

    fn perform(&mut self, action: Action) -> Event {
        match action {
            Action::LogAction { action_type, .. } => {
                self.actions.push(action_type);
                Event::Done
            }
            Action::GetAgent { agent_id } => Event::Agent(self.row(&agent_id)),
            Action::ListActiveAgents => {
                Event::Agents(self.agents.iter().map(|id| agent(id, "/tmp")).collect())
            }
            Action::GetSwitch { key, default_on } => {
                Event::Changed(if self.switched_off.contains(&key) { false } else { default_on })
            }
            Action::Notify { agent_id } => {
                self.woken.push(agent_id);
                Event::Done
            }
            Action::SendMessage(m) => {
                if self.caller != "admin" && !m.allow_worker_to_worker {
                    return Event::SendDenied(ToolResult::PermissionDenied {
                        reason: "workers may not message workers".to_string(),
                    });
                }
                if !self.agents.contains(&m.recipient_id) {
                    return Event::RecipientUnknown;
                }
                if let Some(parent) = &m.parent_message_id {
                    if !self.messages.iter().any(|x| x.message_id == *parent) {
                        return Event::ParentUnknown { message_id: parent.clone() };
                    }
                }
                let id = format!("m{}", self.messages.len());
                let mut row = message(
                    &id,
                    &self.caller,
                    &m.recipient_id,
                    &m.message_content,
                    &m.message_type,
                    &m.now,
                );
                row.subject = m.subject;
                row.parent_message_id = m.parent_message_id;
                self.messages.push(row);
                Event::MessageSent { message_id: id }
            }
            Action::SubjectFor { subject, .. } => {
                Event::Subject { placeholder: subject.is_none(), shown: subject }
            }
            Action::ListMessages {
                agent_id,
                include_sent,
                include_received,
                message_type,
                unread_only,
                limit,
            } => {
                let mut rows: Vec<MessageRow> = self
                    .messages
                    .iter()
                    .filter(|m| {
                        include_sent && m.sender_id == agent_id
                            || include_received && m.recipient_id == agent_id
                    })
                    .filter(|m| message_type.as_ref().map_or(true, |t| m.message_type == *t))
                    .filter(|m| !unread_only || !m.read)
                    .map(same_message)
                    .collect();
                rows.sort_by(|a, b| b.timestamp.partial_cmp(&a.timestamp).unwrap());
                rows.truncate(limit as usize);
                Event::Messages(rows)
            }
            Action::MarkRead { message_ids, recipient } => {
                for m in &mut self.messages {
                    if message_ids.contains(&m.message_id) && m.recipient_id == recipient {
                        m.read = true;
                    }
                }
                Event::Done
            }
            Action::AssembleFeed { agent_id, now, .. } => Event::Feed {
                events: self
                    .messages
                    .iter()
                    .filter(|m| m.recipient_id == agent_id)
                    .map(|m| Json::Text(m.message_id.clone()))
                    .collect(),
                next_cursor: now,
            },
            Action::AdvanceCursor { cursor, .. } => {
                self.cursor = Some(cursor);
                Event::Done
            }
            Action::CurrentDir => Event::Text(Some("/srv".to_string())),
            Action::Canonicalize { path } => {
                if self.dirs.contains(&path) {
                    Event::Text(Some(path))
                } else {
                    Event::Failed
                }
            }
            Action::FileHolder { path } => Event::Holder(self.claim(&path).map(|c| Claim {
                agent_id: c.agent_id.clone(),
                status: c.status.clone(),
                timestamp: c.timestamp.clone(),
            })),
            Action::ClaimFile { path, agent_id, status, timestamp } => {
                self.claims.retain(|(p, _)| *p != path);
                self.claims.push((path, Claim { agent_id, status, timestamp }));
                Event::Done
            }
            Action::ReleaseFile { path } => {
                self.claims.retain(|(p, _)| *p != path);
                Event::Done
            }
            Action::GetMetadata { path } => Event::Metadata(
                self.metadata.iter().find(|(p, _)| *p == path).map(|(_, m)| MetadataRow {
                    metadata: m.metadata.clone(),
                    updated_by: m.updated_by.clone(),
                    last_updated: m.last_updated.clone(),
                    content_hash: m.content_hash.clone(),
                }),
            ),
            Action::PutMetadata { path, metadata, updated_by, timestamp } => {
                self.metadata.retain(|(p, _)| *p != path);
                self.metadata.push((
                    path,
                    MetadataRow {
                        metadata,
                        updated_by: Some(updated_by),
                        last_updated: Some(timestamp),
                        content_hash: None,
                    },
                ));
                Event::Done
            }
            Action::ListContexts => Event::Contexts(self.contexts.iter().map(same_entry).collect()),
            Action::GetContext { context_key } => {
                Event::Context(self.get(&context_key).map(same_entry))
            }
            Action::CreateContext(new) => {
                if self.get(&new.context_key).is_some() {
                    return Event::Changed(false);
                }
                self.contexts.push(entry(
                    &new.context_key,
                    &new.value,
                    new.description.as_deref(),
                    &new.created_by,
                    &new.timestamp,
                ));
                Event::Changed(true)
            }
            Action::UpsertContext {
                context_key,
                value,
                description,
                description_provided,
                updated_by,
                timestamp,
            } => {
                match self.contexts.iter_mut().find(|e| e.context_key == context_key) {
                    Some(e) => {
                        e.value = value;
                        if description_provided {
                            e.description = description;
                        }
                        e.updated_at = timestamp;
                        e.updated_by = updated_by;
                    }
                    None => self.contexts.push(entry(
                        &context_key,
                        &value,
                        description.as_deref(),
                        &updated_by,
                        &timestamp,
                    )),
                }
                Event::Done
            }
            Action::DeleteContexts { context_keys } => {
                let (gone, kept): (Vec<ContextRow>, Vec<ContextRow>) = self
                    .contexts
                    .drain(..)
                    .partition(|e| context_keys.contains(&e.context_key));
                self.contexts = kept;
                Event::Contexts(gone)
            }
            Action::PurgeSource { context_key } => {
                self.chunks.retain(|k| *k != context_key);
                Event::Done
            }
            Action::DeliverWakes { .. } => Event::Done,
            Action::Clock => Event::Time(stamp("2026-06-01T12:34:56Z").unwrap()),
            Action::CreateDir { path } => {
                self.dirs.push(path);
                Event::Done
            }
            Action::WriteFile { path, text } => {
                self.files.push((path, text));
                Event::Done
            }
            other => panic!("no such action here: {other:?}"),
        }
    }

    fn run_at(&mut self, tool: ToolName, caller: Option<Principal>, args: Json, now: &str) -> ToolResult {
        self.caller = caller.as_ref().map_or(String::new(), |p| p.sender_label.clone());
        let call = Call {
            principal: caller,
            arguments: args,
            now: now.to_string(),
            instant: stamp(now),
            project_dir: "/tmp/project".to_string(),
            terminal_agent_statuses: vec!["terminated".to_string(), "tombstone".to_string()],
            terminal_task_statuses: vec!["completed".to_string()],
        };
        let mut history: Vec<Event> = Vec::new();
        loop {
            match next(tool, &call, &history).unwrap() {
                Action::Finish(result) => return result,
                action => {
                    let event = self.perform(action);
                    history.push(event);
                }
            }
        }
    }

    fn run(&mut self, tool: ToolName, caller: Principal, args: &str) -> ToolResult {
        self.run_at(tool, Some(caller), read_json(args).unwrap(), NOW)
    }
}

const NOW: &str = "2026-06-01T12:34:56Z";
const EARLY: &str = "2026-06-01T00:00:00Z";

fn ok(result: ToolResult) -> (Value, String) {
    match result {
        ToolResult::Success { data, message } => {
            (data.map_or(Value::Null, |d| d.to_value()), message.unwrap_or_default())
        }
        other => panic!("expected success, got {other:?}"),
    }
}

fn bearer(agent_id: &str, caps: Vec<Capability>) -> Principal {
    Principal {
        kind: PrincipalKind::AgentBearer,
        user_id: None,
        agent_id: Some(agent_id.to_string()),
        project_name: None,
        agent_role: Some(AgentRole::Worker),
        capabilities: Capabilities::Listed(caps),
        actor_label: agent_id.to_string(),
        sender_label: agent_id.to_string(),
        operator_tier: false,
        confirmed_operator_tier: false,
    }
}

fn operator(caps: Capabilities) -> Principal {
    Principal {
        kind: PrincipalKind::ForwardingHeader,
        user_id: Some("op-1".to_string()),
        agent_id: None,
        project_name: Some("demo".to_string()),
        agent_role: None,
        capabilities: caps,
        actor_label: "op-1".to_string(),
        sender_label: "op-1".to_string(),
        operator_tier: true,
        confirmed_operator_tier: false,
    }
}

fn worker() -> Principal {
    bearer("alice", vec![Capability::MemoriesView])
}

fn bob() -> Principal {
    bearer("bob", vec![Capability::MemoriesView])
}

fn admin_agent() -> Principal {
    let mut p = bearer("admin", vec![Capability::MemoriesView, Capability::SystemConfigWrite]);
    p.operator_tier = true;
    p
}

fn write_operator() -> Principal {
    let mut p = operator(Capabilities::Listed(vec![
        Capability::MemoriesCreate,
        Capability::MemoriesUpdate,
        Capability::MemoriesDelete,
    ]));
    p.operator_tier = false;
    p
}

fn viewer_operator() -> Principal {
    let mut p = operator(Capabilities::Listed(vec![Capability::MemoriesView]));
    p.operator_tier = false;
    p
}

fn reader(agent_id: &str) -> Principal {
    bearer(agent_id, vec![Capability::MessagesView])
}

fn filer(agent_id: &str) -> Principal {
    bearer(agent_id, vec![Capability::FilesUse])
}

fn denied(tool: ToolName, p: &Principal) -> bool {
    !admits(tool, Some(p))
}

// Files.

#[test]
fn check_reports_a_free_file_as_not_in_use() {
    let mut db = Db::with_agents(&["alice", "bob"]);
    let (data, _) =
        ok(db.run(ToolName::CheckFileStatus, filer("alice"), "{\"filepath\": \"main.rs\"}"));
    assert_eq!(data["in_use"], false);
    assert_eq!(data["filepath"], "/home/alice/repo/main.rs");
}

fn set_status(db: &mut Db, agent_id: &str, path: &str, status: &str) -> ToolResult {
    let args = format!("{{\"filepath\": \"{path}\", \"status\": \"{status}\"}}");
    db.run(ToolName::UpdateFileStatus, filer(agent_id), &args)
}

#[test]
fn claim_then_check_reports_in_use_by_self() {
    let mut db = Db::with_agents(&["alice", "bob"]);
    ok(set_status(&mut db, "alice", "main.rs", "editing"));
    let (data, message) =
        ok(db.run(ToolName::CheckFileStatus, filer("alice"), "{\"filepath\": \"main.rs\"}"));
    assert_eq!(data["in_use"], true);
    assert_eq!(data["agent_id"], "alice");
    assert!(message.contains("YOU"));
}

#[test]
fn a_foreign_holder_claim_attempt_is_a_conflict_not_a_permission_denial() {
    let mut db = Db::with_agents(&["alice", "bob"]);
    ok(set_status(&mut db, "alice", "/shared/main.rs", "editing"));
    let result = set_status(&mut db, "bob", "/shared/main.rs", "reading");
    assert!(matches!(result, ToolResult::Conflict { .. }));
}

#[test]
fn a_foreign_holder_release_attempt_is_also_a_conflict_not_a_silent_steal() {
    let mut db = Db::with_agents(&["alice", "bob"]);
    ok(set_status(&mut db, "alice", "/shared/main.rs", "editing"));
    let result = set_status(&mut db, "bob", "/shared/main.rs", "released");
    assert!(matches!(result, ToolResult::Conflict { .. }));
    assert!(db.claim("/shared/main.rs").is_some());
}

#[test]
fn the_holder_can_release_their_own_claim() {
    let mut db = Db::with_agents(&["alice", "bob"]);
    ok(set_status(&mut db, "alice", "main.rs", "editing"));
    ok(set_status(&mut db, "alice", "main.rs", "released"));
    assert!(db.claim("/home/alice/repo/main.rs").is_none());
}

#[test]
fn releasing_an_untracked_path_is_an_idempotent_ok_not_an_error() {
    let mut db = Db::with_agents(&["alice", "bob"]);
    let (data, _) = ok(set_status(&mut db, "alice", "never-claimed.rs", "released"));
    assert_eq!(data["in_use"], false);
}

#[test]
fn an_invalid_status_value_is_rejected() {
    let mut db = Db::with_agents(&["alice", "bob"]);
    let result = set_status(&mut db, "alice", "main.rs", "sleeping");
    assert!(matches!(result, ToolResult::Invalid { .. }));
}

#[test]
fn a_missing_filepath_is_invalid_on_both_tools() {
    let mut db = Db::with_agents(&["alice", "bob"]);
    let r1 = db.run(ToolName::CheckFileStatus, filer("alice"), "{}");
    assert!(matches!(r1, ToolResult::Invalid { .. }));
    let r2 = db.run(ToolName::UpdateFileStatus, filer("alice"), "{\"status\": \"editing\"}");
    assert!(matches!(r2, ToolResult::Invalid { .. }));
    assert!(db.claims.is_empty());
}

#[test]
fn view_reports_no_metadata_recorded_yet() {
    let mut db = Db::with_agents(&["alice"]);
    let (data, _) =
        ok(db.run(ToolName::ViewFileMetadata, filer("alice"), "{\"filepath\": \"main.rs\"}"));
    assert_eq!(data["metadata"], Value::Null);
}

#[test]
fn an_operator_updates_metadata_and_it_is_readable_back() {
    let mut db = Db::with_agents(&["alice"]);
    let op = operator(Capabilities::Listed(vec![Capability::SystemConfigWrite]));
    let args = "{\"filepath\": \"/tmp/nonexistent-dir-xyz/main.rs\", \
                \"metadata\": {\"purpose\": \"entry point\"}}";
    let (data, _) = ok(db.run(ToolName::UpdateFileMetadata, op, args));
    assert_eq!(data["updated_by"], "op-1");
    let normalized = data["filepath"].as_str().unwrap();
    let args = format!("{{\"filepath\": \"{normalized}\"}}");
    let (data, _) = ok(db.run(ToolName::ViewFileMetadata, filer("alice"), &args));
    assert_eq!(data["metadata"]["purpose"], "entry point");
}

#[test]
fn a_malformed_path_is_invalid_not_a_500() {
    let mut db = Db::with_agents(&["alice"]);
    let result =
        db.run(ToolName::ViewFileMetadata, filer("alice"), "{\"filepath\": \"bad\\u0000path.rs\"}");
    assert!(matches!(result, ToolResult::Invalid { .. }));
}

// Messages.

#[test]
fn fetch_events_since_response_uses_the_cursor_key_not_next_cursor() {
    let mut db = Db::with_agents(&["leo"]);
    db.messages.push(message("m1", "alice", "leo", "hi", "text", NOW));
    let (data, _) = ok(db.run(ToolName::FetchEventsSince, bearer("leo", vec![]), "{}"));
    assert!(data.get("cursor").is_some());
    assert!(data.get("next_cursor").is_none());
    assert_eq!(data["events"].as_array().unwrap().len(), 1);
    assert_eq!(db.cursor.as_deref(), Some(NOW));
}

#[test]
fn fetch_events_since_rejects_a_non_string_cursor() {
    let mut db = Db::with_agents(&["mia"]);
    let result = db.run(ToolName::FetchEventsSince, bearer("mia", vec![]), "{\"cursor\": 12345}");
    match result {
        ToolResult::Invalid { field, .. } => assert_eq!(field.as_deref(), Some("cursor")),
        other => panic!("{other:?}"),
    }
}

#[test]
fn fetch_events_since_never_blocks_and_never_registers_a_waiter() {
    let mut db = Db::with_agents(&["nora"]);
    ok(db.run(ToolName::FetchEventsSince, bearer("nora", vec![]), "{}"));
    assert!(db.woken.is_empty() && db.cursor.is_none());
}

#[test]
fn dispatch_denies_wait_for_events_for_a_non_agent_principal() {
    let mut caller = bearer("alice", vec![]);
    caller.agent_id = None;
    assert!(denied(ToolName::WaitForEvents, &caller));
}

#[test]
fn get_agent_messages_requires_sent_or_received() {
    let mut db = Db::with_agents(&["bob"]);
    let args = "{\"include_sent\": false, \"include_received\": false}";
    let result = db.run(ToolName::GetAgentMessages, reader("bob"), args);
    assert!(matches!(result, ToolResult::Invalid { .. }));
}

#[test]
fn get_agent_messages_returns_no_messages_found_when_empty() {
    let mut db = Db::with_agents(&["bob"]);
    let (data, text) = ok(db.run(ToolName::GetAgentMessages, reader("bob"), "{}"));
    assert_eq!(text, "No messages found");
    assert_eq!(data["count"], 0);
}

fn one_to_bob() -> Db {
    let mut db = Db::with_agents(&["alice", "bob"]);
    db.messages.push(message("m1", "alice", "bob", "hi bob", "text", "2026-01-01T00:00:00Z"));
    db
}

#[test]
fn get_agent_messages_returns_and_marks_received_messages_read() {
    let mut db = one_to_bob();
    let (data, text) = ok(db.run(ToolName::GetAgentMessages, reader("bob"), "{}"));
    assert_eq!(data["count"], 1);
    assert_eq!(data["messages"][0]["message_id"], "m1");
    assert!(text.contains("hi bob"));
    assert!(db.stored("m1").read);
}

#[test]
fn get_agent_messages_mark_as_read_false_leaves_messages_unread() {
    let mut db = one_to_bob();
    ok(db.run(ToolName::GetAgentMessages, reader("bob"), "{\"mark_as_read\": false}"));
    assert!(!db.stored("m1").read);
}

#[test]
fn get_agent_messages_type_filter_does_not_mark_other_types_read() {
    let mut db = Db::with_agents(&["alice", "bob"]);
    let at = "2026-01-01T00:00:00Z";
    db.messages.push(message("text-1", "alice", "bob", "hi", "text", at));
    db.messages.push(message("ctrl-1", "alice", "bob", "STOP", "stop_command", at));
    let (data, _) =
        ok(db.run(ToolName::GetAgentMessages, reader("bob"), "{\"message_type\": \"text\"}"));
    assert_eq!(data["count"], 1);
    assert!(db.stored("text-1").read);
    assert!(!db.stored("ctrl-1").read);
}

#[test]
fn get_agent_messages_limit_does_not_mark_beyond_the_page_read() {
    let mut db = Db::with_agents(&["alice", "bob"]);
    for (id, at) in [
        ("m0", "2026-01-01T00:00:02Z"),
        ("m1", "2026-01-01T00:00:01Z"),
        ("m2", "2026-01-01T00:00:00Z"),
    ] {
        db.messages.push(message(id, "alice", "bob", id, "text", at));
    }
    let (data, _) = ok(db.run(ToolName::GetAgentMessages, reader("bob"), "{\"limit\": 1}"));
    assert_eq!(data["count"], 1);
    assert_eq!(db.messages.iter().filter(|m| m.read).count(), 1);
    assert!(db.stored("m0").read);
}

#[test]
fn get_agent_messages_never_marks_a_sent_message_read() {
    let mut db = Db::with_agents(&["alice", "bob"]);
    let at = "2026-01-01T00:00:00Z";
    db.messages.push(message("sent-1", "alice", "bob", "outbound", "text", at));
    let args = "{\"include_sent\": true, \"include_received\": true}";
    let (data, _) = ok(db.run(ToolName::GetAgentMessages, reader("alice"), args));
    assert_eq!(data["count"], 1);
    assert!(!db.stored("sent-1").read);
}

#[test]
fn get_agent_messages_denies_a_worker_with_no_messages_view_capability() {
    assert!(denied(ToolName::GetAgentMessages, &bearer("bob", vec![])));
}

fn send(db: &mut Db, from: &str, args: &str) -> ToolResult {
    db.run(ToolName::SendAgentMessage, bearer(from, vec![]), args)
}

fn bad_field(result: ToolResult) -> Option<String> {
    match result {
        ToolResult::Invalid { field, .. } => field,
        other => panic!("{other:?}"),
    }
}

#[test]
fn send_agent_message_requires_recipient_id() {
    let mut db = Db::with_agents(&["alice"]);
    let result = send(&mut db, "alice", "{\"message\": \"hi\"}");
    assert_eq!(bad_field(result).as_deref(), Some("recipient_id"));
}

#[test]
fn send_agent_message_requires_message() {
    let mut db = Db::with_agents(&["alice"]);
    let result = send(&mut db, "alice", "{\"recipient_id\": \"admin\"}");
    assert_eq!(bad_field(result).as_deref(), Some("message"));
}

const HELLO: &str = "{\"recipient_id\": \"bob\", \"message\": \"hello bob\"}";

#[test]
fn send_agent_message_succeeds_and_wakes_the_recipients_waiter() {
    let mut db = Db::with_agents(&["alice", "bob"]);
    let (data, text) = ok(send(&mut db, "alice", HELLO));
    assert!(text.contains("Message sent to bob"));
    assert_eq!(data["recipient_id"], "bob");
    assert_eq!(db.woken, vec!["bob"]);
    assert_eq!(db.messages.len(), 1);
    assert_eq!(db.actions, vec!["send_message"]);
}

#[test]
fn send_agent_message_denied_by_permission_check_returns_the_denial_verbatim() {
    let mut db = Db::with_agents(&["alice", "bob"]);
    db.switched_off.push("config_allow_worker_to_worker".to_string());
    let result = send(&mut db, "alice", HELLO);
    assert_eq!(
        result,
        ToolResult::PermissionDenied { reason: "workers may not message workers".to_string() }
    );
    assert!(db.woken.is_empty() && db.messages.is_empty() && db.actions.is_empty());
}

#[test]
fn send_agent_message_unknown_recipient_is_not_found() {
    let result =
        send(&mut Db::default(), "admin", "{\"recipient_id\": \"ghost\", \"message\": \"hi\"}");
    match result {
        ToolResult::NotFound { resource, identifier, .. } => {
            assert_eq!((resource.as_str(), identifier.as_str()), ("agent", "ghost"));
        }
        other => panic!("{other:?}"),
    }
}

#[test]
fn send_agent_message_nonexistent_parent_is_not_found_and_stores_nothing() {
    let mut db = Db::with_agents(&["alice"]);
    let args = "{\"recipient_id\": \"alice\", \"message\": \"orphan-parent body\", \
                \"parent_message_id\": \"msg_does_not_exist\"}";
    match send(&mut db, "admin", args) {
        ToolResult::NotFound { resource, identifier, .. } => {
            assert_eq!(resource, "parent message");
            assert_eq!(identifier, "msg_does_not_exist");
        }
        other => panic!("{other:?}"),
    }
    assert!(db.messages.is_empty() && db.actions.is_empty());
}

#[test]
fn send_agent_message_reply_nudge_fires_only_on_a_re_subject_that_is_not_already_a_reply() {
    let mut db = Db::with_agents(&["alice", "bob"]);
    let args = "{\"recipient_id\": \"bob\", \"message\": \"following up\", \
                \"subject\": \"RE: last week\"}";
    let (data, text) = ok(send(&mut db, "alice", args));
    assert!(text.contains("parent_message_id"));
    assert!(data["reply_hint"].is_string());
}

#[test]
fn send_agent_message_a_reply_never_gets_the_reply_nudge_even_with_an_re_subject() {
    let mut db = Db::with_agents(&["alice", "bob"]);
    let (root, _) =
        ok(send(&mut db, "alice", "{\"recipient_id\": \"bob\", \"message\": \"root\"}"));
    let root_id = root["message_id"].as_str().unwrap();
    let args = format!(
        "{{\"recipient_id\": \"bob\", \"message\": \"a reply\", \
          \"subject\": \"RE: doesn't matter, replies force subject null\", \
          \"parent_message_id\": \"{root_id}\"}}"
    );
    let (data, _) = ok(send(&mut db, "alice", &args));
    assert!(data.get("reply_hint").is_none());
    assert_eq!(data["subject"], Value::Null);
}

#[test]
fn broadcast_admin_message_denies_a_plain_worker() {
    assert!(denied(ToolName::BroadcastAdminMessage, &bearer("alice", vec![])));
}

fn broadcast(db: &mut Db, args: &str) -> ToolResult {
    db.run(ToolName::BroadcastAdminMessage, operator(Capabilities::Sysadmin), args)
}

#[test]
fn broadcast_admin_message_requires_message() {
    let result = broadcast(&mut Db::default(), "{}");
    assert_eq!(bad_field(result).as_deref(), Some("message"));
}

#[test]
fn broadcast_admin_message_with_no_active_agents_reports_zero_sent() {
    let (data, text) = ok(broadcast(&mut Db::default(), "{\"message\": \"hi everyone\"}"));
    assert_eq!(text, "No active agents to broadcast to");
    assert_eq!(data["sent_count"], 0);
}

#[test]
fn broadcast_admin_message_sends_to_every_active_agent_except_admin_and_wakes_each() {
    let mut db = Db::with_agents(&["alice", "bob", "admin"]);
    let (data, text) = ok(broadcast(&mut db, "{\"message\": \"system maintenance tonight\"}"));
    assert_eq!(data["sent_count"], 2);
    assert_eq!(data["failed_count"], 0);
    assert_eq!(data["recipients"], Value::from(vec!["alice", "bob"]));
    assert!(text.contains("Broadcast sent to 2 agents"));
    assert_eq!(db.woken, vec!["alice", "bob"]);
    assert_eq!(db.actions, vec!["send_message", "send_message"]);
    assert_eq!(db.messages.len(), 2);
}

// The project context.

fn view(db: &mut Db, args: &str) -> (Value, String) {
    ok(db.run_at(ToolName::ViewProjectContext, Some(worker()), read_json(args).unwrap(), EARLY))
}

#[test]
fn an_empty_context_is_a_benign_ok_not_an_error() {
    let (data, text) =
        ok(Db::default().run(ToolName::ValidateContextConsistency, worker(), "null"));
    assert_eq!(data["total_entries"], 0);
    assert_eq!(text, "No project context entries found.");
}

#[test]
fn a_clean_populated_context_reports_no_issues() {
    let mut db = Db::default();
    db.contexts.push(entry("a.key", "\"value\"", Some("a description"), "alice", EARLY));
    let (data, text) = ok(db.run(ToolName::ValidateContextConsistency, worker(), "null"));
    assert_eq!(data["total_entries"], 1);
    assert!(text.contains("No issues found"));
}

#[test]
fn an_unauthenticated_caller_is_denied() {
    assert!(!admits(ToolName::ValidateContextConsistency, None));
    let result =
        Db::default().run_at(ToolName::ValidateContextConsistency, None, Json::Null, EARLY);
    assert!(matches!(result, ToolResult::Success { .. }));
}

fn two_entries() -> Db {
    let mut db = Db::default();
    db.seed("a", "\"one\"", "2026-06-01T00:00:00Z");
    db.seed("b", "\"two\"", "2026-06-01T00:01:00Z");
    db
}

#[test]
fn view_returns_all_entries_by_default() {
    assert_eq!(view(&mut two_entries(), "{}").0["count"], 2);
}

#[test]
fn view_filters_by_exact_context_key() {
    let (data, _) = view(&mut two_entries(), "{\"context_key\": \"a\"}");
    assert_eq!(data["count"], 1);
    assert_eq!(data["entries"][0]["key"], "a");
}

#[test]
fn view_search_query_matches_key_description_and_value() {
    let mut db = Db::default();
    db.seed("matching-key", "\"irrelevant\"", EARLY);
    db.seed("other", "\"has matching text\"", EARLY);
    db.seed("unrelated", "\"nothing\"", EARLY);
    assert_eq!(view(&mut db, "{\"search_query\": \"matching\"}").0["count"], 2);
}

#[test]
fn view_show_stale_entries_filters_to_only_stale_rows() {
    let mut db = Db::default();
    db.seed("fresh", "\"v\"", "2026-06-01T00:00:00Z");
    db.seed("stale", "\"v\"", "2026-01-01T00:00:00Z");
    let (data, _) = view(&mut db, "{\"show_stale_entries\": true}");
    assert_eq!(data["count"], 1);
    assert_eq!(data["entries"][0]["key"], "stale");
}

#[test]
fn view_sorts_by_key_ascending() {
    let mut db = Db::default();
    db.seed("zebra", "\"v\"", "2026-06-01T00:00:00Z");
    db.seed("alpha", "\"v\"", "2026-06-01T00:01:00Z");
    let (data, _) = view(&mut db, "{\"sort_by\": \"key\"}");
    assert_eq!(data["entries"][0]["key"], "alpha");
    assert_eq!(data["entries"][1]["key"], "zebra");
}

#[test]
fn view_last_updated_is_accepted_as_a_deprecated_alias_for_updated_at() {
    let mut db = Db::default();
    db.seed("older", "\"v\"", "2026-06-01T00:00:00Z");
    db.seed("newer", "\"v\"", "2026-06-01T00:05:00Z");
    let (data, _) = view(&mut db, "{\"sort_by\": \"last_updated\"}");
    assert_eq!(data["filters"]["sort_by"], "updated_at");
    assert_eq!(data["entries"][0]["key"], "newer");
}

#[test]
fn view_max_results_is_clamped_into_range() {
    let mut db = Db::default();
    for i in 0..3 {
        db.seed(&format!("k{i}"), "\"v\"", &format!("2026-06-01T00:0{i}:00Z"));
    }
    assert_eq!(view(&mut db, "{\"max_results\": 1}").0["count"], 1);
}

#[test]
fn view_flags_invalid_json_and_renders_it_unquoted_in_the_preview() {
    let mut db = Db::default();
    db.seed("raw-string", "not valid json", EARLY);
    let (data, text) = view(&mut db, "{}");
    assert_eq!(data["entries"][0]["_metadata"]["json_valid"], false);
    assert_eq!(data["entries"][0]["value"], "not valid json");
    assert!(text.contains("Value: not valid json"));
}

#[test]
fn view_health_analysis_is_included_when_requested() {
    let mut db = Db::default();
    db.seed("a", "\"ok\"", EARLY);
    assert!(view(&mut db, "{\"show_health_analysis\": true}").1.contains("Context Health"));
}

#[test]
fn view_health_analysis_title_cases_a_multi_word_status_correctly() {
    let mut db = Db::default();
    db.seed("healthy", "\"ok\"", EARLY);
    db.seed("bad", "not valid json", "2026-01-01T00:00:00Z");
    let (_, text) = view(&mut db, "{\"show_health_analysis\": true}");
    assert!(text.contains("Needs_Attention"), "{text}");
    assert!(!text.contains("Needs_attention"), "{text}");
}

fn create(db: &mut Db, caller: Principal, args: &str) -> ToolResult {
    db.run(ToolName::CreateProjectContext, caller, args)
}

#[test]
fn a_worker_can_create_a_new_key() {
    let mut db = Db::default();
    let args = "{\"context_key\": \"a.new.key\", \"context_value\": \"hello\"}";
    let (data, _) = ok(create(&mut db, worker(), args));
    assert_eq!(data["context_key"], "a.new.key");
    assert_eq!(db.get("a.new.key").unwrap().value, "\"hello\"");
}

#[test]
fn creating_an_existing_key_is_a_conflict_not_an_overwrite() {
    let mut db = Db::default();
    db.seed("dup", "\"v1\"", EARLY);
    let args = "{\"context_key\": \"dup\", \"context_value\": \"v2\"}";
    assert!(matches!(create(&mut db, worker(), args), ToolResult::Conflict { .. }));
    assert_eq!(db.get("dup").unwrap().value, "\"v1\"");
}

#[test]
fn an_invalid_charset_key_is_invalid() {
    let args = "{\"context_key\": \"has spaces\", \"context_value\": \"v\"}";
    let result = create(&mut Db::default(), worker(), args);
    assert!(matches!(result, ToolResult::Invalid { .. }));
}

#[test]
fn a_config_namespaced_key_is_rejected_for_everyone_including_admin() {
    let args = "{\"context_key\": \"config_x\", \"context_value\": \"v\"}";
    let result = create(&mut Db::default(), write_operator(), args);
    assert!(matches!(result, ToolResult::Invalid { .. }));
}

#[test]
fn a_viewer_tier_operator_cannot_create_a_key() {
    assert!(denied(ToolName::CreateProjectContext, &viewer_operator()));
}

#[test]
fn a_wake_eligible_key_is_unreachable_here_because_config_rejection_wins_first() {
    let mut db = Db::default();
    let args = "{\"context_key\": \"config_auto_event_loop_global\", \"context_value\": true}";
    assert!(matches!(create(&mut db, worker(), args), ToolResult::Invalid { .. }));
    assert!(db.woken.is_empty() && db.contexts.is_empty());
}

fn change(db: &mut Db, caller: Principal, args: &str) -> ToolResult {
    db.run(ToolName::UpdateProjectContext, caller, args)
}

#[test]
fn single_update_creates_a_new_key_when_it_does_not_exist() {
    let args = "{\"context_key\": \"fresh.key\", \"context_value\": \"v1\"}";
    let (data, _) = ok(change(&mut Db::default(), worker(), args));
    assert_eq!(data["context_key"], "fresh.key");
}

#[test]
fn single_update_without_description_preserves_the_existing_one() {
    let mut db = Db::default();
    db.contexts.push(entry("k", "\"v1\"", Some("original description"), "alice", EARLY));
    ok(change(&mut db, worker(), "{\"context_key\": \"k\", \"context_value\": \"v2\"}"));
    assert_eq!(db.get("k").unwrap().value, "\"v2\"");
    assert_eq!(db.get("k").unwrap().description.as_deref(), Some("original description"));
}

#[test]
fn single_update_denies_a_foreign_key_for_a_non_admin() {
    let mut db = Db::default();
    db.seed("k", "\"v1\"", EARLY);
    let result = change(&mut db, bob(), "{\"context_key\": \"k\", \"context_value\": \"v2\"}");
    assert!(matches!(result, ToolResult::PermissionDenied { .. }));
    assert_eq!(db.get("k").unwrap().value, "\"v1\"");
}

#[test]
fn update_tools_bulk_arm_dispatches_on_updates_presence_even_though_schema_omits_it() {
    let mut db = Db::default();
    let args = "{\"updates\": [{\"context_key\": \"a\", \"context_value\": \"1\"}, \
                {\"context_key\": \"b\", \"context_value\": \"2\"}]}";
    let (data, _) = ok(change(&mut db, worker(), args));
    assert_eq!(data["updates_attempted"], 2);
}

fn summary(data: &Value) -> Vec<String> {
    data["summary_lines"]
        .as_array()
        .unwrap()
        .iter()
        .map(|l| l.as_str().unwrap().to_string())
        .collect()
}

#[test]
fn update_tools_bulk_arm_tolerates_a_malformed_item_matching_pythons_lax_validation() {
    let mut db = Db::default();
    let args = "{\"updates\": [{\"context_key\": \"good\"}, \
                {\"context_key\": \"also_good\", \"context_value\": \"1\"}]}";
    let (data, _) = ok(change(&mut db, worker(), args));
    assert_eq!(data["updates_attempted"], 2);
    let lines = summary(&data);
    assert!(lines.iter().any(|l| l.contains("1 successful")));
    assert!(lines.iter().any(|l| l.contains("1 failed")));
    assert!(db.get("good").is_none());
    assert!(db.get("also_good").is_some());
}

#[test]
fn an_item_of_a_batch_without_a_key_fails_alone_and_writes_nothing() {
    for item in ["{\"context_value\": \"1\"}", "{\"context_key\": 7, \"context_value\": \"1\"}"] {
        let mut db = Db::default();
        db.contexts.push(entry("unknown", "\"theirs\"", Some("d"), "bob", EARLY));
        let args = format!(
            "{{\"updates\": [{item}, {{\"context_key\": \"good\", \"context_value\": \"2\"}}]}}"
        );
        let (data, _) = ok(change(&mut db, worker(), &args));
        assert_eq!(data["updates_attempted"], 2);
        let lines = summary(&data);
        assert!(lines.iter().any(|l| l.contains("1 successful")), "{lines:?}");
        assert!(lines.iter().any(|l| l.contains("1 failed")), "{lines:?}");
        assert!(lines.iter().any(|l| l.contains("unknown")), "{lines:?}");
        assert_eq!(db.get("unknown").unwrap().value, "\"theirs\"");
        assert_eq!(db.get("good").unwrap().value, "\"2\"");
        assert_eq!(db.contexts.len(), 2);
    }
}

#[test]
fn bulk_update_authorizes_every_key_up_front_aborting_the_whole_batch_on_denial() {
    let mut db = Db::default();
    db.contexts.push(entry("owned-by-bob", "\"v\"", Some("d"), "bob", EARLY));
    let args = "{\"updates\": [{\"context_key\": \"alice-owned-new\", \"context_value\": \"1\"}, \
                {\"context_key\": \"owned-by-bob\", \"context_value\": \"2\"}]}";
    assert!(matches!(change(&mut db, worker(), args), ToolResult::PermissionDenied { .. }));
    assert!(db.get("alice-owned-new").is_none());
    assert_eq!(db.get("owned-by-bob").unwrap().value, "\"v\"");
}

#[test]
fn bulk_update_delivers_wake_all_for_flag_recheck_only_once_per_batch() {
    let mut db = Db::default();
    let args = "{\"updates\": [\
                {\"context_key\": \"config_auto_event_loop_global\", \"context_value\": true}]}";
    assert!(matches!(change(&mut db, worker(), args), ToolResult::Invalid { .. }));
    assert!(db.woken.is_empty());
}

fn bulk(db: &mut Db, args: &str) -> ToolResult {
    db.run(ToolName::BulkUpdateProjectContext, worker(), args)
}

#[test]
fn bulk_tools_own_strict_validation_rejects_the_whole_batch_upfront() {
    let mut db = Db::default();
    let args = "{\"updates\": [{\"context_key\": \"good\", \"context_value\": \"1\"}, \
                {\"context_key\": \"missing_value\"}]}";
    assert!(matches!(bulk(&mut db, args), ToolResult::Invalid { .. }));
    assert!(db.get("good").is_none());
}

#[test]
fn bulk_tool_happy_path_updates_every_item() {
    let mut db = Db::default();
    let args = "{\"updates\": [{\"context_key\": \"a\", \"context_value\": \"1\"}, \
                {\"context_key\": \"b\", \"context_value\": \"2\", \"description\": \"desc-b\"}]}";
    assert_eq!(ok(bulk(&mut db, args)).0["updates_attempted"], 2);
    assert_eq!(db.get("a").unwrap().value, "\"1\"");
    assert_eq!(db.get("b").unwrap().description.as_deref(), Some("desc-b"));
}

#[test]
fn bulk_tool_an_explicit_null_description_clears_an_existing_one() {
    let mut db = Db::default();
    db.contexts.push(entry("k", "\"v1\"", Some("original"), "alice", EARLY));
    let args = "{\"updates\": [\
                {\"context_key\": \"k\", \"context_value\": \"v2\", \"description\": null}]}";
    ok(bulk(&mut db, args));
    assert_eq!(db.get("k").unwrap().description, None);
}

#[test]
fn bulk_tool_value_only_update_preserves_existing_description() {
    let mut db = Db::default();
    let old = "original bulk description";
    db.contexts.push(entry("r22_bulk", "\"v1\"", Some(old), "alice", EARLY));
    ok(bulk(
        &mut db,
        "{\"updates\": [{\"context_key\": \"r22_bulk\", \"context_value\": \"v2\"}]}",
    ));
    assert_eq!(db.get("r22_bulk").unwrap().value, "\"v2\"");
    assert_eq!(db.get("r22_bulk").unwrap().description.as_deref(), Some(old));
}

#[test]
fn bulk_tool_create_without_description_gets_placeholder_default() {
    let mut db = Db::default();
    ok(bulk(
        &mut db,
        "{\"updates\": [{\"context_key\": \"r22_bulk_create\", \"context_value\": \"v1\"}]}",
    ));
    let row = db.get("r22_bulk_create").unwrap();
    assert_eq!(row.description.as_deref(), Some("Bulk update operation 1"));
}

#[test]
fn bulk_tool_applies_every_authorized_item_in_the_batch() {
    let mut db = Db::default();
    let args = "{\"updates\": [{\"context_key\": \"x\", \"context_value\": 1}, \
                {\"context_key\": \"y\", \"context_value\": {\"nested\": true}}]}";
    ok(bulk(&mut db, args));
    assert_eq!(db.get("x").unwrap().value, "1");
    assert_eq!(db.get("y").unwrap().value, "{\"nested\":true}");
}

#[test]
fn bulk_tool_empty_updates_array_is_invalid() {
    assert!(matches!(bulk(&mut Db::default(), "{\"updates\": []}"), ToolResult::Invalid { .. }));
}

#[test]
fn bulk_tool_denies_a_viewer_tier_operator() {
    assert!(denied(ToolName::BulkUpdateProjectContext, &viewer_operator()));
}

fn delete(db: &mut Db, caller: Principal, args: &str) -> ToolResult {
    db.run(ToolName::DeleteProjectContext, caller, args)
}

#[test]
fn deletes_a_single_owned_key() {
    let mut db = Db::default();
    db.seed("k", "\"v\"", EARLY);
    let (data, _) = ok(delete(&mut db, worker(), "{\"context_key\": \"k\"}"));
    assert_eq!(data["deleted_count"], 1);
    assert!(db.get("k").is_none());
}

#[test]
fn deletes_multiple_keys_via_context_keys_array() {
    let mut db = two_entries();
    let (data, _) = ok(delete(&mut db, worker(), "{\"context_keys\": [\"a\", \"b\"]}"));
    assert_eq!(data["deleted_count"], 2);
}

#[test]
fn no_keys_specified_is_invalid() {
    let result = delete(&mut Db::default(), worker(), "{}");
    assert!(matches!(result, ToolResult::Invalid { .. }));
}

#[test]
fn deleting_a_nonexistent_key_is_not_found() {
    let result = delete(&mut Db::default(), worker(), "{\"context_key\": \"ghost\"}");
    assert!(matches!(result, ToolResult::NotFound { .. }));
}

#[test]
fn a_config_namespaced_delete_is_rejected_before_the_critical_key_guard() {
    let args = "{\"context_key\": \"config_server_startup\"}";
    let result = delete(&mut Db::default(), write_operator(), args);
    assert_eq!(bad_field(result).as_deref(), Some("context_key"));
}

#[test]
fn a_critical_key_without_force_delete_is_refused() {
    let mut db = Db::default();
    db.seed("server_startup", "\"v\"", EARLY);
    let result = delete(&mut db, admin_agent(), "{\"context_key\": \"server_startup\"}");
    assert!(matches!(result, ToolResult::Invalid { .. }));
    assert!(db.get("server_startup").is_some());
}

#[test]
fn a_critical_key_with_force_delete_succeeds() {
    let mut db = Db::default();
    db.seed("server_startup", "\"v\"", EARLY);
    let args = "{\"context_key\": \"server_startup\", \"force_delete\": true}";
    let (data, text) = ok(delete(&mut db, admin_agent(), args));
    assert_eq!(data["critical_keys_deleted"], Value::from(vec!["server_startup"]));
    assert!(text.contains("CRITICAL"));
}

#[test]
fn a_non_owner_worker_is_denied_before_any_deletion() {
    let mut db = Db::default();
    db.seed("k", "\"v\"", EARLY);
    let result = delete(&mut db, bob(), "{\"context_key\": \"k\"}");
    assert!(matches!(result, ToolResult::PermissionDenied { .. }));
    assert!(db.get("k").is_some());
}

#[test]
fn a_multi_key_delete_aborts_entirely_if_any_key_fails_authorization() {
    let mut db = Db::default();
    db.seed("owned-by-alice", "\"v\"", EARLY);
    db.contexts.push(entry("owned-by-bob", "\"v\"", Some("d"), "bob", EARLY));
    let args = "{\"context_keys\": [\"owned-by-alice\", \"owned-by-bob\"]}";
    assert!(matches!(delete(&mut db, worker(), args), ToolResult::PermissionDenied { .. }));
    assert!(db.get("owned-by-alice").is_some());
}

#[test]
fn delete_purges_the_rag_chunk_for_the_deleted_key() {
    let mut db = Db::default();
    db.seed("k", "\"v\"", EARLY);
    db.chunks = vec!["k".to_string(), "other".to_string()];
    ok(delete(&mut db, worker(), "{\"context_key\": \"k\"}"));
    assert_eq!(db.chunks, vec!["other"]);
}

fn backup(db: &mut Db, args: &str) -> ToolResult {
    db.run(ToolName::BackupProjectContext, admin_agent(), args)
}

#[test]
fn backup_writes_a_json_file_with_the_auto_generated_name() {
    let mut db = Db::default();
    db.seed("a", "\"one\"", EARLY);
    let (data, text) = ok(backup(&mut db, "{}"));
    assert_eq!(data["backup_name"], "context_backup_20260601_123456");
    assert_eq!(data["total_entries"], 1);
    assert_eq!(db.files[0].0, data["backup_path"].as_str().unwrap());
    let parsed: Value = serde_json::from_str(&db.files[0].1).unwrap();
    assert_eq!(parsed["backup_name"], data["backup_name"]);
    assert_eq!(parsed["entries"][0]["context_key"], "a");
    assert!(text.contains("Context Backup Created"));
}

#[test]
fn backup_uses_a_caller_supplied_name() {
    let mut db = Db::default();
    let (data, _) = ok(backup(&mut db, "{\"backup_name\": \"before-migration.v2\"}"));
    assert_eq!(data["backup_name"], "before-migration.v2");
    assert_eq!(
        db.files[0].0,
        "/tmp/project/.agent/backups/context/before-migration.v2.json"
    );
}

#[test]
fn backup_rejects_a_backup_name_outside_the_allowed_charset() {
    for name in ["../../etc/passwd", "a/b", "with spaces", ""] {
        let mut db = Db::default();
        let result = backup(&mut db, &format!("{{\"backup_name\": \"{name}\"}}"));
        assert!(matches!(result, ToolResult::Invalid { .. }), "{name:?}: {result:?}");
        assert!(db.files.is_empty());
    }
}

#[test]
fn backup_includes_health_report_by_default() {
    let mut db = Db::default();
    db.seed("a", "\"ok\"", EARLY);
    let (data, text) = ok(backup(&mut db, "{}"));
    assert!(data["health_report"].is_object());
    assert!(text.contains("Health Report"));
}

#[test]
fn backup_omits_health_report_when_disabled() {
    let (data, text) = ok(backup(&mut Db::default(), "{\"include_health_report\": false}"));
    assert!(data["health_report"].is_null());
    assert!(!text.contains("Health Report"));
}

#[test]
fn backup_denies_a_worker_without_system_config_write() {
    assert!(denied(ToolName::BackupProjectContext, &worker()));
}

#[test]
fn backup_writes_a_durable_audit_row() {
    let mut db = Db::default();
    ok(backup(&mut db, "{\"backup_name\": \"audited\"}"));
    assert_eq!(db.actions, vec!["backup_project_context"]);
}

// Values as the library reads them.

#[test]
fn texts_are_read_into_trees() {
    assert_eq!(read_json("{bad"), None);
    assert_eq!(read_json("[1, null, true, \"x\"]").unwrap().compact(), "[1,null,true,\"x\"]");
    assert_eq!(
        read_json("{\"b\": {\"c\": []}, \"a\": 2}"),
        Some(Json::Object(vec![
            Field { key: "a".to_string(), value: jint(2) },
            Field {
                key: "b".to_string(),
                value: Json::Object(vec![Field {
                    key: "c".to_string(),
                    value: Json::List(vec![]),
                }]),
            },
        ]))
    );
    assert_eq!(read_json("{\"a\": 1, \"a\": 2}").unwrap().compact(), "{\"a\":2}");
}

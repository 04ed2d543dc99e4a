use conexus_tools::admin_tools::{
    build_mcp_config_snippet, clamp_audit_log_limit, contains_reserved_bracket,
    effective_agent_sort_by, effective_sort_order, generate_token, is_reserved_agent_id,
    minted, next_agent_color, redact_agent_row, resolve_snippet_host, resolve_snippet_project, token_of,
    GetAgentTokensTool, RegisterAgentTool, ViewAuditLogTool, ViewStatusTool, AGENT_COLORS,
    DEFAULT_REGISTER_AGENT_URL_BASE, MANAGER_DEFAULT_PROFILE, REDACTED_TOKEN,
};
use conexus_tools::json::{jint, Field, Json};
use conexus_tools::principal::{Capabilities, Capability, Principal, PrincipalKind};
use conexus_tools::protocol::{Action, ActionRow, AgentRow, Call, Event, ToolResult};

fn text(s: &str) -> Json {
    Json::Text(s.to_string())
}

fn obj(pairs: Vec<(&str, Json)>) -> Json {
    Json::Object(
        pairs
            .into_iter()
            .map(|(k, v)| Field { key: k.to_string(), value: v })
            .collect(),
    )
}

fn operator(confirmed: bool) -> Principal {
    Principal {
        kind: PrincipalKind::OperatorSession,
        user_id: Some("op-1".to_string()),
        agent_id: None,
        project_name: None,
        agent_role: None,
        capabilities: Capabilities::Listed(vec![Capability::AgentsRegister]),
        actor_label: "op-1".to_string(),
        sender_label: "op-1".to_string(),
        operator_tier: true,
        confirmed_operator_tier: confirmed,
    }
}

fn call(principal: Option<Principal>, arguments: Json) -> Call {
    Call {
        principal,
        arguments,
        now: "2026-06-01T00:01:00Z".to_string(),
        instant: None,
        project_dir: "/tmp".to_string(),
        terminal_agent_statuses: vec!["terminated".to_string(), "tombstone".to_string()],
        terminal_task_statuses: vec!["completed".to_string()],
    }
}

fn sample_row() -> AgentRow {
    AgentRow {
        token: "secret-token-value".to_string(),
        agent_id: "alice".to_string(),
        created_at: "2026-06-01T00:00:00Z".to_string(),
        status: "active".to_string(),
        current_task: None,
        working_directory: "/tmp".to_string(),
        color: Some("#FF5733".to_string()),
        terminated_at: None,
        updated_at: None,
        aoe_session_id: Some("secret-session-id".to_string()),
        auto_event_loop: true,
        last_event_seen_at: None,
        last_activity_at: None,
        agent_role: "worker".to_string(),
        profile: None,
        profile_updated_at: None,
        profile_reviewed_at: None,
        profile_updated_by: None,
    }
}

fn finished(a: Action) -> ToolResult {
    match a {
        Action::Finish(r) => r,
        other => panic!("expected an end, got {other:?}"),
    }
}

fn success(a: Action) -> (Json, String) {
    match finished(a) {
        ToolResult::Success { data: Some(d), message: Some(m) } => (d, m),
        other => panic!("expected success, got {other:?}"),
    }
}

fn get<'a>(j: &'a Json, path: &[&str]) -> &'a Json {
    let mut at = j;
    for key in path {
        at = at.get(key).unwrap();
    }
    at
}

#[test]
fn generate_token_is_32_lowercase_hex_chars() {
    let token = generate_token().unwrap();
    assert_eq!(token.len(), 32);
    assert!(token
        .chars()
        .all(|c| c.is_ascii_hexdigit() && !c.is_ascii_uppercase()));
}

#[test]
fn generate_token_is_not_a_constant() {
    let a = generate_token().unwrap();
    let b = generate_token().unwrap();
    assert_ne!(a, b);
}

#[test]
fn tokens_spell_their_bytes() {
    assert_eq!(token_of(&vec![0, 15, 16, 255]), "000f10ff");
}

#[test]
fn next_agent_color_wraps_around_the_palette() {
    assert_eq!(next_agent_color(0), AGENT_COLORS[0]);
    assert_eq!(next_agent_color(AGENT_COLORS.len()), AGENT_COLORS[0]);
    assert_eq!(next_agent_color(AGENT_COLORS.len() + 1), AGENT_COLORS[1]);
}

#[test]
fn redact_agent_row_masks_both_secret_fields_for_a_non_operator() {
    let row = sample_row();
    let redacted = redact_agent_row(&row, false);
    assert_eq!(redacted.text_at("token"), Some(REDACTED_TOKEN));
    assert_eq!(redacted.text_at("aoe_session_id"), Some(REDACTED_TOKEN));
    assert_eq!(redacted.text_at("agent_id"), Some("alice"));
    assert_eq!(redacted.text_at("color"), Some("#FF5733"));
}

#[test]
fn redact_agent_row_passes_through_unchanged_for_a_confirmed_operator() {
    let row = sample_row();
    let full = redact_agent_row(&row, true);
    assert_eq!(full.text_at("token"), Some("secret-token-value"));
    assert_eq!(full.text_at("aoe_session_id"), Some("secret-session-id"));
}

#[test]
fn redact_agent_row_masks_a_null_aoe_session_id_key_too() {
    let mut row = sample_row();
    row.aoe_session_id = None;
    let redacted = redact_agent_row(&row, false);
    assert_eq!(redacted.text_at("aoe_session_id"), Some(REDACTED_TOKEN));
}

#[test]
fn a_masked_row_keeps_every_column() {
    let columns = [
        "token",
        "agent_id",
        "created_at",
        "status",
        "current_task",
        "working_directory",
        "color",
        "terminated_at",
        "updated_at",
        "aoe_session_id",
        "auto_event_loop",
        "last_event_seen_at",
        "last_activity_at",
        "agent_role",
        "profile",
        "profile_updated_at",
        "profile_reviewed_at",
        "profile_updated_by",
    ];
    let redacted = redact_agent_row(&sample_row(), false);
    for c in columns {
        assert!(redacted.get(c).is_some(), "{c}");
    }
}

#[test]
fn snippet_host_prefers_the_explicit_argument() {
    assert_eq!(
        resolve_snippet_host(Some("https://example.com/"), |_: &str| None),
        "https://example.com"
    );
}

#[test]
fn snippet_host_falls_back_to_env_then_the_placeholder() {
    assert_eq!(
        resolve_snippet_host(None, |k: &str| if k == "AGENT_MCP_EXTERNAL_URL" {
            Some("https://from-env.example/".to_string())
        } else {
            None
        }),
        "https://from-env.example"
    );
    assert_eq!(
        resolve_snippet_host(None, |_: &str| None),
        DEFAULT_REGISTER_AGENT_URL_BASE
    );
}

#[test]
fn snippet_host_ignores_a_blank_argument() {
    assert_eq!(
        resolve_snippet_host(Some("   "), |_: &str| Some(
            "https://from-env.example".to_string()
        )),
        "https://from-env.example"
    );
}

#[test]
fn snippet_host_drops_every_trailing_slash() {
    assert_eq!(
        resolve_snippet_host(Some(" https://h.example/// "), |_: &str| None),
        "https://h.example"
    );
    assert_eq!(resolve_snippet_host(Some("///"), |_: &str| None), "");
}

fn principal_with_project(project_name: Option<&str>) -> Principal {
    let mut p = operator(false);
    p.project_name = project_name.map(str::to_string);
    p
}

#[test]
fn snippet_project_prefers_the_explicit_argument() {
    let p = principal_with_project(Some("router-project"));
    assert_eq!(
        resolve_snippet_project(Some("explicit-project"), Some(&p)),
        Some("explicit-project".to_string())
    );
}

#[test]
fn snippet_project_falls_back_to_the_principal_then_none() {
    let p = principal_with_project(Some("router-project"));
    assert_eq!(
        resolve_snippet_project(None, Some(&p)),
        Some("router-project".to_string())
    );
    assert_eq!(resolve_snippet_project(None, None), None);
    let p_no_project = principal_with_project(None);
    assert_eq!(resolve_snippet_project(None, Some(&p_no_project)), None);
}

#[test]
fn mcp_config_snippet_includes_the_project_segment_when_present() {
    let snippet = build_mcp_config_snippet(
        Some("demo"),
        "tok-123",
        "https://host.example",
        "/agent-mcp",
    );
    let parsed: serde_json::Value = serde_json::from_str(&snippet).unwrap();
    assert_eq!(
        parsed["mcpServers"]["agent-mcp"]["url"],
        "https://host.example/agent-mcp/mcp/demo"
    );
    assert_eq!(
        parsed["mcpServers"]["agent-mcp"]["headers"]["Authorization"],
        "Bearer tok-123"
    );
}

#[test]
fn mcp_config_snippet_drops_the_project_segment_when_absent() {
    let snippet =
        build_mcp_config_snippet(None, "tok-123", "https://host.example", "/agent-mcp");
    let parsed: serde_json::Value = serde_json::from_str(&snippet).unwrap();
    assert_eq!(
        parsed["mcpServers"]["agent-mcp"]["url"],
        "https://host.example/mcp"
    );
}

#[test]
fn clamp_audit_log_limit_falls_back_to_50_on_anything_out_of_range() {
    assert_eq!(clamp_audit_log_limit(&obj(vec![])), 50);
    assert_eq!(clamp_audit_log_limit(&obj(vec![("limit", jint(10))])), 10);
    assert_eq!(clamp_audit_log_limit(&obj(vec![("limit", jint(0))])), 50);
    assert_eq!(clamp_audit_log_limit(&obj(vec![("limit", jint(201))])), 50);
    assert_eq!(
        clamp_audit_log_limit(&obj(vec![("limit", text("not-a-number"))])),
        50
    );
}

#[test]
fn effective_agent_sort_by_falls_back_to_created_at_matching_the_repositorys_own_allowlist() {
    assert_eq!(effective_agent_sort_by("updated_at"), "created_at");
    assert_eq!(effective_agent_sort_by("agent_id"), "agent_id");
    assert_eq!(effective_agent_sort_by("garbage"), "created_at");
}

#[test]
fn effective_sort_order_only_asc_is_case_insensitively_recognized() {
    assert_eq!(effective_sort_order("asc"), "ASC");
    assert_eq!(effective_sort_order("ASC"), "ASC");
    assert_eq!(effective_sort_order("desc"), "DESC");
    assert_eq!(effective_sort_order("garbage"), "DESC");
}

#[test]
fn contains_reserved_bracket_matches_either_bracket() {
    assert!(contains_reserved_bracket("deleted[1]"));
    assert!(contains_reserved_bracket("a[b"));
    assert!(contains_reserved_bracket("a]b"));
    assert!(!contains_reserved_bracket("alice"));
}

#[test]
fn is_reserved_agent_id_is_case_insensitive() {
    assert!(is_reserved_agent_id("admin"));
    assert!(is_reserved_agent_id("Admin-bob"));
    assert!(is_reserved_agent_id("ADMINISTRATOR"));
    assert!(!is_reserved_agent_id("alice"));
}

#[test]
fn audit_log_shows_what_was_listed() {
    let c = call(None, obj(vec![("agent_id", text("alice")), ("limit", jint(7))]));
    match ViewAuditLogTool::next(&c, &vec![]) {
        Action::ListActions { agent_id, action_type, limit } => {
            assert_eq!(agent_id.as_deref(), Some("alice"));
            assert_eq!(action_type, None);
            assert_eq!(limit, 7);
        }
        other => panic!("{other:?}"),
    }
    let rows = vec![ActionRow {
        timestamp: "t0".to_string(),
        agent_id: "alice".to_string(),
        action_type: "created_task".to_string(),
        details: None,
    }];
    let (data, message) = success(ViewAuditLogTool::next(&c, &vec![Event::Actions(rows)]));
    assert_eq!(data.int_at("count"), Some(1));
    assert_eq!(data.list_at("entries").unwrap()[0].text_at("action"), Some("created_task"));
    assert_eq!(
        message,
        "Audit Log (1 entries displayed, filtered by agent: alice, action: Any):\n[\n  {\n    \"action\": \"created_task\",\n    \"agent_id\": \"alice\",\n    \"details\": null,\n    \"timestamp\": \"t0\"\n  }\n]"
    );
    assert!(matches!(
        finished(ViewAuditLogTool::next(&c, &vec![Event::Failed])),
        ToolResult::Failed { .. }
    ));
}

#[test]
fn tokens_are_exposed_only_to_a_confirmed_operator_who_asks() {
    for (confirmed, asks, shown) in [
        (true, true, "secret-token-value"),
        (true, false, REDACTED_TOKEN),
        (false, true, REDACTED_TOKEN),
    ] {
        let c = call(
            Some(operator(confirmed)),
            obj(vec![("include_sensitive_data", Json::Bool(asks))]),
        );
        let page = Event::AgentPage { rows: vec![sample_row()], total: 1 };
        let (data, _) = success(GetAgentTokensTool::next(&c, &vec![page, Event::Done]));
        assert_eq!(data.list_at("agents").unwrap()[0].text_at("token"), Some(shown));
    }
}

#[test]
fn token_listing_writes_the_audit_line_before_it_answers() {
    let c = call(Some(operator(true)), obj(vec![("limit", jint(2))]));
    match GetAgentTokensTool::next(&c, &vec![]) {
        Action::QueryAgents(f) => {
            assert_eq!(f.limit, 2);
            assert_eq!(f.offset, 0);
            assert_eq!(f.sort_by, "created_at");
            assert_eq!(f.sort_order, "DESC");
        }
        other => panic!("{other:?}"),
    }
    let page = || Event::AgentPage { rows: vec![sample_row(), sample_row()], total: 3 };
    match GetAgentTokensTool::next(&c, &vec![page()]) {
        Action::LogAction { agent_id, action_type, details, .. } => {
            assert_eq!(agent_id, "op-1");
            assert_eq!(action_type, "get_agent_tokens");
            assert_eq!(details.int_at("total_matching"), Some(3));
            assert_eq!(details.flag_at("tokens_exposed"), Some(false));
        }
        other => panic!("{other:?}"),
    }
    let (data, message) = success(GetAgentTokensTool::next(&c, &vec![page(), Event::Failed]));
    assert_eq!(get(&data, &["pagination"]).flag_at("has_more"), Some(true));
    assert_eq!(get(&data, &["pagination"]).int_at("returned_count"), Some(2));
    assert!(message.starts_with("Agent Tokens (2 of 3 total):\n{\n"));
}

#[test]
fn has_more_copes_with_an_enormous_offset() {
    let c = call(Some(operator(true)), obj(vec![("offset", jint(i64::MAX))]));
    let page = Event::AgentPage { rows: vec![sample_row()], total: i64::MAX };
    let (data, _) = success(GetAgentTokensTool::next(&c, &vec![page, Event::Done]));
    assert_eq!(get(&data, &["pagination"]).flag_at("has_more"), Some(false));
}

#[test]
fn status_leaves_system_entries_out() {
    let mut system = sample_row();
    system.agent_id = "system".to_string();
    system.status = "system".to_string();
    let mut plain = sample_row();
    plain.color = None;
    let files = Event::FileMap {
        size: 1,
        preview: vec![Field { key: "/tmp/a.txt".to_string(), value: text("x") }],
    };
    assert!(matches!(ViewStatusTool::next(&vec![]), Action::ListActiveAgents));
    let (data, message) =
        success(ViewStatusTool::next(&vec![Event::Agents(vec![plain, system]), files]));
    assert_eq!(data.int_at("active_agents_count"), Some(1));
    assert_eq!(get(&data, &["agents_details", "alice"]).text_at("color"), Some("N/A"));
    assert!(get(&data, &["agents_details"]).get("system").is_none());
    assert_eq!(data.int_at("file_map_size"), Some(1));
    assert!(get(&data, &["file_map_preview"]).get("/tmp/a.txt").is_some());
    assert!(message.contains("MCP Server Status"));
}

fn registration(args: Vec<(&str, Json)>) -> Call {
    call(Some(operator(true)), obj(args))
}

#[test]
fn registration_refuses_bad_names_and_roles() {
    for (args, field) in [
        (vec![], "name"),
        (vec![("name", text("   ")), ("agent_id", text("bob"))], "name"),
        (vec![("name", text("alice")), ("role", text("superadmin"))], "role"),
        (vec![("name", text("deleted-alice]"))], "name"),
        (vec![("name", text("admin-bob"))], "name"),
    ] {
        match finished(RegisterAgentTool::next(&registration(args), &vec![])) {
            ToolResult::Invalid { field: Some(f), .. } => assert_eq!(f, field),
            other => panic!("{other:?}"),
        }
    }
    match finished(RegisterAgentTool::next(
        &registration(vec![("name", text("a]\"b"))]),
        &vec![],
    )) {
        ToolResult::Invalid { message, .. } => {
            assert!(message.starts_with("invalid name \"a]\\\"b\": `[` and `]`"));
        }
        other => panic!("{other:?}"),
    }
}

#[test]
fn registration_goes_through_its_steps() {
    let c = registration(vec![
        ("name", text(" boss ")),
        ("role", text("manager")),
        ("project_name", text("demo")),
        ("host", text("https://host.example")),
    ]);
    let token = || Event::Text(Some("t0k".to_string()));
    let index = || Event::Index(19);
    let created = || Event::Created { created_at: "c0".to_string() };
    assert!(matches!(RegisterAgentTool::next(&c, &vec![]), Action::MintToken));
    assert!(matches!(RegisterAgentTool::next(&c, &vec![token()]), Action::NextColorIndex));
    match RegisterAgentTool::next(&c, &vec![token(), index()]) {
        Action::CreateAgent(a) => {
            assert_eq!(a.agent_id, "boss");
            assert_eq!(a.color, AGENT_COLORS[1]);
            assert_eq!(a.status, "created");
            assert_eq!(a.agent_role, "manager");
            assert_eq!(a.working_directory, "/tmp");
        }
        other => panic!("{other:?}"),
    }
    match RegisterAgentTool::next(&c, &vec![token(), index(), created()]) {
        Action::SeedManagerProfile { profile, timestamp, .. } => {
            assert_eq!(profile, MANAGER_DEFAULT_PROFILE);
            assert_eq!(timestamp, "c0");
        }
        other => panic!("{other:?}"),
    }
    let h = vec![token(), index(), created(), Event::Done];
    assert!(matches!(RegisterAgentTool::next(&c, &h), Action::LogAction { .. }));
    let h = vec![token(), index(), created(), Event::Done, Event::Done];
    assert!(matches!(RegisterAgentTool::next(&c, &h), Action::ReadEnv { .. }));
    let h = vec![token(), index(), created(), Event::Done, Event::Done, Event::Text(None)];
    let (data, message) = success(RegisterAgentTool::next(&c, &h));
    assert_eq!(data.text_at("project_name"), Some("demo"));
    assert_eq!(data.text_at("token"), Some("t0k"));
    let snippet: serde_json::Value =
        serde_json::from_str(data.text_at("mcp_snippet").unwrap()).unwrap();
    assert_eq!(
        snippet["mcpServers"]["agent-mcp"]["url"],
        "https://host.example/agent-mcp/mcp/demo"
    );
    assert!(message.contains("registered"));
}

#[test]
fn registration_reports_what_the_store_says() {
    let c = registration(vec![("agent_id", text("alice"))]);
    let h = |e: Event| vec![Event::Text(Some("t".to_string())), Event::Index(0), e];
    assert!(matches!(
        finished(RegisterAgentTool::next(&c, &h(Event::Duplicate))),
        ToolResult::Conflict { .. }
    ));
    assert!(matches!(
        finished(RegisterAgentTool::next(&c, &h(Event::InvalidId))),
        ToolResult::Invalid { .. }
    ));
    assert!(matches!(
        finished(RegisterAgentTool::next(&c, &h(Event::Failed))),
        ToolResult::Failed { .. }
    ));
    let worker = h(Event::Created { created_at: "c".to_string() });
    assert!(matches!(RegisterAgentTool::next(&c, &worker), Action::LogAction { .. }));
}

#[test]
fn a_token_is_minted_only_where_the_random_source_answered() {
    let bytes: Vec<u8> = (0..16).collect();
    assert_eq!(
        minted(Ok(()), &bytes),
        Some("000102030405060708090a0b0c0d0e0f".to_string())
    );
    assert_eq!(minted(Err(getrandom::Error::UNSUPPORTED), &bytes), None);
}

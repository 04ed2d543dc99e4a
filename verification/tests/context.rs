use conexus_tools::catalog;
use conexus_tools::catalog::ToolName;
use conexus_tools::context_backup::BackupProjectContextTool;
use conexus_tools::context_deletion::{critical_key_match, DeleteProjectContextTool};
use conexus_tools::context_health::{
    analyze_context_health, can_create_project_context, can_delete_project_context,
    can_update_project_context, check_context_consistency, days_between,
    generate_context_recommendations, has_unsafe_unicode_for_identifier, health_status_icon,
    is_valid_memory_key, render_consistency_message, ConsistencyReport,
    ValidateContextConsistencyTool, LARGE_ENTRY_CHARS, LARGE_VALUE_CHARS,
};
use conexus_tools::context_writing::{
    render_bulk_summary, BulkUpdateOutcome, BulkUpdateProjectContextTool,
    CreateProjectContextTool, UpdateProjectContextTool,
};
use conexus_tools::json::{jint, read_json, Field, Json};
use conexus_tools::principal::{Capabilities, Capability, Principal, PrincipalKind};
use conexus_tools::project_context_tools::ViewProjectContextTool;
use conexus_tools::protocol::{Action, Call, ContextRow, Event, Stamp, ToolResult};
use conexus_tools::text::title_case;

fn text(s: &str) -> Json {
    Json::Text(s.to_string())
}

fn obj(pairs: Vec<(&str, Json)>) -> Json {
    Json::Object(
        pairs
            .into_iter()
            .map(|(k, v)| Field { key: k.to_string(), value: v })
            .collect(),
    )
}

fn finished(a: Action) -> ToolResult {
    match a {
        Action::Finish(r) => r,
        other => panic!("expected an end, got {other:?}"),
    }
}

fn success(a: Action) -> (Json, String) {
    match finished(a) {
        ToolResult::Success { data: Some(d), message: Some(m) } => (d, m),
        other => panic!("expected success, got {other:?}"),
    }
}

fn person(agent_id: Option<&str>, caps: Vec<Capability>) -> Principal {
    Principal {
        kind: PrincipalKind::AgentBearer,
        user_id: None,
        agent_id: agent_id.map(str::to_string),
        project_name: None,
        agent_role: None,
        capabilities: Capabilities::Listed(caps),
        actor_label: agent_id.unwrap_or("op").to_string(),
        sender_label: agent_id.unwrap_or("op").to_string(),
        operator_tier: false,
        confirmed_operator_tier: false,
    }
}

fn call(principal: Option<Principal>, arguments: Json) -> Call {
    Call {
        principal,
        arguments,
        now: "2026-06-01T00:01:00Z".to_string(),
        instant: Some(Stamp { secs: 1780272060, nanos: 0 }),
        project_dir: "/tmp/project".to_string(),
        terminal_agent_statuses: vec!["terminated".to_string(), "tombstone".to_string()],
        terminal_task_statuses: vec!["completed".to_string(), "failed".to_string()],
    }
}

fn is_authenticated_caller(p: Option<&Principal>) -> bool {
    catalog::admits(ToolName::ValidateContextConsistency, p)
}

fn stamp(s: &str) -> Stamp {
    let t: chrono::DateTime<chrono::Utc> = s.parse().unwrap();
    Stamp { secs: t.timestamp(), nanos: t.timestamp_subsec_nanos() }
}

fn row(key: &str, value: &str, updated_at: &str, description: Option<&str>) -> ContextRow {
    let scalar_text = match read_json(value) {
        Some(Json::Text(s)) => s,
        _ => "None".to_string(),
    };
    ContextRow {
        context_key: key.to_string(),
        value: value.to_string(),
        description: description.map(str::to_string),
        created_at: Some(updated_at.to_string()),
        created_by: Some("alice".to_string()),
        updated_at: updated_at.to_string(),
        updated_by: "alice".to_string(),
        updated: updated_at
            .parse::<chrono::DateTime<chrono::Utc>>()
            .ok()
            .map(|t| Stamp { secs: t.timestamp(), nanos: t.timestamp_subsec_nanos() }),
        scalar_text,
    }
}

fn worker() -> Principal {
    person(Some("alice"), vec![Capability::MemoriesView])
}

fn viewer_operator() -> Principal {
    let mut p = person(None, vec![Capability::MemoriesView]);
    p.kind = PrincipalKind::ForwardingHeader;
    p
}

fn write_operator() -> Principal {
    let mut p = person(
        None,
        vec![
            Capability::MemoriesCreate,
            Capability::MemoriesUpdate,
            Capability::MemoriesDelete,
        ],
    );
    p.kind = PrincipalKind::ForwardingHeader;
    p
}

fn admin_agent() -> Principal {
    let mut p = person(Some("admin"), vec![Capability::MemoriesView]);
    p.operator_tier = true;
    p
}

#[test]
fn memory_key_validation_matches_python_charset() {
    assert!(is_valid_memory_key("api.endpoint-1/v2_beta"));
    assert!(!is_valid_memory_key(""));
    assert!(!is_valid_memory_key("has spaces"));
    assert!(!is_valid_memory_key("emoji🎉"));
}

#[test]
fn unsafe_unicode_denylist_catches_the_canonical_spoofing_example() {
    assert!(has_unsafe_unicode_for_identifier("config\u{202e}drowssap"));
    assert!(has_unsafe_unicode_for_identifier("a\u{0000}b"));
    assert!(has_unsafe_unicode_for_identifier("a\u{feff}b"));
    assert!(!has_unsafe_unicode_for_identifier("normal_key"));
    assert!(!has_unsafe_unicode_for_identifier("café.config"));
    assert!(!has_unsafe_unicode_for_identifier("emoji.🚀.key"));
}

#[test]
fn the_edges_of_the_unsafe_ranges() {
    for c in ['\u{1f}', '\u{7f}', '\u{200b}', '\u{200f}', '\u{2028}', '\u{2064}', '\u{206f}'] {
        assert!(has_unsafe_unicode_for_identifier(&c.to_string()), "{c:?}");
        assert!(!is_valid_memory_key(&c.to_string()), "{c:?}");
    }
    for c in [' ', '~', '\u{80}', '\u{200a}', '\u{2010}', '\u{2027}', '\u{202f}', '\u{2065}'] {
        assert!(!has_unsafe_unicode_for_identifier(&c.to_string()), "{c:?}");
    }
}

#[test]
fn a_worker_always_passes_the_write_gate_regardless_of_capability() {
    assert!(can_create_project_context(Some(&worker())));
    assert!(can_update_project_context(Some(&worker())));
    assert!(can_delete_project_context(Some(&worker())));
}

#[test]
fn a_viewer_tier_operator_is_denied_every_write_capability() {
    let v = viewer_operator();
    assert!(!can_create_project_context(Some(&v)));
    assert!(!can_update_project_context(Some(&v)));
    assert!(!can_delete_project_context(Some(&v)));
}

#[test]
fn a_write_capable_operator_passes() {
    let op = write_operator();
    assert!(can_create_project_context(Some(&op)));
    assert!(can_update_project_context(Some(&op)));
    assert!(can_delete_project_context(Some(&op)));
}

#[test]
fn no_principal_is_denied_everywhere() {
    assert!(!is_authenticated_caller(None));
    assert!(!can_create_project_context(None));
}

#[test]
fn empty_entries_return_the_full_no_data_shape() {
    let report = analyze_context_health(&vec![], stamp("2026-06-01T00:00:00Z"));
    assert_eq!(report.status, "no_data");
    assert_eq!(report.health_score as f64 / 10.0, 100.0);
    assert_eq!(report.total, 0);
    assert_eq!(report.recommendations.len(), 1);
}

#[test]
fn a_healthy_fresh_entry_scores_excellent() {
    let now = stamp("2026-06-01T00:00:00Z");
    let entries = vec![row("a", "\"ok\"", "2026-06-01T00:00:00Z", Some("desc"))];
    let report = analyze_context_health(&entries, now);
    assert_eq!(report.status, "excellent");
    assert_eq!(report.json_errors, 0);
    assert_eq!(report.stale_entries, 0);
}

#[test]
fn invalid_json_and_staleness_lower_the_score() {
    let now = stamp("2026-06-01T00:00:00Z");
    let entries = vec![
        row("bad-json", "{not valid", "2026-06-01T00:00:00Z", Some("d")),
        row("stale", "\"ok\"", "2026-01-01T00:00:00Z", Some("d")),
    ];
    let report = analyze_context_health(&entries, now);
    assert_eq!(report.json_errors, 1);
    assert_eq!(report.stale_entries, 1);
    assert!(report.health_score as f64 / 10.0 < 100.0);
    assert!(report
        .recommendations
        .iter()
        .any(|r| r.contains("JSON parsing errors")));
    assert_eq!(report.health_score, 550);
    assert_eq!(report.status, "needs_attention");
    assert_eq!(report.warnings, vec!["'stale' is 151 days old".to_string()]);
    assert_eq!(report.issues, vec!["JSON parse error in 'bad-json'".to_string()]);
}

#[test]
fn a_large_entry_is_flagged() {
    let now = stamp("2026-06-01T00:00:00Z");
    let big_value = "x".repeat(LARGE_ENTRY_CHARS + 1);
    let entries = vec![row("big", &big_value, "2026-06-01T00:00:00Z", Some("d"))];
    let report = analyze_context_health(&entries, now);
    assert_eq!(report.large_entries, 1);
    assert_eq!(report.warnings, vec!["'big' is large (10KB)".to_string()]);
}

#[test]
fn a_report_names_five_issues_at_most_and_rounds_its_score() {
    let now = stamp("2026-06-01T00:00:00Z");
    let mut entries: Vec<ContextRow> = (0..6)
        .map(|i| row(&format!("k{i}"), "{bad", "never", Some("d")))
        .collect();
    let report = analyze_context_health(&entries, now);
    assert_eq!(report.issues.len(), 5);
    assert_eq!(report.warnings.len(), 5);
    assert_eq!(report.warnings[0], "Invalid timestamp for 'k0'");
    assert_eq!(report.health_score, 500);
    entries.push(row("ok", "1", "2026-06-01T00:00:00Z", Some("d")));
    assert_eq!(analyze_context_health(&entries, now).health_score, 571);
}

#[test]
fn health_words_change_at_their_thresholds() {
    let now = stamp("2026-06-01T00:00:00Z");
    let make = |stale: usize, total: usize| {
        let rows: Vec<ContextRow> = (0..total)
            .map(|i| {
                let at = if i < stale { "2026-01-01T00:00:00Z" } else { "2026-06-01T00:00:00Z" };
                row(&format!("k{i}"), "1", at, Some("d"))
            })
            .collect();
        analyze_context_health(&rows, now)
    };
    assert_eq!(make(1, 4).status, "excellent");
    assert_eq!(make(2, 4).status, "good");
    assert_eq!(make(4, 4).status, "needs_attention");
    assert_eq!(make(1, 4).health_score, 900);
}

#[test]
fn recommendations_follow_the_counts() {
    assert_eq!(
        generate_context_recommendations(0, 0, 0, 5),
        vec!["Context health is excellent - no immediate action required".to_string()]
    );
    assert_eq!(
        generate_context_recommendations(4, 1, 2, 10),
        vec![
            "Fix 1 JSON parsing errors using validate_context_consistency".to_string(),
            "Review and update 4 stale entries (30+ days old)".to_string(),
            "Consider breaking down 2 large entries into smaller components".to_string(),
        ]
    );
    assert_eq!(generate_context_recommendations(3, 0, 0, 10).len(), 1);
    assert!(generate_context_recommendations(0, 0, 0, 101)[0].contains("archiving"));
}

#[test]
fn days_are_counted_towards_zero() {
    let a = Stamp { secs: 86400, nanos: 0 };
    let b = Stamp { secs: 0, nanos: 1 };
    let z = Stamp { secs: 0, nanos: 0 };
    assert_eq!(days_between(a, z), 1);
    assert_eq!(days_between(a, b), 0);
    assert_eq!(days_between(z, a), -1);
    assert_eq!(days_between(b, a), 0);
}

#[test]
fn consistency_check_flags_invalid_json_and_case_insensitive_duplicates() {
    let now = stamp("2026-06-01T00:00:00Z");
    let entries = vec![
        row("Key1", "not json", "2026-06-01T00:00:00Z", Some("d")),
        row("key1", "\"ok\"", "2026-06-01T00:00:00Z", Some("d")),
    ];
    let report = check_context_consistency(&entries, now);
    assert_eq!(report.total_entries, 2);
    assert!(report.issues.iter().any(|i| i.contains("Invalid JSON")));
    assert!(report
        .issues
        .iter()
        .any(|i| i.contains("Potential duplicate keys")));
    assert!(report.issues[0].starts_with("Invalid JSON in 'Key1': expected ident at line 1"));
    assert_eq!(report.issues[1], "Potential duplicate keys: 'Key1' and 'key1'");
}

#[test]
fn consistency_check_flags_missing_descriptions_and_old_entries() {
    let now = stamp("2026-06-01T00:00:00Z");
    let entries = vec![
        row("no-desc", "\"ok\"", "2026-06-01T00:00:00Z", None),
        row("old", "\"ok\"", "2026-01-01T00:00:00Z", Some("d")),
    ];
    let report = check_context_consistency(&entries, now);
    assert!(report
        .warnings
        .iter()
        .any(|w| w.contains("Missing description")));
    assert!(report.warnings.iter().any(|w| w.contains("Old entry")));
}

#[test]
fn consistency_check_flags_large_values() {
    let now = stamp("2026-06-01T00:00:00Z");
    let big_value = "x".repeat(LARGE_VALUE_CHARS + 1);
    let entries = vec![row("big", &big_value, "2026-06-01T00:00:00Z", Some("d"))];
    let report = check_context_consistency(&entries, now);
    assert!(report.warnings.iter().any(|w| w.contains("Large entry")));
    assert_eq!(report.warnings, vec!["Large entry: big (10001 chars)".to_string()]);
}

#[test]
fn a_clean_context_produces_no_issues_or_warnings() {
    let now = stamp("2026-06-01T00:00:00Z");
    let entries = vec![row("clean", "\"ok\"", "2026-06-01T00:00:00Z", Some("d"))];
    let report = check_context_consistency(&entries, now);
    assert!(report.issues.is_empty());
    assert!(report.warnings.is_empty());
}

#[test]
fn long_lists_of_warnings_are_capped() {
    let now = stamp("2026-06-01T00:00:00Z");
    let entries: Vec<ContextRow> = (0..12)
        .map(|i| row(&format!("k{i}"), "1", "2026-01-01T00:00:00Z", Some("")))
        .collect();
    let report = check_context_consistency(&entries, now);
    assert_eq!(report.warnings.len(), 17);
    assert_eq!(report.warnings[10], "... and 2 more missing descriptions");
    assert_eq!(report.warnings[16], "... and 7 more old entries");
}

#[test]
fn consistency_reports_read_well() {
    let clean = ConsistencyReport { total_entries: 1, issues: vec![], warnings: vec![] };
    assert_eq!(
        render_consistency_message(&clean),
        "Context Consistency Validation Results\nTotal entries: 1\n\n✅ No issues found! Context appears consistent."
    );
    let bad = ConsistencyReport {
        total_entries: 2,
        issues: vec!["i".to_string()],
        warnings: vec!["w".to_string()],
    };
    assert_eq!(
        render_consistency_message(&bad),
        "Context Consistency Validation Results\nTotal entries: 2\n\n🚨 Critical Issues (1):\n  i\n\n⚠️  Warnings (1):\n  w\n\nRecommendations:\n- Fix critical issues immediately\n- Use bulk_update_project_context for corrections\n- Review warnings for potential cleanup\n- Consider using delete_project_context for unused entries"
    );
}

#[test]
fn validation_of_an_empty_context_is_no_error() {
    let c = call(Some(worker()), Json::Null);
    let (data, message) =
        success(ValidateContextConsistencyTool::next(&c, &vec![Event::Contexts(vec![])]));
    assert_eq!(data.int_at("total_entries"), Some(0));
    assert_eq!(message, "No project context entries found.");
    let some = || Event::Contexts(vec![row("a", "\"v\"", "2026-06-01T00:00:00Z", Some("d"))]);
    let (data, message) = success(ValidateContextConsistencyTool::next(&c, &vec![some()]));
    assert_eq!(data.int_at("total_entries"), Some(1));
    assert!(message.contains("No issues found"));
    let mut c = call(None, Json::Null);
    c.instant = None;
    assert_eq!(
        finished(ValidateContextConsistencyTool::next(&c, &vec![some()])),
        ToolResult::Failed { message: "Internal clock error".to_string() }
    );
}

#[test]
fn python_title_case_matches_pythons_str_title_for_underscored_words() {
    assert_eq!(title_case("needs_attention"), "Needs_Attention");
    assert_eq!(title_case("no_data"), "No_Data");
    assert_eq!(title_case("excellent"), "Excellent");
    assert_eq!(title_case(""), "");
}

#[test]
fn health_signs() {
    assert_eq!(health_status_icon("excellent"), "🟢");
    assert_eq!(health_status_icon("good"), "🟡");
    assert_eq!(health_status_icon("needs_attention"), "🟠");
    assert_eq!(health_status_icon("no_data"), "🔴");
}

fn view(args: Vec<(&str, Json)>, rows: Vec<ContextRow>) -> (Json, String) {
    let c = call(Some(worker()), obj(args));
    success(ViewProjectContextTool::next(&c, &vec![Event::Contexts(rows)]))
}

fn keys(data: &Json) -> Vec<String> {
    data.list_at("entries")
        .unwrap()
        .iter()
        .map(|e| e.text_at("key").unwrap().to_string())
        .collect()
}

fn at(key: &str, value: &str, minute: u32) -> ContextRow {
    row(key, value, &format!("2026-06-01T00:0{minute}:00Z"), Some("d"))
}

#[test]
fn views_filter_by_key_and_by_search() {
    let rows = || vec![at("matching-key", "\"x\"", 0), at("other", "\"has matching text\"", 0), at("no", "1", 0)];
    assert_eq!(keys(&view(vec![], rows()).0).len(), 3);
    assert_eq!(keys(&view(vec![("context_key", text("no"))], rows()).0), vec!["no"]);
    assert_eq!(keys(&view(vec![("search_query", text("matching"))], rows()).0).len(), 2);
    let both = vec![("context_key", text("no")), ("search_query", text("matching"))];
    assert_eq!(keys(&view(both, rows()).0), vec!["no"]);
    let (_, message) = view(vec![("context_key", text("none"))], rows());
    assert_eq!(message, "No project context entries found matching the criteria.");
}

#[test]
fn views_sort_as_asked() {
    let rows = || vec![at("zebra", "\"long value\"", 0), at("alpha", "1", 5), at("mid", "\"abc\"", 3)];
    assert_eq!(keys(&view(vec![("sort_by", text("key"))], rows()).0), vec!["alpha", "mid", "zebra"]);
    assert_eq!(keys(&view(vec![("sort_by", text("size"))], rows()).0), vec!["zebra", "mid", "alpha"]);
    let (data, _) = view(vec![("sort_by", text("last_updated"))], rows());
    assert_eq!(keys(&data), vec!["alpha", "mid", "zebra"]);
    assert_eq!(data.get("filters").unwrap().text_at("sort_by"), Some("updated_at"));
    let (data, _) = view(vec![("max_results", jint(0)), ("sort_by", text("key"))], rows());
    assert_eq!(keys(&data), vec!["alpha"]);
    assert_eq!(data.get("filters").unwrap().int_at("max_results"), Some(1));
}

#[test]
fn views_can_show_stale_entries_only() {
    let rows = vec![
        row("fresh", "\"v\"", "2026-06-01T00:00:00Z", Some("d")),
        row("stale", "\"v\"", "2026-01-01T00:00:00Z", None),
    ];
    let (data, message) = view(vec![("show_stale_entries", Json::Bool(true))], rows);
    assert_eq!(keys(&data), vec!["stale"]);
    let meta = data.list_at("entries").unwrap()[0].get("_metadata").unwrap();
    assert_eq!(meta.int_at("days_old"), Some(151));
    assert_eq!(meta.flag_at("is_stale"), Some(true));
    assert!(message.contains("**stale** ⏰ STALE(151d)\n  Description: No description\n"));
    assert!(message.contains(", filtered by: stale_only=true, sorted by: updated_at)"));
}

#[test]
fn a_view_flags_what_is_no_json_and_shows_it_as_it_is() {
    let (data, message) = view(vec![], vec![at("raw-string", "not valid json", 0)]);
    let entry = &data.list_at("entries").unwrap()[0];
    assert_eq!(entry.get("_metadata").unwrap().flag_at("json_valid"), Some(false));
    assert_eq!(entry.text_at("value"), Some("not valid json"));
    assert!(message.contains("Value: not valid json"));
    assert!(message.contains("❌ JSON_ERROR"));
}

#[test]
fn a_whole_view_reads_like_this() {
    let (_, message) = view(vec![("include_backup_info", Json::Bool(true))], vec![at("k", "{\"nested\":true}", 0)]);
    assert_eq!(
        message,
        "Project Context (1 entries, sorted by: updated_at)\n\n💾 **Backup Info:** Use bulk_update_project_context for backups\n\n**k**\n  Description: d\n  Updated: 2026-06-01T00:00:00Z by alice\n  Created: 2026-06-01T00:00:00Z by alice\n  Value: {\n  \"nested\": true\n}\n\n\n💡 Smart Tips:\n• Add show_health_analysis=true for context health metrics\n• Add show_stale_entries=true to see entries needing updates\n• Use sort_by=[key|size|updated_at] for different sorting\n• Use validate_context_consistency to fix JSON errors"
    );
}

#[test]
fn health_analysis_looks_at_the_whole_context() {
    let rows = vec![
        at("healthy", "\"ok\"", 0),
        row("bad", "not valid json", "2026-01-01T00:00:00Z", Some("d")),
    ];
    let args = vec![("show_health_analysis", Json::Bool(true)), ("context_key", text("healthy"))];
    let (_, message) = view(args, rows);
    assert!(message.contains("📊 **Context Health:** 🟠 Needs_Attention (55/100)\n   Total: 2 entries\n   Issues: 1 JSON errors, 1 stale, 0 large\n   💡 Fix 1 JSON parsing errors"));
}

#[test]
fn large_values_are_measured_and_cut() {
    let value = format!("\"{}\"", "x".repeat(10366));
    let (data, message) = view(vec![], vec![at("big", &value, 0)]);
    let meta = data.list_at("entries").unwrap()[0].get("_metadata").unwrap();
    assert_eq!(meta.int_at("size_bytes"), Some(10368));
    assert_eq!(meta.get("size_kb").unwrap().compact(), "10.13");
    assert!(message.contains("📦 LARGE(10.12KB)"));
    assert!(message.contains(&format!("  Value: {}... [TRUNCATED]\n", "x".repeat(500))));
}

#[test]
fn long_views_show_twenty_entries() {
    let rows: Vec<ContextRow> = (0..23).map(|i| at(&format!("k{i:02}"), "1", 0)).collect();
    let (data, message) = view(vec![("sort_by", text("key"))], rows);
    assert_eq!(data.int_at("count"), Some(23));
    assert!(message.contains("**k19**"));
    assert!(!message.contains("**k20**"));
    assert!(message.contains("... and 3 more entries\nUse max_results parameter"));
}

fn write(p: Principal, args: Vec<(&str, Json)>) -> Call {
    call(Some(p), obj(args))
}

#[test]
fn creating_refuses_what_is_no_proper_entry() {
    for (args, field) in [
        (vec![("context_value", text("v"))], "context_key"),
        (vec![("context_key", text("has spaces")), ("context_value", text("v"))], "context_key"),
        (vec![("context_key", text("k"))], "context_value"),
        (vec![("context_key", text("config_x")), ("context_value", text("v"))], "context_key"),
        (vec![("context_key", text("CONFIG_x")), ("context_value", text("v"))], "context_key"),
    ] {
        for p in [write_operator(), admin_agent(), worker()] {
            let c = write(p, args.iter().map(|(k, v)| (*k, v.copy())).collect());
            match finished(CreateProjectContextTool::next(&c, &vec![])) {
                ToolResult::Invalid { field: f, .. } => assert_eq!(f.as_deref(), Some(field)),
                other => panic!("{other:?}"),
            }
        }
    }
    let long = "k".repeat(257);
    let c = write(admin_agent(), vec![("context_key", text(&long)), ("context_value", text("v"))]);
    match finished(CreateProjectContextTool::next(&c, &vec![])) {
        ToolResult::Invalid { message, .. } => {
            assert_eq!(message, "context_key exceeds the maximum length of 256 characters.");
        }
        other => panic!("{other:?}"),
    }
}

#[test]
fn creating_goes_through_its_steps() {
    let c = write(worker(), vec![("context_key", text("a.new.key")), ("context_value", text("hello"))]);
    let free = || Event::Context(None);
    assert!(matches!(CreateProjectContextTool::next(&c, &vec![]), Action::GetContext { .. }));
    match CreateProjectContextTool::next(&c, &vec![free()]) {
        Action::CreateContext(n) => {
            assert_eq!(n.value, "\"hello\"");
            assert_eq!(n.created_by, "alice");
            assert_eq!(n.description, None);
        }
        other => panic!("{other:?}"),
    }
    assert!(matches!(
        CreateProjectContextTool::next(&c, &vec![free(), Event::Changed(true)]),
        Action::LogAction { .. }
    ));
    assert!(matches!(
        CreateProjectContextTool::next(&c, &vec![free(), Event::Changed(true), Event::Done]),
        Action::DeliverWakes { bulk: false, .. }
    ));
    let h = vec![free(), Event::Changed(true), Event::Done, Event::Texts(vec!["w".to_string()])];
    let (data, message) = success(CreateProjectContextTool::next(&c, &h));
    assert_eq!(data.text_at("context_key"), Some("a.new.key"));
    assert_eq!(data.list_at("wakes").unwrap().len(), 1);
    assert_eq!(message, "Memory 'a.new.key' created successfully");
    assert!(matches!(
        finished(CreateProjectContextTool::next(&c, &vec![free(), Event::Changed(false)])),
        ToolResult::Conflict { .. }
    ));
    assert!(matches!(
        finished(CreateProjectContextTool::next(&c, &vec![free(), Event::Failed])),
        ToolResult::Failed { .. }
    ));
}

fn owned_by(creator: Option<&str>) -> Event {
    let mut r = row("k", "\"v1\"", "2026-06-01T00:00:00Z", Some("d"));
    r.created_by = creator.map(str::to_string);
    Event::Context(Some(r))
}

#[test]
fn entries_are_changed_by_their_creator_or_an_operator() {
    let args = || vec![("context_key", text("k")), ("context_value", text("v2"))];
    let c = write(person(Some("bob"), vec![]), args());
    match finished(UpdateProjectContextTool::next(&c, &vec![owned_by(Some("alice"))])) {
        ToolResult::PermissionDenied { reason } => assert_eq!(
            reason,
            "key 'k' was created by 'alice'; only its creator or admin can modify it"
        ),
        other => panic!("{other:?}"),
    }
    match finished(UpdateProjectContextTool::next(&c, &vec![owned_by(None)])) {
        ToolResult::PermissionDenied { reason } => assert!(reason.contains("(unknown -- legacy entry)")),
        other => panic!("{other:?}"),
    }
    assert!(matches!(
        finished(UpdateProjectContextTool::next(&c, &vec![Event::Failed])),
        ToolResult::Failed { .. }
    ));
    let c = write(worker(), args());
    match UpdateProjectContextTool::next(&c, &vec![owned_by(Some("alice"))]) {
        Action::UpsertContext { value, description_provided, .. } => {
            assert_eq!(value, "\"v2\"");
            assert!(!description_provided);
        }
        other => panic!("{other:?}"),
    }
    let c = write(admin_agent(), args());
    assert!(matches!(
        UpdateProjectContextTool::next(&c, &vec![]),
        Action::UpsertContext { .. }
    ));
    let (data, message) = success(UpdateProjectContextTool::next(
        &c,
        &vec![Event::Done, Event::Done, Event::Texts(vec![])],
    ));
    assert_eq!(data.text_at("context_key"), Some("k"));
    assert_eq!(message, "Project context updated successfully for key 'k'.");
}

fn item(pairs: Vec<(&str, Json)>) -> Json {
    obj(pairs)
}

#[test]
fn a_batch_is_checked_whole_before_it_writes() {
    let updates = Json::List(vec![
        item(vec![("context_key", text("mine")), ("context_value", text("1"))]),
        item(vec![("context_key", text("bobs")), ("context_value", text("2"))]),
    ]);
    let c = write(worker(), vec![("updates", updates)]);
    assert!(matches!(UpdateProjectContextTool::next(&c, &vec![]), Action::GetContext { .. }));
    match UpdateProjectContextTool::next(&c, &vec![Event::Context(None)]) {
        Action::GetContext { context_key } => assert_eq!(context_key, "bobs"),
        other => panic!("{other:?}"),
    }
    let h = vec![Event::Context(None), owned_by(Some("bob"))];
    assert!(matches!(
        finished(UpdateProjectContextTool::next(&c, &h)),
        ToolResult::PermissionDenied { .. }
    ));
    let config = Json::List(vec![item(vec![
        ("context_key", text("config_auto_event_loop_global")),
        ("context_value", Json::Bool(true)),
    ])]);
    let c = write(worker(), vec![("updates", config)]);
    assert!(matches!(
        finished(UpdateProjectContextTool::next(&c, &vec![])),
        ToolResult::Invalid { .. }
    ));
}

#[test]
fn a_batch_goes_on_after_a_failure() {
    let updates = || {
        Json::List(vec![
            item(vec![("context_key", text("a")), ("context_value", jint(1))]),
            item(vec![("context_key", text("b"))]),
            item(vec![("context_key", text("c")), ("context_value", Json::Null), ("description", Json::Null)]),
        ])
    };
    let c = write(admin_agent(), vec![("updates", updates())]);
    match UpdateProjectContextTool::next(&c, &vec![]) {
        Action::UpsertContext { context_key, value, description, description_provided, .. } => {
            assert_eq!(context_key, "a");
            assert_eq!(value, "1");
            assert_eq!(description.as_deref(), Some("Bulk update operation 1"));
            assert!(!description_provided);
        }
        other => panic!("{other:?}"),
    }
    match UpdateProjectContextTool::next(&c, &vec![Event::Failed]) {
        Action::UpsertContext { context_key, description, description_provided, .. } => {
            assert_eq!(context_key, "c");
            assert_eq!(description, None);
            assert!(description_provided);
        }
        other => panic!("{other:?}"),
    }
    match UpdateProjectContextTool::next(&c, &vec![Event::Failed, Event::Done]) {
        Action::LogAction { details, .. } => {
            assert_eq!(details.text_at("operation"), Some("bulk_update_3"));
        }
        other => panic!("{other:?}"),
    }
    let h = vec![Event::Failed, Event::Done, Event::Done];
    match UpdateProjectContextTool::next(&c, &h) {
        Action::DeliverWakes { context_keys, bulk } => {
            assert_eq!(context_keys, vec!["a".to_string(), "b".to_string(), "c".to_string()]);
            assert!(bulk);
        }
        other => panic!("{other:?}"),
    }
    let h = vec![Event::Failed, Event::Done, Event::Done, Event::Texts(vec![])];
    let (data, message) = success(UpdateProjectContextTool::next(&c, &h));
    assert_eq!(data.int_at("updates_attempted"), Some(3));
    assert_eq!(
        message,
        "Bulk update completed: 1 successful, 2 failed\n\nSuccessful updates:\n✓ Updated 'c'\n\nFailed updates:\n✗ Failed 'a': database error\n✗ Failed 'b': context_value is required"
    );
    let c = write(admin_agent(), vec![("updates", updates())]);
    match finished(BulkUpdateProjectContextTool::next(&c, &vec![])) {
        ToolResult::Invalid { field, message } => {
            assert_eq!(field.as_deref(), Some("updates[1].context_value"));
            assert_eq!(message, "Update 1 missing required 'context_value'.");
        }
        other => panic!("{other:?}"),
    }
}

#[test]
fn batches_must_be_lists_of_objects() {
    for bad in [Json::List(vec![]), text("x")] {
        let c = write(worker(), vec![("updates", bad.copy())]);
        assert!(matches!(
            finished(UpdateProjectContextTool::next(&c, &vec![])),
            ToolResult::Invalid { .. }
        ));
        let c = write(worker(), vec![("updates", bad)]);
        assert!(matches!(
            finished(BulkUpdateProjectContextTool::next(&c, &vec![])),
            ToolResult::Invalid { .. }
        ));
    }
    let c = write(worker(), vec![("updates", Json::List(vec![jint(1)]))]);
    match finished(BulkUpdateProjectContextTool::next(&c, &vec![])) {
        ToolResult::Invalid { field, .. } => assert_eq!(field.as_deref(), Some("updates[0]")),
        other => panic!("{other:?}"),
    }
    let c = write(worker(), vec![("updates", Json::List(vec![item(vec![])]))]);
    match finished(BulkUpdateProjectContextTool::next(&c, &vec![])) {
        ToolResult::Invalid { field, .. } => {
            assert_eq!(field.as_deref(), Some("updates[0].context_key"));
        }
        other => panic!("{other:?}"),
    }
}

#[test]
fn summaries_leave_empty_sections_out() {
    let one = vec![BulkUpdateOutcome::Updated { context_key: "k".to_string() }];
    assert_eq!(
        render_bulk_summary(&one),
        vec![
            "Bulk update completed: 1 successful, 0 failed".to_string(),
            "\nSuccessful updates:".to_string(),
            "✓ Updated 'k'".to_string(),
        ]
    );
    assert_eq!(render_bulk_summary(&vec![]).len(), 1);
}

#[test]
fn critical_key_match_covers_prefix_and_exact_forms() {
    assert!(critical_key_match("server_startup", "server_startup"));
    assert!(critical_key_match("server_anything_else", "server_startup"));
    assert!(!critical_key_match("serverish", "server_startup"));
    assert!(critical_key_match("mcp_server_url", "mcp_server_url"));
    assert!(critical_key_match("mcp_whatever", "mcp_server_url"));
}

#[test]
fn deletion_checks_settings_then_critical_keys_then_ownership() {
    let delete = |p: Principal, args: Vec<(&str, Json)>, h: Vec<Event>| {
        DeleteProjectContextTool::next(&write(p, args), &h)
    };
    assert!(matches!(
        finished(delete(worker(), vec![("context_key", text(""))], vec![])),
        ToolResult::Invalid { .. }
    ));
    match finished(delete(write_operator(), vec![("context_key", text("config_server_startup"))], vec![])) {
        ToolResult::Invalid { field, .. } => assert_eq!(field.as_deref(), Some("context_key")),
        other => panic!("{other:?}"),
    }
    match finished(delete(admin_agent(), vec![("context_key", text("server_startup"))], vec![])) {
        ToolResult::Invalid { field, message } => {
            assert_eq!(field.as_deref(), Some("force_delete"));
            assert!(message.ends_with("without force_delete=true: [\"server_startup\"]"));
        }
        other => panic!("{other:?}"),
    }
    let list = Json::List(vec![text("mine"), jint(3), text("bobs")]);
    let h = vec![owned_by(Some("alice")), owned_by(Some("bob"))];
    assert!(matches!(
        finished(delete(worker(), vec![("context_keys", list)], h)),
        ToolResult::PermissionDenied { .. }
    ));
    let h = vec![owned_by(Some("alice"))];
    assert!(matches!(
        delete(worker(), vec![("context_key", text("k"))], h),
        Action::DeleteContexts { .. }
    ));
    let h = vec![Event::Context(None), Event::Contexts(vec![])];
    match finished(delete(worker(), vec![("context_key", text("ghost"))], h)) {
        ToolResult::NotFound { resource, identifier, .. } => {
            assert_eq!(resource, "project_context");
            assert_eq!(identifier, "ghost");
        }
        other => panic!("{other:?}"),
    }
}

#[test]
fn forced_deletions_say_what_was_critical() {
    let c = write(
        admin_agent(),
        vec![
            ("context_key", text("server_startup")),
            ("context_keys", Json::List(vec![text("plain")])),
            ("force_delete", Json::Bool(true)),
        ],
    );
    let gone = || {
        let mut plain = row("plain", "1", "2026-06-01T00:00:00Z", None);
        plain.description = None;
        Event::Contexts(vec![row("server_startup", "1", "2026-06-01T00:00:00Z", Some("d")), plain])
    };
    let mut h = vec![gone()];
    assert!(matches!(DeleteProjectContextTool::next(&c, &h), Action::LogAction { .. }));
    h.push(Event::Done);
    for key in ["server_startup", "plain"] {
        match DeleteProjectContextTool::next(&c, &h) {
            Action::PurgeSource { context_key } => assert_eq!(context_key, key),
            other => panic!("{other:?}"),
        }
        h.push(Event::Done);
    }
    assert!(matches!(
        DeleteProjectContextTool::next(&c, &h),
        Action::DeliverWakes { bulk: true, .. }
    ));
    h.push(Event::Texts(vec![]));
    let (data, message) = success(DeleteProjectContextTool::next(&c, &h));
    assert_eq!(data.int_at("deleted_count"), Some(2));
    assert_eq!(data.get("critical_keys_deleted").unwrap().compact(), "[\"server_startup\"]");
    assert_eq!(
        message,
        "Deleted 2 project context entries successfully:\n  • server_startup (d) [CRITICAL]\n  • plain\n\n⚠️  WARNING: 1 critical system keys were deleted!\nSystem functionality may be affected. Consider backing up before restart.\n\nDeletion completed at: 2026-06-01T00:01:00Z"
    );
}

#[test]
fn backups_are_written_under_a_name_made_of_the_time() {
    let mut c = write(admin_agent(), vec![]);
    c.now = "2026-06-01T12:34:56Z".to_string();
    let rows = || Event::Contexts(vec![row("a", "\"one\"", "2026-06-01T00:00:00Z", Some("d"))]);
    let mut h = vec![rows()];
    match BackupProjectContextTool::next(&c, &h) {
        Action::CreateDir { path } => assert_eq!(path, "/tmp/project/.agent/backups/context"),
        other => panic!("{other:?}"),
    }
    h.push(Event::Done);
    assert!(matches!(BackupProjectContextTool::next(&c, &h), Action::Canonicalize { .. }));
    h.push(Event::Text(Some("/real".to_string())));
    match BackupProjectContextTool::next(&c, &h) {
        Action::WriteFile { path, text } => {
            assert_eq!(path, "/real/context_backup_20260601_123456.json");
            let parsed: serde_json::Value = serde_json::from_str(&text).unwrap();
            assert_eq!(parsed["backup_name"], "context_backup_20260601_123456");
            assert_eq!(parsed["created_at"], "2026-06-01T12:34:56+00:00");
            assert_eq!(parsed["entries"][0]["context_key"], "a");
            assert_eq!(parsed["health_report"]["health_score"], 100.0);
        }
        other => panic!("{other:?}"),
    }
    h.push(Event::Done);
    match BackupProjectContextTool::next(&c, &h) {
        Action::LogAction { task_id, .. } => {
            assert_eq!(task_id.as_deref(), Some("context_backup_20260601_123456"));
        }
        other => panic!("{other:?}"),
    }
    h.push(Event::Done);
    let (data, message) = success(BackupProjectContextTool::next(&c, &h));
    assert_eq!(data.int_at("total_entries"), Some(1));
    assert!(data.get("health_report").unwrap().is_object());
    assert!(message.contains("✅ **Context Backup Created**\n   Name: context_backup_20260601_123456\n"));
    assert!(message.contains("📊 **Health Report:** 🟢 Excellent (100/100)"));
}

#[test]
fn backups_take_a_name_and_can_do_without_a_report() {
    let c = write(
        admin_agent(),
        vec![("backup_name", text("before-migration.v2")), ("include_health_report", Json::Bool(false))],
    );
    let h = vec![
        Event::Contexts(vec![]),
        Event::Done,
        Event::Text(Some("/real/".to_string())),
        Event::Done,
        Event::Done,
    ];
    let (data, message) = success(BackupProjectContextTool::next(&c, &h));
    assert_eq!(data.text_at("backup_path"), Some("/real/before-migration.v2.json"));
    assert_eq!(data.get("health_report"), Some(&Json::Null));
    assert!(!message.contains("Health Report"));
}

#[test]
fn bad_backup_names_are_refused_before_anything_is_read() {
    let long = "a".repeat(129);
    for bad in ["../../etc/passwd", "a/b", "with spaces", "", long.as_str()] {
        let c = write(admin_agent(), vec![("backup_name", text(bad))]);
        assert!(matches!(
            finished(BackupProjectContextTool::next(&c, &vec![])),
            ToolResult::Invalid { .. }
        ));
    }
}

#[test]
fn a_backup_asks_the_clock_where_the_time_cannot_be_read() {
    let mut c = write(admin_agent(), vec![]);
    c.now = "whenever".to_string();
    assert!(matches!(BackupProjectContextTool::next(&c, &vec![]), Action::Clock));
    let clock = || Event::Time(Stamp { secs: 0, nanos: 0 });
    assert!(matches!(
        BackupProjectContextTool::next(&c, &vec![clock()]),
        Action::ListContexts
    ));
    let h = vec![clock(), Event::Contexts(vec![]), Event::Failed];
    assert!(matches!(finished(BackupProjectContextTool::next(&c, &h)), ToolResult::Failed { .. }));
    let h = vec![clock(), Event::Contexts(vec![]), Event::Done, Event::Failed];
    assert!(matches!(finished(BackupProjectContextTool::next(&c, &h)), ToolResult::Invalid { .. }));
    let h = vec![
        clock(),
        Event::Contexts(vec![]),
        Event::Done,
        Event::Text(Some("/d".to_string())),
    ];
    match BackupProjectContextTool::next(&c, &h) {
        Action::WriteFile { path, .. } => {
            assert_eq!(path, "/d/context_backup_19700101_000000.json");
        }
        other => panic!("{other:?}"),
    }
}

#[test]
fn scores_are_rounded_as_double_precision_rounds_them() {
    let now = stamp("2026-06-01T00:00:00Z");
    let long = "x".repeat(LARGE_ENTRY_CHARS + 1);
    let (good, good_large) = ("1".to_string(), format!("\"{long}\""));
    let (bad, bad_large) = ("{bad".to_string(), long);
    for total in 1..=7usize {
        for stale in 0..=total {
            for broken in 0..=total {
                for large in [0, total / 2, total] {
                    let entries: Vec<ContextRow> = (0..total)
                        .map(|i| {
                            let at = if i < stale { "2026-04-01T00:00:00Z" } else { "2026-06-01T00:00:00Z" };
                            let value = match (i < broken, i < large) {
                                (false, false) => &good,
                                (false, true) => &good_large,
                                (true, false) => &bad,
                                (true, true) => &bad_large,
                            };
                            row("k", value, at, Some("d"))
                        })
                        .collect();
                    let t = total as f64;
                    let score = (100.0 - stale as f64 / t * 40.0 - broken as f64 / t * 50.0
                        - large as f64 / t * 10.0)
                        .clamp(0.0, 100.0);
                    let word = if score >= 90.0 {
                        "excellent"
                    } else if score >= 70.0 {
                        "good"
                    } else if score >= 50.0 {
                        "needs_attention"
                    } else {
                        "critical"
                    };
                    let report = analyze_context_health(&entries, now);
                    assert_eq!(report.status, word, "{stale} {broken} {large} {total}");
                    assert_eq!(report.health_score as f64 / 10.0, (score * 10.0).round() / 10.0);
                }
            }
        }
    }
}

#[test]
fn a_score_just_below_fifty_is_critical_though_it_shows_as_fifty() {
    let now = stamp("2026-06-01T00:00:00Z");
    let entries: Vec<ContextRow> = (0..6)
        .map(|i| {
            let at = if i < 5 { "2026-04-01T00:00:00Z" } else { "2026-06-01T00:00:00Z" };
            row("k", if i < 2 { "{bad" } else { "1" }, at, Some("d"))
        })
        .collect();
    let report = analyze_context_health(&entries, now);
    assert_eq!(report.health_score, 500);
    assert_eq!(report.status, "critical");
}

fn troubled(stale: usize, broken: usize, large: usize, total: usize) -> Vec<ContextRow> {
    let big = format!("\"{}\"", "x".repeat(LARGE_ENTRY_CHARS));
    let bad_and_big = "x".repeat(LARGE_ENTRY_CHARS + 1);
    (0..total)
        .map(|i| {
            let value: &str = match (i < broken, i < large) {
                (true, true) => &bad_and_big,
                (true, false) => "{bad",
                (false, true) => &big,
                (false, false) => "\"ok\"",
            };
            let at = if i < stale { "2026-01-01T00:00:00Z" } else { "2026-06-01T00:00:00Z" };
            row("k", value, at, Some("d"))
        })
        .collect()
}

#[test]
fn scores_are_the_exact_shares_to_the_nearest_tenth() {
    let now = stamp("2026-06-01T00:00:00Z");
    for (stale, broken, large, total, tenths, word) in [
        (1, 0, 0, 3, 867, "good"),
        (0, 1, 0, 7, 929, "excellent"),
        (1, 0, 2, 3, 800, "good"),
        (2, 3, 1, 9, 733, "good"),
        (3, 3, 3, 3, 0, "critical"),
        (0, 0, 0, 3, 1000, "excellent"),
        (4, 3, 2, 6, 450, "critical"),
    ] {
        let report = analyze_context_health(&troubled(stale, broken, large, total), now);
        assert_eq!(
            (report.stale_entries, report.json_errors, report.large_entries),
            (stale, broken, large)
        );
        assert_eq!(report.health_score, tenths, "{stale} {broken} {large} of {total}");
        assert_eq!(report.status, word, "{stale} {broken} {large} of {total}");
    }
}

#[test]
fn every_entry_twice_makes_the_same_score() {
    let now = stamp("2026-06-01T00:00:00Z");
    for total in 1..12 {
        for broken in 0..=total {
            let once = analyze_context_health(&troubled(total - broken, broken, total / 2, total), now);
            let mut twice = troubled(total - broken, broken, total / 2, total);
            twice.extend(troubled(total - broken, broken, total / 2, total));
            let twice = analyze_context_health(&twice, now);
            assert_eq!(once.health_score, twice.health_score);
            assert_eq!(once.status, twice.status);
        }
    }
}

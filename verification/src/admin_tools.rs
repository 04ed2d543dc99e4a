//! Tools for operators: the audit trail, the agents' tokens, the server's
//! status and the registration of agents.

use crate::json::{
    bool_field, int_field, int_json, jint, jlen, jopt, jtext, opt_json, text_field, Fields, Items,
    Json, JsonView,
};
use crate::principal::{actor_label, label_or, Principal, PrincipalView};
use crate::protocol::{
    action_rows, agent_rows, conflict, conflict_view, db_error, db_error_text, done,
    done_view, events, failed, failed_view, invalid, invalid_view, Action, ActionRow,
    ActionRowView, ActionView, AgentFilters, AgentFiltersView, AgentRow, AgentRowView, Call,
    CallView, Event, EventView, NewAgent, NewAgentView, ResultView,
};
use crate::text::{
    ascii_lower, begins_with, borrow_opt, cat2, cat3, cat4, cat5, copy_opt, decimal,
    decimal_int, has_char, lowercase, opt, opt_str, own, own_opt, quote, quoted, same, show_i64,
    show_usize, starts_with, to_ascii_lower, trim, trim_end_of, trimmed, without_trailing,
};
use vstd::prelude::*;

verus! {

// ---------------------------------------------------------------------
// Tokens
// ---------------------------------------------------------------------

/// The error of the operating system's random source.
#[verifier::external_type_specification]
#[verifier::external_body]
pub struct ExRandomError(getrandom::Error);

/// `getrandom::fill`: fills `bytes` from the operating system's random
/// source. Nothing is said of the bytes, nor of when the source fails.
#[verifier::external_body]
fn fill_random(bytes: &mut Vec<u8>) -> (r: Result<(), getrandom::Error>)
    ensures
        final(bytes)@.len() == old(bytes)@.len(),
{
    getrandom::fill(bytes)
}

/// A digit of hexadecimal notation, with lowercase letters.
pub open spec fn hex_digit(d: int) -> char {
    if d < 10 {
        ((48 + d) as u8) as char
    } else {
        ((87 + d) as u8) as char
    }
}

/// Two hexadecimal digits for each byte, the higher first.
pub open spec fn hex_text(bytes: Seq<u8>) -> Seq<char>
    decreases bytes.len(),
{
    if bytes.len() == 0 {
        Seq::empty()
    } else {
        hex_text(bytes.drop_last()).push(hex_digit(bytes.last() as int / 16)).push(
            hex_digit(bytes.last() as int % 16),
        )
    }
}

/// `hex::encode`: two lowercase hexadecimal digits for each byte.
#[verifier::external_body]
fn hex_encode(bytes: &Vec<u8>) -> (r: String)
    ensures
        r@ == hex_text(bytes@),
{
    hex::encode(bytes)
}

/// The token that `bytes` spell.
pub fn token_of(bytes: &Vec<u8>) -> (r: String)
    ensures
        r@ == hex_text(bytes@),
{
    hex_encode(bytes)
}

/// Whether `s` is a bearer token: 32 hexadecimal digits, 128 bits.
pub open spec fn is_token(s: Seq<char>) -> bool {
    exists|bytes: Seq<u8>| bytes.len() == 16 && s == #[trigger] hex_text(bytes)
}

/// A bearer token is 32 hexadecimal digits long.
pub proof fn token_length(bytes: Seq<u8>)
    ensures
        hex_text(bytes).len() == 2 * bytes.len(),
        forall|i: int|
            0 <= i < hex_text(bytes).len() ==> {
                let c = #[trigger] hex_text(bytes)[i];
                '0' <= c <= '9' || 'a' <= c <= 'f'
            },
    decreases bytes.len(),
{
    if bytes.len() > 0 {
        token_length(bytes.drop_last());
    }
}

/// What comes of filling `bytes` at random: the token that they spell where
/// the random source filled them, none where it failed.
pub fn minted(filled: Result<(), getrandom::Error>, bytes: &Vec<u8>) -> (r: Option<String>)
    ensures
        match r {
            Some(t) => filled is Ok && t@ == hex_text(bytes@),
            None => filled is Err,
        },
{
    match filled {
        Ok(()) => Some(token_of(bytes)),
        Err(_e) => None,
    }
}

/// A new bearer token from the operating system's random source, which is
/// asked for 16 bytes; `None` where that source fails, as `minted` says. When
/// it fails is the operating system's matter, and nothing is said of it here.
pub fn generate_token() -> (r: Option<String>)
    ensures
        match r {
            Some(t) => is_token(t@) && t@.len() == 32,
            None => true,
        },
{
    let mut bytes: Vec<u8> = Vec::new();
    let mut i: usize = 0;
    while i < 16
        invariant
            i <= 16,
            bytes@.len() == i,
        decreases 16 - i,
    {
        bytes.push(0u8);
        i = i + 1;
    }
    let filled: Result<(), getrandom::Error> = fill_random(&mut bytes);
    proof {
        token_length(bytes@);
    }
    minted(filled, &bytes)
}

// ---------------------------------------------------------------------
// Colours
// ---------------------------------------------------------------------

/// The colours that agents get in turn.
pub const AGENT_COLORS: [&'static str; 18] = [
    "#FF5733", "#33FF57", "#3357FF", "#FF33A1", "#A133FF", "#33FFA1", "#FFBD33", "#33FFBD",
    "#BD33FF", "#FF3333", "#33FF33", "#3333FF", "#FF8C00", "#00CED1", "#9400D3", "#FF1493",
    "#7FFF00", "#1E90FF",
];

/// The colour of number `index` in the endless round.
pub open spec fn agent_color(index: int) -> Seq<char> {
    AGENT_COLORS[index % 18]@
}

/// The colour of number `index` in the endless round.
pub fn next_agent_color(index: usize) -> (r: &'static str)
    ensures
        r@ == agent_color(index as int),
{
    AGENT_COLORS[index % 18]
}

/// The round of colours starts over after eighteen.
pub proof fn agent_colors_repeat(index: int, rounds: int)
    ensures
        agent_color(index + 18 * rounds) == agent_color(index),
{
    assert((index + 18 * rounds) % 18 == index % 18) by (nonlinear_arith);
}

// ---------------------------------------------------------------------
// Masking
// ---------------------------------------------------------------------

/// What stands in place of a secret.
pub const REDACTED_TOKEN: &'static str = "***";

/// The columns of an agent's row that hold a credential.
pub const AGENT_SECRET_FIELDS: [&'static str; 2] = ["token", "aoe_session_id"];

/// An agent's row as a JSON object.
pub open spec fn agent_json(row: AgentRowView) -> Map<Seq<char>, JsonView> {
    map![
        "token"@ => JsonView::Text(row.token),
        "agent_id"@ => JsonView::Text(row.agent_id),
        "created_at"@ => JsonView::Text(row.created_at),
        "status"@ => JsonView::Text(row.status),
        "current_task"@ => opt_json(row.current_task),
        "working_directory"@ => JsonView::Text(row.working_directory),
        "color"@ => opt_json(row.color),
        "terminated_at"@ => opt_json(row.terminated_at),
        "updated_at"@ => opt_json(row.updated_at),
        "aoe_session_id"@ => opt_json(row.aoe_session_id),
        "auto_event_loop"@ => JsonView::Bool(row.auto_event_loop),
        "last_event_seen_at"@ => opt_json(row.last_event_seen_at),
        "last_activity_at"@ => opt_json(row.last_activity_at),
        "agent_role"@ => JsonView::Text(row.agent_role),
        "profile"@ => opt_json(row.profile),
        "profile_updated_at"@ => opt_json(row.profile_updated_at),
        "profile_reviewed_at"@ => opt_json(row.profile_reviewed_at),
        "profile_updated_by"@ => opt_json(row.profile_updated_by)
    ]
}

/// An agent's row as a caller sees it: with its secrets for a confirmed
/// operator, with a mask in their place for anyone else.
pub open spec fn redacted(row: AgentRowView, confirmed: bool) -> Map<Seq<char>, JsonView> {
    if confirmed {
        agent_json(row)
    } else {
        agent_json(row).insert(AGENT_SECRET_FIELDS[0]@, JsonView::Text(REDACTED_TOKEN@)).insert(
            AGENT_SECRET_FIELDS[1]@,
            JsonView::Text(REDACTED_TOKEN@),
        )
    }
}

/// The row as the caller sees it.
pub fn redact_agent_row(row: &AgentRow, confirmed_operator_tier: bool) -> (r: Json)
    ensures
        r@ == JsonView::Object(redacted(row@, confirmed_operator_tier)),
{
    let mut f: Fields = Fields::new();
    f.put("token", jtext(row.token.as_str()));
    f.put("agent_id", jtext(row.agent_id.as_str()));
    f.put("created_at", jtext(row.created_at.as_str()));
    f.put("status", jtext(row.status.as_str()));
    f.put("current_task", jopt(borrow_opt(&row.current_task)));
    f.put("working_directory", jtext(row.working_directory.as_str()));
    f.put("color", jopt(borrow_opt(&row.color)));
    f.put("terminated_at", jopt(borrow_opt(&row.terminated_at)));
    f.put("updated_at", jopt(borrow_opt(&row.updated_at)));
    f.put("aoe_session_id", jopt(borrow_opt(&row.aoe_session_id)));
    f.put("auto_event_loop", Json::Bool(row.auto_event_loop));
    f.put("last_event_seen_at", jopt(borrow_opt(&row.last_event_seen_at)));
    f.put("last_activity_at", jopt(borrow_opt(&row.last_activity_at)));
    f.put("agent_role", jtext(row.agent_role.as_str()));
    f.put("profile", jopt(borrow_opt(&row.profile)));
    f.put("profile_updated_at", jopt(borrow_opt(&row.profile_updated_at)));
    f.put("profile_reviewed_at", jopt(borrow_opt(&row.profile_reviewed_at)));
    f.put("profile_updated_by", jopt(borrow_opt(&row.profile_updated_by)));
    if !confirmed_operator_tier {
        f.put(AGENT_SECRET_FIELDS[0], jtext(REDACTED_TOKEN));
        f.put(AGENT_SECRET_FIELDS[1], jtext(REDACTED_TOKEN));
    }
    f.done()
}

/// Masking keeps every key, hides both secrets whatever the row holds, and
/// leaves every other value as it is.
pub proof fn redaction_hides_the_secrets_only(row: AgentRowView)
    ensures
        redacted(row, false).dom() =~= redacted(row, true).dom(),
        redacted(row, false)["token"@] == JsonView::Text(REDACTED_TOKEN@),
        redacted(row, false)["aoe_session_id"@] == JsonView::Text(REDACTED_TOKEN@),
        forall|key: Seq<char>|
            key != "token"@ && key != "aoe_session_id"@ ==> redacted(row, false)[key] == redacted(
                row,
                true,
            )[key],
{
    reveal_strlit("token");
    reveal_strlit("aoe_session_id");
    assert("token"@.len() != "aoe_session_id"@.len());
}

// ---------------------------------------------------------------------
// The configuration snippet
// ---------------------------------------------------------------------

/// The host that a snippet names when nobody said where the server is.
pub const DEFAULT_REGISTER_AGENT_URL_BASE: &'static str =
    "https://REPLACE_WITH_YOUR_AGENT_MCP_HOST";

/// Whether a text says something.
pub open spec fn says(s: Option<Seq<char>>) -> bool {
    s is Some && trimmed(s->0).len() > 0
}

/// The host for a snippet: what the caller asked for, else what the
/// environment says, else the placeholder. Trailing slashes are dropped.
pub open spec fn snippet_host(host: Option<Seq<char>>, env: Option<Seq<char>>) -> Seq<char> {
    if says(host) {
        without_trailing(trimmed(host->0), '/')
    } else if says(env) {
        without_trailing(trimmed(env->0), '/')
    } else {
        DEFAULT_REGISTER_AGENT_URL_BASE@
    }
}

/// The host that one source names, where it names one.
fn named_host(source: Option<&str>) -> (r: Option<String>)
    ensures
        match r {
            Some(h) => says(opt_str(source)) && h@ == without_trailing(
                trimmed(opt_str(source)->0),
                '/',
            ),
            None => !says(opt_str(source)),
        },
{
    match source {
        Some(raw) => {
            let t: String = trim(raw);
            if t.as_str().is_empty() {
                None
            } else {
                Some(trim_end_of(t.as_str(), '/'))
            }
        },
        None => None,
    }
}

/// The host for a snippet, from the caller's wish and the environment's
/// answer.
pub fn choose_snippet_host(host_arg: Option<&str>, env: Option<&str>) -> (r: String)
    ensures
        r@ == snippet_host(opt_str(host_arg), opt_str(env)),
{
    match named_host(host_arg) {
        Some(h) => h,
        None => match named_host(env) {
            Some(h) => h,
            None => own(DEFAULT_REGISTER_AGENT_URL_BASE),
        },
    }
}

/// The host for a snippet. The environment is asked only where the caller
/// named no host.
pub fn resolve_snippet_host<F: Fn(&str) -> Option<String>>(
    host_arg: Option<&str>,
    get_env: F,
) -> (r: String)
    requires
        call_requires(get_env, ("AGENT_MCP_EXTERNAL_URL",)),
    ensures
        says(opt_str(host_arg)) ==> r@ == snippet_host(opt_str(host_arg), None),
        !says(opt_str(host_arg)) ==> exists|env: Option<String>|
            #[trigger] call_ensures(get_env, ("AGENT_MCP_EXTERNAL_URL",), env) && r@
                == snippet_host(opt_str(host_arg), opt(env)),
{
    match named_host(host_arg) {
        Some(h) => h,
        None => {
            let env: Option<String> = get_env("AGENT_MCP_EXTERNAL_URL");
            choose_snippet_host(host_arg, borrow_opt(&env))
        },
    }
}

/// The project for a snippet: what the caller asked for, else the project
/// that the caller came through.
pub open spec fn snippet_project(
    project: Option<Seq<char>>,
    principal: Option<PrincipalView>,
) -> Option<Seq<char>> {
    if says(project) {
        Some(trimmed(project->0))
    } else {
        match principal {
            Some(p) => p.project_name,
            None => None,
        }
    }
}

/// The project for a snippet.
pub fn resolve_snippet_project(
    project_name_arg: Option<&str>,
    principal: Option<&Principal>,
) -> (r: Option<String>)
    ensures
        opt(r) == snippet_project(
            opt_str(project_name_arg),
            crate::principal::caller_view(principal),
        ),
{
    match project_name_arg {
        Some(raw) => {
            let t: String = trim(raw);
            if !t.as_str().is_empty() {
                return Some(t);
            }
        },
        None => {},
    }
    match principal {
        Some(p) => copy_opt(&p.project_name),
        None => None,
    }
}

/// The address of the server for a project.
pub open spec fn snippet_url(
    project: Option<Seq<char>>,
    host: Seq<char>,
    mount_prefix: Seq<char>,
) -> Seq<char> {
    match project {
        Some(p) => host + mount_prefix + "/mcp/"@ + p,
        None => host + "/mcp"@,
    }
}

/// The configuration that lets a client reach the server.
pub open spec fn snippet_json(
    project: Option<Seq<char>>,
    token: Seq<char>,
    host: Seq<char>,
    mount_prefix: Seq<char>,
) -> JsonView {
    JsonView::Object(
        map![
        "mcpServers"@ => JsonView::Object(map![
            "agent-mcp"@ => JsonView::Object(map![
                "type"@ => JsonView::Text("http"@),
                "url"@ => JsonView::Text(snippet_url(project, host, mount_prefix)),
                "headers"@ => JsonView::Object(map![
                    "Authorization"@ => JsonView::Text("Bearer "@ + token)
                ])
            ])
        ])
    ],
    )
}

/// The text of the configuration that lets a client reach the server.
pub fn build_mcp_config_snippet(
    project: Option<&str>,
    token: &str,
    host: &str,
    mount_prefix: &str,
) -> (r: String)
    ensures
        r@ == crate::json::pretty_text(
            snippet_json(opt_str(project), token@, host@, mount_prefix@),
        ),
{
    let url: String = match project {
        Some(p) => cat4(host, mount_prefix, "/mcp/", p),
        None => cat2(host, "/mcp"),
    };
    let bearer: String = cat2("Bearer ", token);
    let mut headers: Fields = Fields::new();
    headers.put("Authorization", jtext(bearer.as_str()));
    let mut server: Fields = Fields::new();
    server.put("type", jtext("http"));
    server.put("url", jtext(url.as_str()));
    server.put("headers", headers.done());
    let mut servers: Fields = Fields::new();
    servers.put("agent-mcp", server.done());
    let mut snippet: Fields = Fields::new();
    snippet.put("mcpServers", servers.done());
    let json: Json = snippet.done();
    json.pretty()
}

// ---------------------------------------------------------------------
// view_audit_log
// ---------------------------------------------------------------------

/// How many lines of the audit trail a call gets: 50 unless it asks for a
/// number from 1 to 200.
pub open spec fn audit_limit(arguments: JsonView) -> i64 {
    match int_field(arguments, "limit"@) {
        Some(n) => if 1 <= n <= 200 {
            n
        } else {
            50
        },
        None => 50,
    }
}

/// How many lines of the audit trail a call gets.
pub fn clamp_audit_log_limit(arguments: &Json) -> (r: i64)
    ensures
        r == audit_limit(arguments@),
        1 <= r <= 200,
{
    match arguments.int_at("limit") {
        Some(n) => if 1 <= n && n <= 200 {
            n
        } else {
            50
        },
        None => 50,
    }
}

/// A line of the audit trail as a JSON object.
pub open spec fn audit_entry(row: ActionRowView) -> JsonView {
    JsonView::Object(
        map![
        "timestamp"@ => JsonView::Text(row.timestamp),
        "agent_id"@ => JsonView::Text(row.agent_id),
        "action"@ => JsonView::Text(row.action_type),
        "details"@ => opt_json(row.details)
    ],
    )
}

/// The lines of the audit trail as a JSON list.
pub open spec fn audit_entries(rows: Seq<ActionRowView>) -> JsonView {
    JsonView::List(rows.map_values(|r: ActionRowView| audit_entry(r)))
}

/// `s`, or `Any` where there is none.
pub open spec fn or_any(s: Option<Seq<char>>) -> Seq<char> {
    match s {
        Some(t) => t,
        None => "Any"@,
    }
}

/// The dialogue of `view_audit_log`.
pub open spec fn view_audit_log_next(c: CallView, h: Seq<EventView>) -> ActionView {
    let agent_id = text_field(c.arguments, "agent_id"@);
    let action_type = text_field(c.arguments, "action"@);
    let limit = audit_limit(c.arguments);
    if h.len() == 0 {
        ActionView::ListActions { agent_id, action_type, limit }
    } else {
        match h[0] {
            EventView::Actions(rows) => done_view(
                JsonView::Object(
                    map![
                    "entries"@ => audit_entries(rows),
                    "count"@ => int_json(rows.len() as int),
                    "filter_agent_id"@ => opt_json(agent_id),
                    "filter_action"@ => opt_json(action_type),
                    "limit"@ => int_json(limit as int)
                ],
                ),
                "Audit Log ("@ + decimal(rows.len()) + " entries displayed, filtered by agent: "@
                    + or_any(agent_id) + ", action: "@ + or_any(action_type) + "):\n"@
                    + crate::json::pretty_text(audit_entries(rows)),
            ),
            _ => failed_view(db_error_text()),
        }
    }
}

fn any_or<'a>(s: Option<&'a str>) -> (r: &'a str)
    ensures
        r@ == or_any(opt_str(s)),
{
    match s {
        Some(t) => t,
        None => "Any",
    }
}

fn audit_list(rows: &Vec<ActionRow>) -> (r: Json)
    ensures
        r@ == audit_entries(action_rows(rows@)),
{
    let mut items: Items = Items::new();
    let mut i: usize = 0;
    while i < rows.len()
        invariant
            i <= rows@.len(),
            items@.len() == i,
            forall|k: int| 0 <= k < i ==> #[trigger] items@[k] == audit_entry(rows@[k]@),
        decreases rows@.len() - i,
    {
        let row: &ActionRow = &rows[i];
        let mut f: Fields = Fields::new();
        f.put("timestamp", jtext(row.timestamp.as_str()));
        f.put("agent_id", jtext(row.agent_id.as_str()));
        f.put("action", jtext(row.action_type.as_str()));
        f.put("details", jopt(borrow_opt(&row.details)));
        items.push(f.done());
        i = i + 1;
    }
    proof {
        assert(items@ =~= action_rows(rows@).map_values(|r: ActionRowView| audit_entry(r)));
    }
    items.done()
}

/// `view_audit_log`: the latest lines of the audit trail.
pub struct ViewAuditLogTool;

impl ViewAuditLogTool {
    /// What to do after `history`.
    pub fn next(call: &Call, history: &Vec<Event>) -> (r: Action)
        ensures
            r@ == view_audit_log_next(call@, events(history@)),
    {
        let agent_id: Option<&str> = call.arguments.text_at("agent_id");
        let action_type: Option<&str> = call.arguments.text_at("action");
        let limit: i64 = clamp_audit_log_limit(&call.arguments);
        if history.len() == 0 {
            return Action::ListActions {
                agent_id: own_opt(agent_id),
                action_type: own_opt(action_type),
                limit,
            };
        }
        match &history[0] {
            Event::Actions(rows) => {
                let entries: Json = audit_list(rows);
                let log: String = entries.pretty();
                let count: String = show_usize(rows.len());
                let head: String = cat5(
                    "Audit Log (",
                    count.as_str(),
                    " entries displayed, filtered by agent: ",
                    any_or(agent_id),
                    ", action: ",
                );
                let message: String = cat4(head.as_str(), any_or(action_type), "):\n", log.as_str());
                let mut f: Fields = Fields::new();
                f.put("entries", entries);
                f.put("count", jlen(rows.len()));
                f.put("filter_agent_id", jopt(agent_id));
                f.put("filter_action", jopt(action_type));
                f.put("limit", jint(limit));
                done(f.done(), message)
            },
            _ => db_error(),
        }
    }
}

// ---------------------------------------------------------------------
// get_agent_tokens
// ---------------------------------------------------------------------

/// The column by which agents are sorted: the one asked for where agents can
/// be sorted by it, else the creation time.
pub open spec fn agent_sort_column(raw: Seq<char>) -> Seq<char> {
    if raw == "agent_id"@ || raw == "status"@ || raw == "terminated_at"@ {
        raw
    } else {
        "created_at"@
    }
}

/// The column by which agents are sorted.
pub fn effective_agent_sort_by(raw: &str) -> (r: &'static str)
    ensures
        r@ == agent_sort_column(raw@),
{
    if same(raw, "agent_id") {
        "agent_id"
    } else if same(raw, "status") {
        "status"
    } else if same(raw, "terminated_at") {
        "terminated_at"
    } else {
        "created_at"
    }
}

/// The sort order: ascending where `ASC` is asked for in any letter case,
/// else descending.
pub open spec fn sort_direction(raw: Seq<char>) -> Seq<char> {
    if ascii_lower(raw) == ascii_lower("ASC"@) {
        "ASC"@
    } else {
        "DESC"@
    }
}

/// The sort order.
pub fn effective_sort_order(raw: &str) -> (r: &'static str)
    ensures
        r@ == sort_direction(raw@),
{
    let a: String = to_ascii_lower(raw);
    let b: String = to_ascii_lower("ASC");
    if same(a.as_str(), b.as_str()) {
        "ASC"
    } else {
        "DESC"
    }
}

/// `s`, or `fallback` where there is none.
pub open spec fn text_or(s: Option<Seq<char>>, fallback: Seq<char>) -> Seq<char> {
    match s {
        Some(t) => t,
        None => fallback,
    }
}

/// `s`, or `fallback` where there is none.
pub fn str_or<'a>(s: Option<&'a str>, fallback: &'a str) -> (r: &'a str)
    ensures
        r@ == text_or(opt_str(s), fallback@),
{
    match s {
        Some(t) => t,
        None => fallback,
    }
}

/// The agents that a call asks for.
pub open spec fn token_filters(args: JsonView) -> AgentFiltersView {
    AgentFiltersView {
        status: text_field(args, "filter_status"@),
        agent_id_pattern: text_field(args, "filter_agent_id_pattern"@),
        include_terminated: bool_field(args, "include_terminated"@) == Some(true),
        created_after: text_field(args, "filter_created_after"@),
        created_before: text_field(args, "filter_created_before"@),
        sort_by: agent_sort_column(text_or(text_field(args, "sort_by"@), "created_at"@)),
        sort_order: sort_direction(text_or(text_field(args, "sort_order"@), "DESC"@)),
        limit: match int_field(args, "limit"@) {
            Some(n) => if 1 <= n <= 500 {
                n
            } else {
                50
            },
            None => 50,
        },
        offset: match int_field(args, "offset"@) {
            Some(n) => if n >= 0 {
                n
            } else {
                0
            },
            None => 0,
        },
    }
}

fn token_query(args: &Json) -> (r: AgentFilters)
    ensures
        r@ == token_filters(args@),
{
    AgentFilters {
        status: own_opt(args.text_at("filter_status")),
        agent_id_pattern: own_opt(args.text_at("filter_agent_id_pattern")),
        include_terminated: is_true(args.flag_at("include_terminated")),
        created_after: own_opt(args.text_at("filter_created_after")),
        created_before: own_opt(args.text_at("filter_created_before")),
        sort_by: own(effective_agent_sort_by(str_or(args.text_at("sort_by"), "created_at"))),
        sort_order: own(effective_sort_order(str_or(args.text_at("sort_order"), "DESC"))),
        limit: match args.int_at("limit") {
            Some(n) => if 1 <= n && n <= 500 {
                n
            } else {
                50
            },
            None => 50,
        },
        offset: match args.int_at("offset") {
            Some(n) => if n >= 0 {
                n
            } else {
                0
            },
            None => 0,
        },
    }
}

/// Whether a flag is set and true.
pub fn is_true(b: Option<bool>) -> (r: bool)
    ensures
        r == (b == Some(true)),
{
    match b {
        Some(x) => x,
        None => false,
    }
}

/// Whether a call gets to see tokens: it must ask for them, and the caller
/// must be a confirmed operator.
pub open spec fn tokens_exposed(c: CallView) -> bool {
    bool_field(c.arguments, "include_sensitive_data"@) == Some(true) && match c.principal {
        Some(p) => p.confirmed_operator_tier,
        None => false,
    }
}

/// The data that `get_agent_tokens` returns.
pub open spec fn tokens_data(c: CallView, rows: Seq<AgentRowView>, total: i64) -> JsonView {
    let filters = token_filters(c.arguments);
    JsonView::Object(
        map![
        "agents"@ => JsonView::List(
            rows.map_values(
                |row: AgentRowView| JsonView::Object(redacted(row, tokens_exposed(c))),
            ),
        ),
        "pagination"@ => JsonView::Object(map![
            "offset"@ => int_json(filters.offset as int),
            "limit"@ => int_json(filters.limit as int),
            "total_count"@ => int_json(total as int),
            "returned_count"@ => int_json(rows.len() as int),
            "has_more"@ => JsonView::Bool(filters.offset + rows.len() < total)
        ]),
        "filters_applied"@ => JsonView::Object(map![
            "filter_status"@ => opt_json(filters.status),
            "filter_agent_id_pattern"@ => opt_json(filters.agent_id_pattern),
            "filter_created_after"@ => opt_json(filters.created_after),
            "filter_created_before"@ => opt_json(filters.created_before),
            "include_terminated"@ => JsonView::Bool(filters.include_terminated),
            "include_sensitive_data"@ => JsonView::Bool(tokens_exposed(c))
        ]),
        "sort"@ => JsonView::Object(map![
            "sort_by"@ => JsonView::Text(filters.sort_by),
            "sort_order"@ => JsonView::Text(filters.sort_order)
        ])
    ],
    )
}

/// The dialogue of `get_agent_tokens`.
pub open spec fn get_agent_tokens_next(c: CallView, h: Seq<EventView>) -> ActionView {
    let filters = token_filters(c.arguments);
    if h.len() == 0 {
        ActionView::QueryAgents(filters)
    } else {
        match h[0] {
            EventView::AgentPage { rows, total } => if h.len() == 1 {
                ActionView::LogAction {
                    agent_id: label_or(c.principal, "operator"@),
                    action_type: "get_agent_tokens"@,
                    task_id: None,
                    details: JsonView::Object(
                        map![
                        "filter_status"@ => opt_json(filters.status),
                        "filter_agent_id_pattern"@ => opt_json(filters.agent_id_pattern),
                        "agents_returned"@ => int_json(rows.len() as int),
                        "total_matching"@ => int_json(total as int),
                        "include_sensitive_data"@ => JsonView::Bool(
                            bool_field(c.arguments, "include_sensitive_data"@) == Some(true),
                        ),
                        "tokens_exposed"@ => JsonView::Bool(tokens_exposed(c))
                    ],
                    ),
                    timestamp: c.now,
                }
            } else {
                done_view(
                    tokens_data(c, rows, total),
                    "Agent Tokens ("@ + decimal(rows.len()) + " of "@ + decimal_int(total as int)
                        + " total):\n"@ + crate::json::pretty_text(tokens_data(c, rows, total)),
                )
            },
            _ => failed_view(db_error_text()),
        }
    }
}

/// Unless a confirmed operator asks for them, `get_agent_tokens` returns no
/// token: every row it lists is masked.
pub proof fn tokens_stay_masked(c: CallView, rows: Seq<AgentRowView>, total: i64)
    requires
        !tokens_exposed(c),
    ensures
        match crate::json::list_field(tokens_data(c, rows, total), "agents"@) {
            Some(agents) => agents.len() == rows.len() && forall|i: int|
                0 <= i < agents.len() ==> {
                    &&& #[trigger] text_field(agents[i], "token"@) == Some(REDACTED_TOKEN@)
                    &&& text_field(agents[i], "aoe_session_id"@) == Some(REDACTED_TOKEN@)
                },
            None => false,
        },
{
    reveal_strlit("agents");
    reveal_strlit("pagination");
    reveal_strlit("filters_applied");
    reveal_strlit("sort");
    assert("agents"@.len() == 6 && "pagination"@.len() == 10 && "filters_applied"@.len() == 15
        && "sort"@.len() == 4);
    assert forall|i: int| 0 <= i < rows.len() implies {
        &&& redacted(#[trigger] rows[i], false)["token"@] == JsonView::Text(REDACTED_TOKEN@)
        &&& redacted(rows[i], false)["aoe_session_id"@] == JsonView::Text(REDACTED_TOKEN@)
    } by {
        redaction_hides_the_secrets_only(rows[i]);
    }
}

/// `get_agent_tokens`: the agents with their tokens.
pub struct GetAgentTokensTool;

impl GetAgentTokensTool {
    fn data(call: &Call, rows: &Vec<AgentRow>, total: i64, expose: bool) -> (r: Json)
        requires
            expose == tokens_exposed(call@),
        ensures
            r@ == tokens_data(call@, agent_rows(rows@), total),
    {
        let query: AgentFilters = token_query(&call.arguments);
        let mut agents: Items = Items::new();
        let mut i: usize = 0;
        while i < rows.len()
            invariant
                i <= rows@.len(),
                agents@.len() == i,
                forall|k: int|
                    0 <= k < i ==> #[trigger] agents@[k] == JsonView::Object(
                        redacted(rows@[k]@, expose),
                    ),
            decreases rows@.len() - i,
        {
            agents.push(redact_agent_row(&rows[i], expose));
            i = i + 1;
        }
        proof {
            assert(agents@ =~= agent_rows(rows@).map_values(
                |row: AgentRowView| JsonView::Object(redacted(row, expose)),
            ));
        }
        let has_more: bool = (query.offset as i128) + (rows.len() as i128) < total as i128;
        let mut pagination: Fields = Fields::new();
        pagination.put("offset", jint(query.offset));
        pagination.put("limit", jint(query.limit));
        pagination.put("total_count", jint(total));
        pagination.put("returned_count", jlen(rows.len()));
        pagination.put("has_more", Json::Bool(has_more));
        let mut filters: Fields = Fields::new();
        filters.put("filter_status", jopt(borrow_opt(&query.status)));
        filters.put("filter_agent_id_pattern", jopt(borrow_opt(&query.agent_id_pattern)));
        filters.put("filter_created_after", jopt(borrow_opt(&query.created_after)));
        filters.put("filter_created_before", jopt(borrow_opt(&query.created_before)));
        filters.put("include_terminated", Json::Bool(query.include_terminated));
        filters.put("include_sensitive_data", Json::Bool(expose));
        let mut sort: Fields = Fields::new();
        sort.put("sort_by", jtext(query.sort_by.as_str()));
        sort.put("sort_order", jtext(query.sort_order.as_str()));
        let mut f: Fields = Fields::new();
        f.put("agents", agents.done());
        f.put("pagination", pagination.done());
        f.put("filters_applied", filters.done());
        f.put("sort", sort.done());
        f.done()
    }

    /// What to do after `history`.
    pub fn next(call: &Call, history: &Vec<Event>) -> (r: Action)
        ensures
            r@ == get_agent_tokens_next(call@, events(history@)),
    {
        let query: AgentFilters = token_query(&call.arguments);
        if history.len() == 0 {
            return Action::QueryAgents(query);
        }
        let asked: bool = is_true(call.arguments.flag_at("include_sensitive_data"));
        let expose: bool = asked && match call.caller() {
            Some(p) => p.confirmed_operator_tier,
            None => false,
        };
        match &history[0] {
            Event::AgentPage { rows, total } => {
                if history.len() == 1 {
                    let mut f: Fields = Fields::new();
                    f.put("filter_status", jopt(borrow_opt(&query.status)));
                    f.put("filter_agent_id_pattern", jopt(borrow_opt(&query.agent_id_pattern)));
                    f.put("agents_returned", jlen(rows.len()));
                    f.put("total_matching", jint(*total));
                    f.put("include_sensitive_data", Json::Bool(asked));
                    f.put("tokens_exposed", Json::Bool(expose));
                    return Action::LogAction {
                        agent_id: own(actor_label(call.caller(), "operator")),
                        action_type: own("get_agent_tokens"),
                        task_id: None,
                        details: f.done(),
                        timestamp: own(call.now.as_str()),
                    };
                }
                let data: Json = GetAgentTokensTool::data(call, rows, *total, expose);
                let text: String = data.pretty();
                let shown: String = show_usize(rows.len());
                let all: String = show_i64(*total);
                let head: String = cat5(
                    "Agent Tokens (",
                    shown.as_str(),
                    " of ",
                    all.as_str(),
                    " total):\n",
                );
                done(data, cat2(head.as_str(), text.as_str()))
            },
            _ => db_error(),
        }
    }
}

// ---------------------------------------------------------------------
// view_status
// ---------------------------------------------------------------------

/// The agents of a list that are no system entry.
pub open spec fn live_agents(rows: Seq<AgentRowView>) -> Seq<AgentRowView> {
    rows.filter(|r: AgentRowView| r.status != "system"@)
}

/// What the status says of an agent.
pub open spec fn status_entry(row: AgentRowView) -> JsonView {
    JsonView::Object(
        map![
        "status"@ => JsonView::Text(row.status),
        "current_task"@ => opt_json(row.current_task),
        "working_directory"@ => JsonView::Text(row.working_directory),
        "color"@ => JsonView::Text(text_or(row.color, "N/A"@))
    ],
    )
}

/// The agents by their ids.
pub open spec fn agents_details(rows: Seq<AgentRowView>) -> Map<Seq<char>, JsonView>
    decreases rows.len(),
{
    if rows.len() == 0 {
        Map::empty()
    } else {
        agents_details(rows.drop_last()).insert(rows.last().agent_id, status_entry(rows.last()))
    }
}

/// The server's status.
pub open spec fn status_data(
    rows: Seq<AgentRowView>,
    size: usize,
    preview: Map<Seq<char>, JsonView>,
) -> JsonView {
    JsonView::Object(
        map![
        "active_connections"@ => int_json(0),
        "active_agents_count"@ => int_json(live_agents(rows).len() as int),
        "agents_details"@ => JsonView::Object(agents_details(live_agents(rows))),
        "server_uptime"@ => JsonView::Text("N/A"@),
        "file_map_size"@ => int_json(size as int),
        "file_map_preview"@ => JsonView::Object(preview)
    ],
    )
}

/// The dialogue of `view_status`.
pub open spec fn view_status_next(h: Seq<EventView>) -> ActionView {
    if h.len() == 0 {
        ActionView::ListActiveAgents
    } else {
        match h[0] {
            EventView::Agents(rows) => if h.len() == 1 {
                ActionView::FileMapStatus { preview: 5 }
            } else {
                match h[1] {
                    EventView::FileMap { size, preview } => done_view(
                        status_data(rows, size, preview),
                        "MCP Server Status:\n"@ + crate::json::pretty_text(
                            status_data(rows, size, preview),
                        ),
                    ),
                    _ => failed_view(db_error_text()),
                }
            },
            _ => failed_view(db_error_text()),
        }
    }
}

/// `view_status`: the agents in service and the file map.
pub struct ViewStatusTool;

impl ViewStatusTool {
    /// The agents by their ids, and how many they are.
    fn details(rows: &Vec<AgentRow>) -> (r: (Fields, usize))
        ensures
            r.0@ == agents_details(live_agents(agent_rows(rows@))),
            r.1 == live_agents(agent_rows(rows@)).len(),
    {
        let mut f: Fields = Fields::new();
        let mut n: usize = 0;
        let mut i: usize = 0;
        let ghost all = agent_rows(rows@);
        let ghost keep = |r: AgentRowView| r.status != "system"@;
        proof {
            reveal(Seq::filter);
            assert(all.subrange(0, 0).filter(keep) =~= Seq::empty());
        }
        while i < rows.len()
            invariant
                all == agent_rows(rows@),
                keep == (|r: AgentRowView| r.status != "system"@),
                i <= rows@.len(),
                n <= i,
                n == all.subrange(0, i as int).filter(keep).len(),
                f@ == agents_details(all.subrange(0, i as int).filter(keep)),
            decreases rows@.len() - i,
        {
            let row: &AgentRow = &rows[i];
            proof {
                reveal(Seq::filter);
                let now = all.subrange(0, i + 1);
                assert(now.drop_last() =~= all.subrange(0, i as int));
                assert(now.last() == row@);
            }
            if !same(row.status.as_str(), "system") {
                let mut g: Fields = Fields::new();
                g.put("status", jtext(row.status.as_str()));
                g.put("current_task", jopt(borrow_opt(&row.current_task)));
                g.put("working_directory", jtext(row.working_directory.as_str()));
                g.put("color", jtext(str_or(borrow_opt(&row.color), "N/A")));
                f.put(row.agent_id.as_str(), g.done());
                n = n + 1;
                proof {
                    let kept = all.subrange(0, i as int).filter(keep);
                    assert(kept.push(row@).drop_last() =~= kept);
                }
            }
            i = i + 1;
        }
        proof {
            assert(all.subrange(0, all.len() as int) =~= all);
        }
        (f, n)
    }

    /// What to do after `history`.
    pub fn next(history: &Vec<Event>) -> (r: Action)
        ensures
            r@ == view_status_next(events(history@)),
    {
        if history.len() == 0 {
            return Action::ListActiveAgents;
        }
        match &history[0] {
            Event::Agents(rows) => {
                if history.len() == 1 {
                    return Action::FileMapStatus { preview: 5 };
                }
                match &history[1] {
                    Event::FileMap { size, preview } => {
                        let (details, count) = ViewStatusTool::details(rows);
                        let mut f: Fields = Fields::new();
                        f.put("active_connections", jint(0));
                        f.put("active_agents_count", jlen(count));
                        f.put("agents_details", details.done());
                        f.put("server_uptime", jtext("N/A"));
                        f.put("file_map_size", jlen(*size));
                        f.put("file_map_preview", Json::Object(crate::json::copy_fields(preview)));
                        let data: Json = f.done();
                        let text: String = data.pretty();
                        done(data, cat2("MCP Server Status:\n", text.as_str()))
                    },
                    _ => db_error(),
                }
            },
            _ => db_error(),
        }
    }
}

// ---------------------------------------------------------------------
// register_agent
// ---------------------------------------------------------------------

/// The profile that a new manager starts with.
pub const MANAGER_DEFAULT_PROFILE: &'static str = "You are a manager. Your role:\n\
    - Break down and assign work to the workers on your team, and review \
    what they deliver.\n\
    - Curate your team's profiles: keep each worker's `profile` accurate \
    (who does what, what tools they have, what to ask them about) so the \
    team can find the right person.\n\
    - Coordinate across the team — route questions, unblock workers, and \
    keep shared context current.\n\
    \n\
    Replace this charter with a description of how YOU actually operate: \
    your focus areas, the parts of the system you own, and what peers \
    should come to you for. Call `update_agent_profile` to update it, or \
    to confirm it is still accurate.";

/// Whether an id holds a character that is kept for tombstones.
pub open spec fn has_bracket(id: Seq<char>) -> bool {
    id.contains('[') || id.contains(']')
}

/// Whether `agent_id` holds `[` or `]`, which tombstones are made with.
pub fn contains_reserved_bracket(agent_id: &str) -> (r: bool)
    ensures
        r == has_bracket(agent_id@),
{
    has_char(agent_id, '[') || has_char(agent_id, ']')
}

/// Whether an id is kept for privileged identities.
pub open spec fn is_reserved(id: Seq<char>) -> bool {
    begins_with(lowercase(id), "admin"@)
}

/// Whether `agent_id` begins with `admin`, in any letter case.
pub fn is_reserved_agent_id(agent_id: &str) -> (r: bool)
    ensures
        r == is_reserved(agent_id@),
{
    let lower: String = agent_id.to_lowercase();
    starts_with(lower.as_str(), "admin")
}

/// Whether a role is one that an agent can have.
pub open spec fn is_role(role: Seq<char>) -> bool {
    role == "worker"@ || role == "manager"@
}

/// Whether `role` is one that an agent can have.
pub fn known_role(role: &str) -> (r: bool)
    ensures
        r == is_role(role@),
{
    same(role, "worker") || same(role, "manager")
}

/// The first of two optional texts that is there.
pub open spec fn first_text(a: Option<Seq<char>>, b: Option<Seq<char>>) -> Option<Seq<char>> {
    match a {
        Some(t) => Some(t),
        None => b,
    }
}

fn first_of<'a>(a: Option<&'a str>, b: Option<&'a str>) -> (r: Option<&'a str>)
    ensures
        opt_str(r) == first_text(opt_str(a), opt_str(b)),
{
    match a {
        Some(t) => Some(t),
        None => b,
    }
}

/// The id that a registration asks for: `name`, or `agent_id` where there is
/// no `name`, trimmed; none where that is blank.
pub open spec fn requested_id(args: JsonView) -> Option<Seq<char>> {
    match first_text(text_field(args, "name"@), text_field(args, "agent_id"@)) {
        Some(raw) => if trimmed(raw).len() > 0 {
            Some(trimmed(raw))
        } else {
            None
        },
        None => None,
    }
}

/// The role that a registration asks for.
pub open spec fn requested_role(args: JsonView) -> Seq<char> {
    text_or(first_text(text_field(args, "role"@), text_field(args, "agent_role"@)), "worker"@)
}

/// Why a registration is refused before anything is stored.
pub open spec fn registration_problem(args: JsonView) -> Option<ResultView> {
    match requested_id(args) {
        None => Some(
            ResultView::Invalid {
                field: Some("name"@),
                message: "`name` (agent_id) is required and must be a non-empty string."@,
            },
        ),
        Some(id) => if !is_role(requested_role(args)) {
            Some(
                ResultView::Invalid {
                    field: Some("role"@),
                    message: "`role` must be 'worker' or 'manager'."@,
                },
            )
        } else if has_bracket(id) {
            Some(
                ResultView::Invalid {
                    field: Some("name"@),
                    message: "invalid name "@ + quoted(id)
                        + ": `[` and `]` are reserved characters (used by the purge-cascade tombstone format `[deleted-<id>]`)."@,
                },
            )
        } else if is_reserved(id) {
            Some(
                ResultView::Invalid {
                    field: Some("name"@),
                    message: "reserved name "@ + quoted(id)
                        + ": names beginning with 'admin' are reserved for privileged / built-in identities and cannot be assigned to an agent."@,
                },
            )
        } else {
            None
        },
    }
}

/// The outcome of a registration that was stored.
pub open spec fn registered_view(
    c: CallView,
    id: Seq<char>,
    token: Seq<char>,
    env_host: Option<Seq<char>>,
) -> ActionView {
    let project = snippet_project(text_field(c.arguments, "project_name"@), c.principal);
    let host = snippet_host(text_field(c.arguments, "host"@), env_host);
    let mount = text_or(text_field(c.arguments, "mount_prefix"@), "/agent-mcp"@);
    done_view(
        JsonView::Object(
            map![
            "agent_id"@ => JsonView::Text(id),
            "token"@ => JsonView::Text(token),
            "agent_role"@ => JsonView::Text(requested_role(c.arguments)),
            "mcp_snippet"@ => JsonView::Text(
                crate::json::pretty_text(snippet_json(project, token, host, mount)),
            ),
            "project_name"@ => opt_json(project)
        ],
        ),
        "Agent '"@ + id
            + "' registered. Paste the snippet into the user's client .mcp.json — agent-mcp no longer spawns the client session itself."@,
    )
}

/// The dialogue of `register_agent`: mint a token, take a colour, store the
/// row, give a manager its profile, write the audit line, read the host.
pub open spec fn register_agent_next(c: CallView, h: Seq<EventView>) -> ActionView {
    match registration_problem(c.arguments) {
        Some(problem) => ActionView::Finish(problem),
        None => {
            let id = requested_id(c.arguments)->0;
            let role = requested_role(c.arguments);
            if h.len() == 0 {
                ActionView::MintToken
            } else {
                match h[0] {
                    EventView::Text(Some(token)) => if h.len() == 1 {
                        ActionView::NextColorIndex
                    } else {
                        match h[1] {
                            EventView::Index(index) => if h.len() == 2 {
                                ActionView::CreateAgent(
                                    NewAgentView {
                                        token,
                                        agent_id: id,
                                        created_at: c.now,
                                        status: "created"@,
                                        working_directory: c.project_dir,
                                        color: agent_color(index as int),
                                        agent_role: role,
                                    },
                                )
                            } else {
                                match h[2] {
                                    EventView::Created { created_at } => after_creation_view(
                                        c,
                                        id,
                                        token,
                                        created_at,
                                        h,
                                    ),
                                    EventView::InvalidId => invalid_view(
                                        Some("name"@),
                                        "invalid name "@ + quoted(id) + "."@,
                                    ),
                                    EventView::Duplicate => conflict_view(
                                        "Agent '"@ + id + "' already exists (in database)."@,
                                    ),
                                    _ => failed_view(db_error_text()),
                                }
                            },
                            _ => failed_view(db_error_text()),
                        }
                    },
                    _ => failed_view(no_token_text()),
                }
            }
        },
    }
}

/// The part of `register_agent` that follows the storing of the row.
pub open spec fn after_creation_view(
    c: CallView,
    id: Seq<char>,
    token: Seq<char>,
    created_at: Seq<char>,
    h: Seq<EventView>,
) -> ActionView {
    let role = requested_role(c.arguments);
    let at: int = if role == "manager"@ {
        4
    } else {
        3
    };
    if h.len() < at {
        ActionView::SeedManagerProfile {
            agent_id: id,
            profile: MANAGER_DEFAULT_PROFILE@,
            timestamp: created_at,
        }
    } else if h.len() == at {
        ActionView::LogAction {
            agent_id: label_or(c.principal, "operator"@),
            action_type: "registered_agent"@,
            task_id: None,
            details: JsonView::Object(
                map!["agent_id"@ => JsonView::Text(id), "role"@ => JsonView::Text(role)],
            ),
            timestamp: c.now,
        }
    } else if h.len() == at + 1 {
        ActionView::ReadEnv { key: "AGENT_MCP_EXTERNAL_URL"@ }
    } else {
        registered_view(
            c,
            id,
            token,
            match h[at + 1] {
                EventView::Text(env) => env,
                _ => None,
            },
        )
    }
}

/// What a caller reads when no token could be minted.
pub open spec fn no_token_text() -> Seq<char> {
    "OS CSPRNG must be available to mint an agent bearer token"@
}

/// The ending when no token could be minted.
pub fn no_token() -> (r: Action)
    ensures
        r@ == failed_view(no_token_text()),
{
    failed("OS CSPRNG must be available to mint an agent bearer token")
}

/// Nothing is done for a registration under a name with a reserved character
/// or prefix: it ends at once as invalid.
pub proof fn reserved_names_are_never_registered(c: CallView, h: Seq<EventView>)
    requires
        requested_id(c.arguments) is Some,
        has_bracket(requested_id(c.arguments)->0) || is_reserved(requested_id(c.arguments)->0),
    ensures
        register_agent_next(c, h) matches ActionView::Finish(ResultView::Invalid { .. }),
{
}

/// A new agent is stored under the trimmed name that was asked for, in a role
/// that agents can have, and its name is none that is kept.
pub proof fn only_proper_agents_are_stored(c: CallView, h: Seq<EventView>, a: NewAgentView)
    requires
        register_agent_next(c, h) == ActionView::CreateAgent(a),
    ensures
        requested_id(c.arguments) == Some(a.agent_id),
        a.agent_id.len() > 0,
        !has_bracket(a.agent_id),
        !is_reserved(a.agent_id),
        is_role(a.agent_role),
        a.status == "created"@,
{
}

/// `register_agent`: a new identity with its token.
pub struct RegisterAgentTool;

impl RegisterAgentTool {
    /// Why the registration is refused.
    fn problem(args: &Json) -> (r: Option<Action>)
        ensures
            match r {
                Some(a) => registration_problem(args@) is Some && a@ == ActionView::Finish(
                    registration_problem(args@)->0,
                ),
                None => registration_problem(args@) is None,
            },
    {
        let id: String = match RegisterAgentTool::id(args) {
            Some(id) => id,
            None => {
                return Some(
                    invalid(
                        "name",
                        "`name` (agent_id) is required and must be a non-empty string.",
                    ),
                );
            },
        };
        if !known_role(RegisterAgentTool::role(args)) {
            return Some(invalid("role", "`role` must be 'worker' or 'manager'."));
        }
        if contains_reserved_bracket(id.as_str()) {
            let q: String = quote(id.as_str());
            let m: String = cat3(
                "invalid name ",
                q.as_str(),
                ": `[` and `]` are reserved characters (used by the purge-cascade tombstone format `[deleted-<id>]`).",
            );
            return Some(invalid("name", m.as_str()));
        }
        if is_reserved_agent_id(id.as_str()) {
            let q: String = quote(id.as_str());
            let m: String = cat3(
                "reserved name ",
                q.as_str(),
                ": names beginning with 'admin' are reserved for privileged / built-in identities and cannot be assigned to an agent.",
            );
            return Some(invalid("name", m.as_str()));
        }
        None
    }

    fn id(args: &Json) -> (r: Option<String>)
        ensures
            opt(r) == requested_id(args@),
    {
        match first_of(args.text_at("name"), args.text_at("agent_id")) {
            Some(raw) => {
                let t: String = trim(raw);
                if t.as_str().is_empty() {
                    None
                } else {
                    Some(t)
                }
            },
            None => None,
        }
    }

    fn role(args: &Json) -> (r: &str)
        ensures
            r@ == requested_role(args@),
    {
        str_or(first_of(args.text_at("role"), args.text_at("agent_role")), "worker")
    }

    fn registered(call: &Call, id: &str, token: &str, env_host: Option<&str>) -> (r: Action)
        ensures
            r@ == registered_view(call@, id@, token@, opt_str(env_host)),
    {
        let args: &Json = &call.arguments;
        let project: Option<String> = resolve_snippet_project(
            args.text_at("project_name"),
            call.caller(),
        );
        let host: String = choose_snippet_host(args.text_at("host"), env_host);
        let mount: &str = str_or(args.text_at("mount_prefix"), "/agent-mcp");
        let snippet: String = build_mcp_config_snippet(
            borrow_opt(&project),
            token,
            host.as_str(),
            mount,
        );
        let mut f: Fields = Fields::new();
        f.put("agent_id", jtext(id));
        f.put("token", jtext(token));
        f.put("agent_role", jtext(RegisterAgentTool::role(args)));
        f.put("mcp_snippet", jtext(snippet.as_str()));
        f.put("project_name", jopt(borrow_opt(&project)));
        let message: String = cat3(
            "Agent '",
            id,
            "' registered. Paste the snippet into the user's client .mcp.json — agent-mcp no longer spawns the client session itself.",
        );
        done(f.done(), message)
    }

    fn after_creation(
        call: &Call,
        id: &str,
        token: &str,
        created_at: &str,
        history: &Vec<Event>,
    ) -> (r: Action)
        requires
            history@.len() >= 3,
        ensures
            r@ == after_creation_view(call@, id@, token@, created_at@, events(history@)),
    {
        let role: &str = RegisterAgentTool::role(&call.arguments);
        let at: usize = if same(role, "manager") {
            4
        } else {
            3
        };
        if history.len() < at {
            return Action::SeedManagerProfile {
                agent_id: own(id),
                profile: own(MANAGER_DEFAULT_PROFILE),
                timestamp: own(created_at),
            };
        }
        if history.len() == at {
            let mut f: Fields = Fields::new();
            f.put("agent_id", jtext(id));
            f.put("role", jtext(role));
            return Action::LogAction {
                agent_id: own(actor_label(call.caller(), "operator")),
                action_type: own("registered_agent"),
                task_id: None,
                details: f.done(),
                timestamp: own(call.now.as_str()),
            };
        }
        if history.len() == at + 1 {
            return Action::ReadEnv { key: own("AGENT_MCP_EXTERNAL_URL") };
        }
        match &history[at + 1] {
            Event::Text(env) => RegisterAgentTool::registered(call, id, token, borrow_opt(env)),
            _ => RegisterAgentTool::registered(call, id, token, None),
        }
    }

    /// What to do after `history`.
    pub fn next(call: &Call, history: &Vec<Event>) -> (r: Action)
        ensures
            r@ == register_agent_next(call@, events(history@)),
    {
        let args: &Json = &call.arguments;
        match RegisterAgentTool::problem(args) {
            Some(a) => {
                return a;
            },
            None => {},
        }
        let id: String = match RegisterAgentTool::id(args) {
            Some(id) => id,
            None => own(""),
        };
        if history.len() == 0 {
            return Action::MintToken;
        }
        let token: &str = match &history[0] {
            Event::Text(Some(t)) => t.as_str(),
            _ => {
                return no_token();
            },
        };
        if history.len() == 1 {
            return Action::NextColorIndex;
        }
        let index: usize = match &history[1] {
            Event::Index(i) => *i,
            _ => {
                return db_error();
            },
        };
        if history.len() == 2 {
            return Action::CreateAgent(
                NewAgent {
                    token: own(token),
                    agent_id: id,
                    created_at: own(call.now.as_str()),
                    status: own("created"),
                    working_directory: own(call.project_dir.as_str()),
                    color: own(next_agent_color(index)),
                    agent_role: own(RegisterAgentTool::role(args)),
                },
            );
        }
        match &history[2] {
            Event::Created { created_at } => RegisterAgentTool::after_creation(
                call,
                id.as_str(),
                token,
                created_at.as_str(),
                history,
            ),
            Event::InvalidId => {
                let q: String = quote(id.as_str());
                let m: String = cat3("invalid name ", q.as_str(), ".");
                invalid("name", m.as_str())
            },
            Event::Duplicate => conflict(
                cat3("Agent '", id.as_str(), "' already exists (in database)."),
            ),
            _ => db_error(),
        }
    }
}

} // verus!

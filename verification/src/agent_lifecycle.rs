//! Tools that change an agent's standing: a new token, restoration, edits,
//! termination, purge, and the pausing and resuming of its event loop.

use crate::admin_tools::{is_role, is_true, known_role, no_token, no_token_text, str_or, text_or};
use crate::json::{
    bool_field, field, int_json, jint, jopt, jtext, jtexts, opt_json, text_field, texts_json,
    Fields, Items, Json, JsonView,
};
use crate::principal::{
    actor_label, caller_has, caller_view, has_capability, label_or, Capability, Principal,
    PrincipalView,
};
use crate::protocol::{
    broadcast, broadcast_view, conflict, conflict_view, db_error, db_error_text, denied,
    denied_view, done, done_view, event_failed, events, failed, failed_view, find_failed,
    first_failed, invalid, invalid_view, is_failure, not_found, not_found_view, sent_messages,
    task_rows, Action, ActionView, AgentField, AgentRow, Call, CallView, CountKind, Event,
    EventView, FieldValue, FieldValueView, ResultView, SentMessageView, TaskRow, TaskRowView,
    ToolResult,
};
use crate::text::{
    cat2, cat3, cat4, cat5, join, joined, last_bytes, length, list_has, opt, own, own_opt, quote, quoted, same,
    shorten, shortened, suffix, texts,
};
use vstd::prelude::*;

verus! {

/// The line that an operator's action leaves in the audit trail.
pub open spec fn operator_log(
    principal: Option<PrincipalView>,
    action_type: Seq<char>,
    details: JsonView,
    now: Seq<char>,
) -> ActionView {
    ActionView::LogAction {
        agent_id: label_or(principal, "operator"@),
        action_type,
        task_id: None,
        details,
        timestamp: now,
    }
}

fn log_operator(
    principal: Option<&Principal>,
    action_type: &str,
    details: Json,
    now: &str,
) -> (r: Action)
    ensures
        r@ == operator_log(caller_view(principal), action_type@, details@, now@),
{
    Action::LogAction {
        agent_id: own(actor_label(principal, "operator")),
        action_type: own(action_type),
        task_id: None,
        details,
        timestamp: own(now),
    }
}

/// An object that names an agent.
pub open spec fn agent_ref(agent_id: Seq<char>) -> JsonView {
    JsonView::Object(map!["agent_id"@ => JsonView::Text(agent_id)])
}

fn refer(agent_id: &str) -> (r: Json)
    ensures
        r@ == agent_ref(agent_id@),
{
    let mut f: Fields = Fields::new();
    f.put("agent_id", jtext(agent_id));
    f.done()
}

// ---------------------------------------------------------------------
// rotate_agent_token
// ---------------------------------------------------------------------

/// The dialogue of `rotate_agent_token`.
pub open spec fn rotate_agent_token_next(c: CallView, h: Seq<EventView>) -> ActionView {
    match text_field(c.arguments, "agent_id"@) {
        None => invalid_view(Some("agent_id"@), "`agent_id` is required."@),
        Some(id) => if h.len() == 0 {
            ActionView::GetAgent { agent_id: id }
        } else {
            match h[0] {
                EventView::Agent(None) => not_found_view("agent"@, id),
                EventView::Agent(Some(row)) => if c.terminal_agent_statuses.contains(row.status) {
                    conflict_view(
                        "Agent '"@ + id + "' is "@ + row.status
                            + "; restore it before rotating its token"@,
                    )
                } else if h.len() == 1 {
                    ActionView::MintToken
                } else {
                    match h[1] {
                        EventView::Text(Some(token)) => if h.len() == 2 {
                            ActionView::RotateToken { agent_id: id, token, timestamp: c.now }
                        } else {
                            match h[2] {
                                EventView::Changed(true) => if h.len() == 3 {
                                    operator_log(
                                        c.principal,
                                        "rotated_agent_token"@,
                                        rotation_details(id, row.token, token),
                                        c.now,
                                    )
                                } else {
                                    rotated_view(id, token)
                                },
                                EventView::Changed(false) => failed_view(
                                    "Failed to rotate token for agent '"@ + id + "'."@,
                                ),
                                _ => failed_view(db_error_text()),
                            }
                        },
                        _ => failed_view(no_token_text()),
                    }
                },
                _ => failed_view(db_error_text()),
            }
        },
    }
}

/// The last `n` bytes of a secret, where it has more than those and they spell
/// a text.
pub open spec fn secret_tail(s: Seq<char>, n: int) -> Option<Seq<char>> {
    match last_bytes(s, n) {
        Some(t) => if t.len() < s.len() {
            Some(t)
        } else {
            None
        },
        None => None,
    }
}

/// The last `n` bytes of a secret, where it has more than those.
fn tail_of(s: &str, n: u8) -> (r: Option<String>)
    ensures
        opt(r) == secret_tail(s@, n as int),
{
    match suffix(s, n) {
        Some(t) => if length(t.as_str()) < length(s) {
            Some(t)
        } else {
            None
        },
        None => None,
    }
}

/// What the audit trail says of a rotation: of each token its last four bytes,
/// and nothing of a token that has no more.
pub open spec fn rotation_details(
    id: Seq<char>,
    old_token: Seq<char>,
    new_token: Seq<char>,
) -> JsonView {
    JsonView::Object(
        map![
        "agent_id"@ => JsonView::Text(id),
        "old_token_suffix"@ => opt_json(secret_tail(old_token, 4)),
        "new_token_suffix"@ => opt_json(secret_tail(new_token, 4))
    ],
    )
}

/// The outcome of a rotation.
pub open spec fn rotated_view(id: Seq<char>, token: Seq<char>) -> ActionView {
    done_view(
        JsonView::Object(
            map!["agent_id"@ => JsonView::Text(id), "token"@ => JsonView::Text(token)],
        ),
        "Agent '"@ + id
            + "' token rotated. The previous token is revoked immediately — hand the new one to the agent's client session and relaunch it. This is the only time the new token is shown."@,
    )
}

/// The audit trail gets of each token at most its last four characters, and
/// never the whole of it: what it gets is strictly shorter than the token, and
/// is its end.
pub proof fn audit_shows_token_suffixes_only(id: Seq<char>, old_token: Seq<char>, new_token: Seq<char>)
    ensures
        match rotation_details(id, old_token, new_token) {
            JsonView::Object(m) => {
                &&& m.dom() =~= set!["agent_id"@, "old_token_suffix"@, "new_token_suffix"@]
                &&& m["agent_id"@] == JsonView::Text(id)
                &&& shows_an_end_only(m["old_token_suffix"@], old_token)
                &&& shows_an_end_only(m["new_token_suffix"@], new_token)
            },
            _ => false,
        },
{
    reveal_strlit("agent_id");
    reveal_strlit("old_token_suffix");
    reveal_strlit("new_token_suffix");
    assert("old_token_suffix"@[0] == 'o' && "new_token_suffix"@[0] == 'n');
    assert("agent_id"@.len() != "old_token_suffix"@.len());
    lemma_last_bytes_short(old_token, 4);
    lemma_last_bytes_short(new_token, 4);
}

/// Whether a value shows nothing of a token but up to four of its last
/// characters, and not the whole of it.
pub open spec fn shows_an_end_only(shown: JsonView, token: Seq<char>) -> bool {
    match shown {
        JsonView::Text(s) => s.len() <= 4 && s.len() < token.len() && s == token.subrange(
            token.len() - s.len(),
            token.len() as int,
        ),
        JsonView::Null => true,
        _ => false,
    }
}

proof fn lemma_last_bytes_short(s: Seq<char>, n: int)
    requires
        n >= 0,
    ensures
        last_bytes(s, n) matches Some(t) ==> t.len() <= n && t.len() <= s.len() && t
            == s.subrange(s.len() - t.len(), s.len() as int),
    decreases s.len(),
{
    if n > 0 && s.len() > 0 {
        let rest = n - crate::text::utf8_width(s.last());
        if rest >= 0 {
            lemma_last_bytes_short(s.drop_last(), rest);
            match last_bytes(s, n) {
                Some(t) => {
                    assert(t =~= s.subrange(s.len() - t.len(), s.len() as int));
                },
                None => {},
            }
        }
    } else if n == 0 || s.len() == 0 {
        assert(s.subrange(s.len() as int, s.len() as int) =~= Seq::<char>::empty());
    }
}

/// `rotate_agent_token`: replaces an agent's token.
pub struct RotateAgentTokenTool;

impl RotateAgentTokenTool {
    fn details(id: &str, old_token: &str, new_token: &str) -> (r: Json)
        ensures
            r@ == rotation_details(id@, old_token@, new_token@),
    {
        let a: Option<String> = tail_of(old_token, 4);
        let b: Option<String> = tail_of(new_token, 4);
        let mut f: Fields = Fields::new();
        f.put("agent_id", jtext(id));
        f.put("old_token_suffix", jopt(crate::text::borrow_opt(&a)));
        f.put("new_token_suffix", jopt(crate::text::borrow_opt(&b)));
        f.done()
    }

    fn rotated(id: &str, token: &str) -> (r: Action)
        ensures
            r@ == rotated_view(id@, token@),
    {
        let mut f: Fields = Fields::new();
        f.put("agent_id", jtext(id));
        f.put("token", jtext(token));
        let message: String = cat3(
            "Agent '",
            id,
            "' token rotated. The previous token is revoked immediately — hand the new one to the agent's client session and relaunch it. This is the only time the new token is shown.",
        );
        done(f.done(), message)
    }

    /// What to do after `history`.
    pub fn next(call: &Call, history: &Vec<Event>) -> (r: Action)
        ensures
            r@ == rotate_agent_token_next(call@, events(history@)),
    {
        let id: &str = match call.arguments.text_at("agent_id") {
            Some(id) => id,
            None => {
                return invalid("agent_id", "`agent_id` is required.");
            },
        };
        if history.len() == 0 {
            return Action::GetAgent { agent_id: own(id) };
        }
        let row: &AgentRow = match &history[0] {
            Event::Agent(Some(row)) => row,
            Event::Agent(None) => {
                return not_found("agent", id);
            },
            _ => {
                return db_error();
            },
        };
        if list_has(&call.terminal_agent_statuses, row.status.as_str()) {
            return conflict(
                cat5(
                    "Agent '",
                    id,
                    "' is ",
                    row.status.as_str(),
                    "; restore it before rotating its token",
                ),
            );
        }
        if history.len() == 1 {
            return Action::MintToken;
        }
        let token: &str = match &history[1] {
            Event::Text(Some(t)) => t.as_str(),
            _ => {
                return no_token();
            },
        };
        if history.len() == 2 {
            return Action::RotateToken {
                agent_id: own(id),
                token: own(token),
                timestamp: own(call.now.as_str()),
            };
        }
        match &history[2] {
            Event::Changed(true) => {
                if history.len() == 3 {
                    log_operator(
                        call.caller(),
                        "rotated_agent_token",
                        RotateAgentTokenTool::details(id, row.token.as_str(), token),
                        call.now.as_str(),
                    )
                } else {
                    RotateAgentTokenTool::rotated(id, token)
                }
            },
            Event::Changed(false) => {
                let m: String = cat3("Failed to rotate token for agent '", id, "'.");
                failed(m.as_str())
            },
            _ => db_error(),
        }
    }
}

// ---------------------------------------------------------------------
// restore_agent
// ---------------------------------------------------------------------

/// The dialogue of `restore_agent`.
pub open spec fn restore_agent_next(c: CallView, h: Seq<EventView>) -> ActionView {
    match text_field(c.arguments, "agent_id"@) {
        None => invalid_view(Some("agent_id"@), "`agent_id` is required."@),
        Some(id) => if h.len() == 0 {
            ActionView::GetAgent { agent_id: id }
        } else {
            match h[0] {
                EventView::Agent(None) => not_found_view("agent"@, id),
                EventView::Agent(Some(row)) => if row.status != "terminated"@ {
                    conflict_view(
                        "Agent '"@ + id + "' is not terminated (status="@ + quoted(row.status)
                            + "); nothing to restore"@,
                    )
                } else if h.len() == 1 {
                    ActionView::UpdateAgent {
                        agent_id: id,
                        field: AgentField::Status,
                        value: FieldValueView::Text("created"@),
                        timestamp: c.now,
                    }
                } else if is_failure(h[1]) {
                    failed_view(db_error_text())
                } else if h.len() == 2 {
                    ActionView::UpdateAgent {
                        agent_id: id,
                        field: AgentField::TerminatedAt,
                        value: FieldValueView::OptionalText(None),
                        timestamp: c.now,
                    }
                } else if h.len() == 3 {
                    operator_log(c.principal, "restored_agent"@, agent_ref(id), c.now)
                } else {
                    done_view(
                        JsonView::Object(
                            map![
                            "agent_id"@ => JsonView::Text(id),
                            "status"@ => JsonView::Text("created"@)
                        ],
                        ),
                        "Agent '"@ + id + "' restored"@,
                    )
                },
                _ => failed_view(db_error_text()),
            }
        },
    }
}

/// `restore_agent`: takes a terminated agent back into service.
pub struct RestoreAgentTool;

impl RestoreAgentTool {
    /// What to do after `history`.
    pub fn next(call: &Call, history: &Vec<Event>) -> (r: Action)
        ensures
            r@ == restore_agent_next(call@, events(history@)),
    {
        let id: &str = match call.arguments.text_at("agent_id") {
            Some(id) => id,
            None => {
                return invalid("agent_id", "`agent_id` is required.");
            },
        };
        if history.len() == 0 {
            return Action::GetAgent { agent_id: own(id) };
        }
        let row: &AgentRow = match &history[0] {
            Event::Agent(Some(row)) => row,
            Event::Agent(None) => {
                return not_found("agent", id);
            },
            _ => {
                return db_error();
            },
        };
        if !same(row.status.as_str(), "terminated") {
            let q: String = quote(row.status.as_str());
            return conflict(
                cat5(
                    "Agent '",
                    id,
                    "' is not terminated (status=",
                    q.as_str(),
                    "); nothing to restore",
                ),
            );
        }
        if history.len() == 1 {
            return Action::UpdateAgent {
                agent_id: own(id),
                field: AgentField::Status,
                value: FieldValue::Text(own("created")),
                timestamp: own(call.now.as_str()),
            };
        }
        if event_failed(&history[1]) {
            return db_error();
        }
        if history.len() == 2 {
            return Action::UpdateAgent {
                agent_id: own(id),
                field: AgentField::TerminatedAt,
                value: FieldValue::OptionalText(None),
                timestamp: own(call.now.as_str()),
            };
        }
        if history.len() == 3 {
            return log_operator(call.caller(), "restored_agent", refer(id), call.now.as_str());
        }
        let mut f: Fields = Fields::new();
        f.put("agent_id", jtext(id));
        f.put("status", jtext("created"));
        done(f.done(), cat3("Agent '", id, "' restored"))
    }
}

// ---------------------------------------------------------------------
// edit_agent
// ---------------------------------------------------------------------

/// A restore writes two columns of the agent it names and no other: the status
/// becomes `created`, and the time of termination is cleared.
pub proof fn restores_write_two_columns_only(c: CallView, h: Seq<EventView>)
    ensures
        match restore_agent_next(c, h) {
            ActionView::UpdateAgent { agent_id, field, value, .. } => {
                &&& text_field(c.arguments, "agent_id"@) == Some(agent_id)
                &&& h.len() == 1 || h.len() == 2
                &&& h.len() == 1 ==> field == AgentField::Status && value == FieldValueView::Text(
                    "created"@,
                )
                &&& h.len() == 2 ==> field == AgentField::TerminatedAt && value
                    == FieldValueView::OptionalText(None)
            },
            ActionView::GetAgent { .. } => true,
            ActionView::LogAction { .. } => true,
            ActionView::Finish(_) => true,
            _ => false,
        },
{
}

/// Only a terminated agent is restored. A missing one is not found, one of any
/// other status is in conflict, and neither has anything written: the call
/// ends on the lookup.
pub proof fn only_terminated_agents_are_restored(c: CallView, h: Seq<EventView>)
    requires
        text_field(c.arguments, "agent_id"@) is Some,
        h.len() > 0,
    ensures
        h[0] == EventView::Agent(None) ==> restore_agent_next(c, h) == not_found_view(
            "agent"@,
            text_field(c.arguments, "agent_id"@)->0,
        ),
        h[0] matches EventView::Agent(Some(row)) && row.status != "terminated"@ ==> (
        restore_agent_next(c, h) matches ActionView::Finish(ResultView::Conflict { .. })),
        restore_agent_next(c, h) is UpdateAgent ==> (h[0] matches EventView::Agent(Some(row))
            && row.status == "terminated"@),
{
}

/// `key` where the arguments have it.
pub open spec fn supplied(args: JsonView, key: Seq<char>) -> Seq<Seq<char>> {
    if field(args, key) is Some {
        seq![key]
    } else {
        Seq::empty()
    }
}

/// The editable fields that the arguments have, in the order in which they
/// are written.
pub open spec fn edited_fields(args: JsonView) -> Seq<Seq<char>> {
    supplied(args, "color"@) + supplied(args, "working_directory"@) + supplied(
        args,
        "aoe_session_id"@,
    ) + supplied(args, "auto_event_loop"@) + supplied(args, "agent_role"@)
}

/// The column of an editable field, and the value that the arguments give it.
/// An empty session id clears the session.
pub open spec fn edit_of(args: JsonView, name: Seq<char>) -> (AgentField, FieldValueView) {
    let value = text_field(args, name);
    if name == "color"@ {
        (AgentField::Color, FieldValueView::OptionalText(value))
    } else if name == "working_directory"@ {
        (AgentField::WorkingDirectory, FieldValueView::Text(text_or(value, ""@)))
    } else if name == "aoe_session_id"@ {
        (
            AgentField::AoeSessionId,
            FieldValueView::OptionalText(
                if value == Some(""@) {
                    None
                } else {
                    value
                },
            ),
        )
    } else if name == "auto_event_loop"@ {
        (AgentField::AutoEventLoop, FieldValueView::Bool(bool_field(args, name) == Some(true)))
    } else {
        (AgentField::AgentRole, FieldValueView::Text(text_or(value, ""@)))
    }
}

/// The dialogue of `edit_agent`: look the agent up, write each field in turn,
/// write the audit line, and wake the agent where its event loop was switched.
pub open spec fn edit_agent_next(c: CallView, h: Seq<EventView>) -> ActionView {
    let updates = edited_fields(c.arguments);
    let role = text_field(c.arguments, "agent_role"@);
    match text_field(c.arguments, "agent_id"@) {
        None => invalid_view(Some("agent_id"@), "`agent_id` is required."@),
        Some(id) => if updates.len() == 0 {
            invalid_view(
                None,
                "No editable fields supplied. Accepts any of: color, working_directory, aoe_session_id, auto_event_loop, agent_role"@,
            )
        } else if role is Some && !is_role(role->0) {
            invalid_view(
                Some("agent_role"@),
                "Invalid agent_role "@ + quoted(role->0) + ": must be 'worker' or 'manager'."@,
            )
        } else if h.len() == 0 {
            ActionView::GetAgent { agent_id: id }
        } else {
            match h[0] {
                EventView::Agent(None) => not_found_view("agent"@, id),
                EventView::Agent(Some(_)) => match first_failed(h, 1, updates.len() as int) {
                    Some(i) => failed_view("Failed to update field \""@ + updates[i] + "\""@),
                    None => {
                        let k = h.len() - 1;
                        let rest = k - updates.len();
                        if k < updates.len() {
                            let edit = edit_of(c.arguments, updates[k]);
                            ActionView::UpdateAgent {
                                agent_id: id,
                                field: edit.0,
                                value: edit.1,
                                timestamp: c.now,
                            }
                        } else if rest == 0 {
                            operator_log(
                                c.principal,
                                "edited_agent"@,
                                JsonView::Object(
                                    map![
                                    "agent_id"@ => JsonView::Text(id),
                                    "fields"@ => texts_json(updates)
                                ],
                                ),
                                c.now,
                            )
                        } else if rest == 1 && updates.contains("auto_event_loop"@) {
                            ActionView::Notify { agent_id: id }
                        } else {
                            done_view(
                                JsonView::Object(
                                    map![
                                    "agent_id"@ => JsonView::Text(id),
                                    "updated"@ => texts_json(updates)
                                ],
                                ),
                                "Agent '"@ + id + "' updated: "@ + joined(updates, ", "@),
                            )
                        }
                    },
                },
                _ => failed_view(db_error_text()),
            }
        },
    }
}

/// Whatever the arguments, an edit writes none but the five editable columns:
/// never an agent's status or identity.
pub proof fn edits_touch_editable_columns_only(c: CallView, h: Seq<EventView>)
    ensures
        match edit_agent_next(c, h) {
            ActionView::UpdateAgent { field, .. } => field == AgentField::Color || field
                == AgentField::WorkingDirectory || field == AgentField::AoeSessionId || field
                == AgentField::AutoEventLoop || field == AgentField::AgentRole,
            ActionView::GetAgent { .. } => true,
            ActionView::LogAction { .. } => true,
            ActionView::Notify { .. } => true,
            ActionView::Finish(_) => true,
            _ => false,
        },
{
}

/// `edit_agent`: writes an agent's editable fields.
pub struct EditAgentTool;

impl EditAgentTool {
    fn take(args: &Json, key: &str, out: &mut Vec<String>)
        ensures
            texts(final(out)@) == texts(old(out)@) + supplied(args@, key@),
    {
        let ghost before = out@;
        match args.get(key) {
            Some(_) => {
                out.push(own(key));
                proof {
                    assert(texts(out@) =~= texts(before) + supplied(args@, key@));
                }
            },
            None => {
                proof {
                    assert(texts(out@) =~= texts(before) + supplied(args@, key@));
                }
            },
        }
    }

    fn fields(args: &Json) -> (r: Vec<String>)
        ensures
            texts(r@) == edited_fields(args@),
    {
        let mut out: Vec<String> = Vec::new();
        EditAgentTool::take(args, "color", &mut out);
        proof {
            assert(texts(out@) =~= supplied(args@, "color"@));
        }
        EditAgentTool::take(args, "working_directory", &mut out);
        EditAgentTool::take(args, "aoe_session_id", &mut out);
        EditAgentTool::take(args, "auto_event_loop", &mut out);
        EditAgentTool::take(args, "agent_role", &mut out);
        out
    }

    fn edit(args: &Json, name: &str) -> (r: (AgentField, FieldValue))
        ensures
            (r.0, r.1@) == edit_of(args@, name@),
    {
        let value: Option<&str> = args.text_at(name);
        if same(name, "color") {
            (AgentField::Color, FieldValue::OptionalText(own_opt(value)))
        } else if same(name, "working_directory") {
            (AgentField::WorkingDirectory, FieldValue::Text(own(str_or(value, ""))))
        } else if same(name, "aoe_session_id") {
            let kept: Option<String> = match value {
                Some(s) => if same(s, "") {
                    None
                } else {
                    Some(own(s))
                },
                None => None,
            };
            (AgentField::AoeSessionId, FieldValue::OptionalText(kept))
        } else if same(name, "auto_event_loop") {
            (AgentField::AutoEventLoop, FieldValue::Bool(is_true(args.flag_at(name))))
        } else {
            (AgentField::AgentRole, FieldValue::Text(own(str_or(value, ""))))
        }
    }

    /// What to do after `history`.
    pub fn next(call: &Call, history: &Vec<Event>) -> (r: Action)
        ensures
            r@ == edit_agent_next(call@, events(history@)),
    {
        let args: &Json = &call.arguments;
        let id: &str = match args.text_at("agent_id") {
            Some(id) => id,
            None => {
                return invalid("agent_id", "`agent_id` is required.");
            },
        };
        let updates: Vec<String> = EditAgentTool::fields(args);
        proof {
            assert(texts(updates@).len() == updates@.len());
        }
        if updates.len() == 0 {
            return Action::Finish(
                ToolResult::Invalid {
                    field: None,
                    message: own(
                        "No editable fields supplied. Accepts any of: color, working_directory, aoe_session_id, auto_event_loop, agent_role",
                    ),
                },
            );
        }
        match args.text_at("agent_role") {
            Some(role) => {
                if !known_role(role) {
                    let q: String = quote(role);
                    let m: String = cat3(
                        "Invalid agent_role ",
                        q.as_str(),
                        ": must be 'worker' or 'manager'.",
                    );
                    return invalid("agent_role", m.as_str());
                }
            },
            None => {},
        }
        if history.len() == 0 {
            return Action::GetAgent { agent_id: own(id) };
        }
        match &history[0] {
            Event::Agent(Some(_)) => {},
            Event::Agent(None) => {
                return not_found("agent", id);
            },
            _ => {
                return db_error();
            },
        }
        match find_failed(history, 1, updates.len()) {
            Some(i) => {
                let m: String = cat3("Failed to update field \"", updates[i].as_str(), "\"");
                return failed(m.as_str());
            },
            None => {},
        }
        let k: usize = history.len() - 1;
        if k < updates.len() {
            let (field, value) = EditAgentTool::edit(args, updates[k].as_str());
            return Action::UpdateAgent {
                agent_id: own(id),
                field,
                value,
                timestamp: own(call.now.as_str()),
            };
        }
        let rest: usize = k - updates.len();
        if rest == 0 {
            let mut f: Fields = Fields::new();
            f.put("agent_id", jtext(id));
            f.put("fields", jtexts(&updates));
            return log_operator(call.caller(), "edited_agent", f.done(), call.now.as_str());
        }
        if rest == 1 && list_has(&updates, "auto_event_loop") {
            return Action::Notify { agent_id: own(id) };
        }
        let mut f: Fields = Fields::new();
        f.put("agent_id", jtext(id));
        f.put("updated", jtexts(&updates));
        let list: String = join(&updates, ", ");
        done(f.done(), cat4("Agent '", id, "' updated: ", list.as_str()))
    }
}

// ---------------------------------------------------------------------
// Tasks of an agent that leaves
// ---------------------------------------------------------------------

/// The tasks of an event; none where it has no list.
pub open spec fn tasks_in(e: EventView) -> Seq<TaskRowView> {
    match e {
        EventView::Tasks(v) => v,
        _ => Seq::empty(),
    }
}

/// The tasks that are not finished.
pub open spec fn open_tasks(tasks: Seq<TaskRowView>, terminal: Seq<Seq<char>>) -> Seq<TaskRowView>
    decreases tasks.len(),
{
    if tasks.len() == 0 {
        Seq::empty()
    } else if terminal.contains(tasks.last().status) {
        open_tasks(tasks.drop_last(), terminal)
    } else {
        open_tasks(tasks.drop_last(), terminal).push(tasks.last())
    }
}

/// Open tasks are tasks of the list that are not finished.
pub proof fn open_tasks_are_unfinished(tasks: Seq<TaskRowView>, terminal: Seq<Seq<char>>, k: int)
    requires
        0 <= k < open_tasks(tasks, terminal).len(),
    ensures
        !terminal.contains(open_tasks(tasks, terminal)[k].status),
        tasks.contains(open_tasks(tasks, terminal)[k]),
    decreases tasks.len(),
{
    let rest = open_tasks(tasks.drop_last(), terminal);
    if k < rest.len() {
        open_tasks_are_unfinished(tasks.drop_last(), terminal, k);
        let i = choose|i: int|
            0 <= i < tasks.len() - 1 && tasks.drop_last()[i] == open_tasks(tasks, terminal)[k];
        assert(tasks[i] == open_tasks(tasks, terminal)[k]);
    } else {
        assert(tasks[tasks.len() - 1] == open_tasks(tasks, terminal)[k]);
    }
}

/// The positions of the tasks that are not finished.
fn find_open(tasks: &Vec<TaskRow>, terminal: &Vec<String>) -> (r: Vec<usize>)
    ensures
        r@.len() == open_tasks(task_rows(tasks@), texts(terminal@)).len(),
        forall|k: int|
            0 <= k < r@.len() ==> (#[trigger] r@[k]) < tasks@.len() && tasks@[r@[k] as int]@
                == open_tasks(task_rows(tasks@), texts(terminal@))[k],
{
    let mut r: Vec<usize> = Vec::new();
    let mut i: usize = 0;
    let ghost all = task_rows(tasks@);
    while i < tasks.len()
        invariant
            all == task_rows(tasks@),
            i <= tasks@.len(),
            r@.len() == open_tasks(all.subrange(0, i as int), texts(terminal@)).len(),
            forall|k: int|
                0 <= k < r@.len() ==> (#[trigger] r@[k]) < tasks@.len() && tasks@[r@[k] as int]@
                    == open_tasks(all.subrange(0, i as int), texts(terminal@))[k],
        decreases tasks@.len() - i,
    {
        proof {
            let now = all.subrange(0, i + 1);
            assert(now.drop_last() =~= all.subrange(0, i as int));
            assert(now.last() == tasks@[i as int]@);
        }
        if !list_has(terminal, tasks[i].status.as_str()) {
            r.push(i);
        }
        i = i + 1;
    }
    proof {
        assert(all.subrange(0, all.len() as int) =~= all);
    }
    r
}

// ---------------------------------------------------------------------
// terminate_agent
// ---------------------------------------------------------------------

/// The dialogue of `terminate_agent`: end the agent's service, hand its open
/// tasks back, write the audit line, and wake everyone where tasks came free.
pub open spec fn terminate_agent_next(c: CallView, h: Seq<EventView>) -> ActionView {
    match text_field(c.arguments, "agent_id"@) {
        None => invalid_view(Some("agent_id"@), "`agent_id` to terminate is required."@),
        Some(id) => if h.len() == 0 {
            ActionView::TerminateAgent { agent_id: id, timestamp: c.now }
        } else {
            match h[0] {
                EventView::Changed(false) => not_found_view("agent"@, id),
                EventView::Changed(true) => if h.len() == 1 {
                    ActionView::ListTasksOf { agent_id: id }
                } else {
                    let freed = open_tasks(tasks_in(h[1]), c.terminal_task_statuses);
                    let k = h.len() - 2;
                    if k < freed.len() {
                        ActionView::ReleaseTask {
                            task_id: freed[k].task_id,
                            status: Some("unassigned"@),
                            timestamp: c.now,
                        }
                    } else if k == freed.len() {
                        ActionView::LogAction {
                            agent_id: "admin"@,
                            action_type: "terminated_agent"@,
                            task_id: None,
                            details: agent_ref(id),
                            timestamp: c.now,
                        }
                    } else {
                        broadcast_view(
                            h,
                            3 + freed.len() as int,
                            freed.len() > 0,
                            terminated_view(id),
                        )
                    }
                },
                _ => failed_view(db_error_text()),
            }
        },
    }
}

/// The outcome of a termination.
pub open spec fn terminated_view(id: Seq<char>) -> ActionView {
    done_view(
        JsonView::Object(
            map!["agent_id"@ => JsonView::Text(id), "status"@ => JsonView::Text("terminated"@)],
        ),
        "Agent '"@ + id
            + "' terminated. The token is revoked, but your local client session is still running — close it manually if you want it to stop."@,
    )
}

/// A termination hands back none but unfinished tasks of the agent.
pub proof fn termination_keeps_finished_tasks(c: CallView, h: Seq<EventView>)
    ensures
        match terminate_agent_next(c, h) {
            ActionView::ReleaseTask { task_id, .. } => h.len() >= 2 && exists|t: TaskRowView|
                tasks_in(h[1]).contains(t) && t.task_id == task_id
                    && !c.terminal_task_statuses.contains(t.status),
            _ => true,
        },
{
    if h.len() >= 2 {
        let freed = open_tasks(tasks_in(h[1]), c.terminal_task_statuses);
        let k = h.len() - 2;
        if k < freed.len() {
            open_tasks_are_unfinished(tasks_in(h[1]), c.terminal_task_statuses, k);
        }
    }
}

/// `terminate_agent`: takes an agent out of service.
pub struct TerminateAgentTool;

impl TerminateAgentTool {
    fn terminated(id: &str) -> (r: Action)
        ensures
            r@ == terminated_view(id@),
    {
        let mut f: Fields = Fields::new();
        f.put("agent_id", jtext(id));
        f.put("status", jtext("terminated"));
        let message: String = cat3(
            "Agent '",
            id,
            "' terminated. The token is revoked, but your local client session is still running — close it manually if you want it to stop.",
        );
        done(f.done(), message)
    }

    fn after_tasks(call: &Call, id: &str, tasks: &Vec<TaskRow>, history: &Vec<Event>) -> (r: Action)
        requires
            history@.len() >= 2,
            events(history@)[0] == EventView::Changed(true),
            text_field(call@.arguments, "agent_id"@) == Some(id@),
            tasks_in(events(history@)[1]) == task_rows(tasks@),
        ensures
            r@ == terminate_agent_next(call@, events(history@)),
    {
        let freed: Vec<usize> = find_open(tasks, &call.terminal_task_statuses);
        let k: usize = history.len() - 2;
        if k < freed.len() {
            return Action::ReleaseTask {
                task_id: own(tasks[freed[k]].task_id.as_str()),
                status: Some(own("unassigned")),
                timestamp: own(call.now.as_str()),
            };
        }
        if k == freed.len() {
            return Action::LogAction {
                agent_id: own("admin"),
                action_type: own("terminated_agent"),
                task_id: None,
                details: refer(id),
                timestamp: own(call.now.as_str()),
            };
        }
        broadcast(
            history,
            3 + freed.len(),
            freed.len() > 0,
            TerminateAgentTool::terminated(id),
        )
    }

    /// What to do after `history`.
    pub fn next(call: &Call, history: &Vec<Event>) -> (r: Action)
        ensures
            r@ == terminate_agent_next(call@, events(history@)),
    {
        let id: &str = match call.arguments.text_at("agent_id") {
            Some(id) => id,
            None => {
                return invalid("agent_id", "`agent_id` to terminate is required.");
            },
        };
        if history.len() == 0 {
            return Action::TerminateAgent { agent_id: own(id), timestamp: own(call.now.as_str()) };
        }
        match &history[0] {
            Event::Changed(true) => {},
            Event::Changed(false) => {
                return not_found("agent", id);
            },
            _ => {
                return db_error();
            },
        }
        if history.len() == 1 {
            return Action::ListTasksOf { agent_id: own(id) };
        }
        match &history[1] {
            Event::Tasks(tasks) => TerminateAgentTool::after_tasks(call, id, tasks, history),
            _ => {
                let none: Vec<TaskRow> = Vec::new();
                proof {
                    assert(task_rows(none@) =~= Seq::empty());
                }
                TerminateAgentTool::after_tasks(call, id, &none, history)
            },
        }
    }
}

// ---------------------------------------------------------------------
// purge_agent
// ---------------------------------------------------------------------

/// The name that stands for a deleted agent.
pub open spec fn tombstone(agent_id: Seq<char>) -> Seq<char> {
    "[deleted-"@ + agent_id + "]"@
}

/// The name that stands for a deleted agent.
pub fn purge_tombstone(agent_id: &str) -> (r: String)
    ensures
        r@ == tombstone(agent_id@),
{
    cat3("[deleted-", agent_id, "]")
}

/// A tombstone holds a character that no registered name may hold, and two
/// agents never share a tombstone.
pub proof fn tombstones_are_no_agent_names(a: Seq<char>, b: Seq<char>)
    ensures
        crate::admin_tools::has_bracket(tombstone(a)),
        tombstone(a) == tombstone(b) ==> a == b,
{
    reveal_strlit("[deleted-");
    reveal_strlit("]");
    assert(tombstone(a)[0] == '[');
    if tombstone(a) == tombstone(b) {
        assert(a.len() + 10 == tombstone(a).len());
        assert(b.len() + 10 == tombstone(b).len());
        assert(tombstone(a).subrange(9, 9 + a.len() as int) =~= a);
        assert(tombstone(b).subrange(9, 9 + b.len() as int) =~= b);
    }
}

/// What is counted of an agent, in this order.
pub open spec fn count_kind(i: int) -> CountKind {
    if i == 0 {
        CountKind::MessagesSent
    } else if i == 1 {
        CountKind::MessagesReceived
    } else if i == 2 {
        CountKind::TasksCreated
    } else if i == 3 {
        CountKind::TasksAssigned
    } else {
        CountKind::AgentActions
    }
}

fn kind_of(i: usize) -> (r: CountKind)
    ensures
        r == count_kind(i as int),
{
    if i == 0 {
        CountKind::MessagesSent
    } else if i == 1 {
        CountKind::MessagesReceived
    } else if i == 2 {
        CountKind::TasksCreated
    } else if i == 3 {
        CountKind::TasksAssigned
    } else {
        CountKind::AgentActions
    }
}

/// The number of an event; zero where it has none.
pub open spec fn count_in(e: EventView) -> int {
    match e {
        EventView::Count(n) => n as int,
        _ => 0,
    }
}

/// The five counts that `h` answers from event `at` on.
pub open spec fn counts_json(h: Seq<EventView>, at: int) -> JsonView {
    JsonView::Object(
        map![
        "messages_sent"@ => int_json(count_in(h[at])),
        "messages_received"@ => int_json(count_in(h[at + 1])),
        "tasks_created"@ => int_json(count_in(h[at + 2])),
        "tasks_assigned"@ => int_json(count_in(h[at + 3])),
        "agent_actions"@ => int_json(count_in(h[at + 4]))
    ],
    )
}

fn count_at(history: &Vec<Event>, i: usize) -> (r: Json)
    requires
        i < history@.len(),
    ensures
        r@ == int_json(count_in(events(history@)[i as int])),
{
    match &history[i] {
        Event::Count(n) => jint(*n),
        _ => jint(0),
    }
}

fn counts(history: &Vec<Event>, at: usize) -> (r: Json)
    requires
        at <= 1,
        at + 5 <= history@.len(),
    ensures
        r@ == counts_json(events(history@), at as int),
{
    let mut f: Fields = Fields::new();
    f.put("messages_sent", count_at(history, at));
    f.put("messages_received", count_at(history, at + 1));
    f.put("tasks_created", count_at(history, at + 2));
    f.put("tasks_assigned", count_at(history, at + 3));
    f.put("agent_actions", count_at(history, at + 4));
    f.done()
}

/// The data that `purge_agent` records and returns.
pub open spec fn purge_data(id: Seq<char>, h: Seq<EventView>) -> JsonView {
    JsonView::Object(
        map![
        "agent_id"@ => JsonView::Text(id),
        "tombstone"@ => JsonView::Text(tombstone(id)),
        "counts"@ => counts_json(h, 1)
    ],
    )
}

/// The dialogue of `purge_agent`.
///
/// Look the agent up, take the counts, store the tombstone, then put it in
/// the agent's place in messages, as the creator of tasks, in its own tasks
/// and in the audit trail, drop its sessions, write the audit line, delete
/// the row, and wake everyone where tasks came free.
pub open spec fn purge_agent_next(c: CallView, h: Seq<EventView>) -> ActionView {
    match text_field(c.arguments, "agent_id"@) {
        None => invalid_view(Some("agent_id"@), "`agent_id` is required."@),
        Some(id) => if h.len() == 0 {
            ActionView::GetAgent { agent_id: id }
        } else {
            match h[0] {
                EventView::Agent(Some(_)) => if h.len() <= 5 {
                    ActionView::Count { kind: count_kind(h.len() - 1), agent_id: id }
                } else if h.len() == 6 {
                    ActionView::InsertTombstone {
                        token: "__tombstone_"@ + id,
                        agent_id: tombstone(id),
                        timestamp: c.now,
                    }
                } else if is_failure(h[6]) {
                    failed_view(db_error_text())
                } else if h.len() == 7 {
                    ActionView::RenameInMessages { from: id, to: tombstone(id) }
                } else if h.len() == 8 {
                    ActionView::RenameTaskCreator { from: id, to: tombstone(id) }
                } else if h.len() == 9 {
                    ActionView::ListTasksOf { agent_id: id }
                } else {
                    purge_tail(c, id, tasks_in(h[9]), h)
                },
                _ => not_found_view("agent"@, id),
            }
        },
    }
}

/// The part of `purge_agent` that follows the listing of the agent's tasks.
pub open spec fn purge_tail(
    c: CallView,
    id: Seq<char>,
    tasks: Seq<TaskRowView>,
    h: Seq<EventView>,
) -> ActionView {
    let k = h.len() - 10;
    let rest = k - tasks.len();
    if k < tasks.len() {
        ActionView::ReleaseTask {
            task_id: tasks[k].task_id,
            status: if c.terminal_task_statuses.contains(tasks[k].status) {
                None
            } else {
                Some("unassigned"@)
            },
            timestamp: c.now,
        }
    } else if rest == 0 {
        ActionView::RenameInActions { from: id, to: tombstone(id) }
    } else if rest == 1 {
        ActionView::DeleteSessions { agent_id: id }
    } else if rest == 2 {
        operator_log(c.principal, "purged_agent"@, purge_data(id, h), c.now)
    } else if rest == 3 {
        ActionView::DeleteAgent { agent_id: id }
    } else if is_failure(h[13 + tasks.len() as int]) {
        failed_view(db_error_text())
    } else {
        broadcast_view(
            h,
            14 + tasks.len() as int,
            open_tasks(tasks, c.terminal_task_statuses).len() > 0,
            done_view(purge_data(id, h), "Agent '"@ + id + "' purged"@),
        )
    }
}

/// A purge gives no finished task a new status: it only takes the agent from
/// it.
pub proof fn purge_keeps_the_status_of_finished_tasks(c: CallView, h: Seq<EventView>)
    ensures
        match purge_agent_next(c, h) {
            ActionView::ReleaseTask { task_id, status, .. } => h.len() >= 10 && {
                let tasks = tasks_in(h[9]);
                let k = h.len() - 10;
                &&& 0 <= k < tasks.len()
                &&& task_id == tasks[k].task_id
                &&& (status is None <==> c.terminal_task_statuses.contains(tasks[k].status))
            },
            _ => true,
        },
{
}

/// The row of a purged agent is deleted only when the tombstone is stored, it
/// has taken the agent's place in messages, as the creator of tasks and in the
/// audit trail, every task of the agent is released, its sessions are dropped
/// and the audit line is written.
pub proof fn purge_deletes_last(c: CallView, h: Seq<EventView>)
    requires
        purge_agent_next(c, h) is DeleteAgent,
    ensures
        h.len() > 10,
        !(is_failure(h[6])),
        purge_agent_next(c, h.subrange(0, 6)) is InsertTombstone,
        ({
            let id = text_field(c.arguments, "agent_id"@)->0;
            let n = tasks_in(h[9]).len() as int;
            &&& h.len() == 13 + n
            &&& purge_agent_next(c, h) == ActionView::DeleteAgent { agent_id: id }
            &&& purge_agent_next(c, h.subrange(0, 7)) == ActionView::RenameInMessages {
                from: id,
                to: tombstone(id),
            }
            &&& purge_agent_next(c, h.subrange(0, 8)) == ActionView::RenameTaskCreator {
                from: id,
                to: tombstone(id),
            }
            &&& purge_agent_next(c, h.subrange(0, 9)) == ActionView::ListTasksOf { agent_id: id }
            &&& purge_agent_next(c, h.subrange(0, 10 + n)) == ActionView::RenameInActions {
                from: id,
                to: tombstone(id),
            }
            &&& purge_agent_next(c, h.subrange(0, 11 + n)) == ActionView::DeleteSessions {
                agent_id: id,
            }
        }),
        purge_agent_next(c, h.drop_last()) is LogAction,
        forall|k: int|
            0 <= k < tasks_in(h[9]).len() ==> #[trigger] purge_agent_next(
                c,
                h.subrange(0, 10 + k),
            ) is ReleaseTask,
{
    let id = text_field(c.arguments, "agent_id"@)->0;
    assert(h[0] is Agent);
    assert(h.len() >= 10);
    let d = h.drop_last();
    assert(d[0] == h[0] && d[6] == h[6] && d[9] == h[9]);
    let p = h.subrange(0, 6);
    assert(p[0] == h[0]);
    let n = tasks_in(h[9]).len() as int;
    assert(h.subrange(0, 7)[0] == h[0] && h.subrange(0, 7)[6] == h[6]);
    assert(h.subrange(0, 8)[0] == h[0] && h.subrange(0, 8)[6] == h[6]);
    assert(h.subrange(0, 9)[0] == h[0] && h.subrange(0, 9)[6] == h[6]);
    let m = h.subrange(0, 10 + n);
    assert(m[0] == h[0] && m[6] == h[6] && m[9] == h[9]);
    let t = h.subrange(0, 11 + n);
    assert(t[0] == h[0] && t[6] == h[6] && t[9] == h[9]);
    assert forall|k: int| 0 <= k < tasks_in(h[9]).len() implies #[trigger] purge_agent_next(
        c,
        h.subrange(0, 10 + k),
    ) is ReleaseTask by {
        let q = h.subrange(0, 10 + k);
        assert(q[0] == h[0] && q[6] == h[6] && q[9] == h[9]);
    }
}

/// `purge_agent`: deletes an agent and puts a tombstone in its place.
pub struct PurgeAgentTool;

impl PurgeAgentTool {
    fn data(id: &str, history: &Vec<Event>) -> (r: Json)
        requires
            history@.len() >= 6,
        ensures
            r@ == purge_data(id@, events(history@)),
    {
        let t: String = purge_tombstone(id);
        let mut f: Fields = Fields::new();
        f.put("agent_id", jtext(id));
        f.put("tombstone", jtext(t.as_str()));
        f.put("counts", counts(history, 1));
        f.done()
    }

    fn tail(call: &Call, id: &str, tasks: &Vec<TaskRow>, history: &Vec<Event>) -> (r: Action)
        requires
            history@.len() >= 10,
        ensures
            r@ == purge_tail(call@, id@, task_rows(tasks@), events(history@)),
    {
        let k: usize = history.len() - 10;
        if k < tasks.len() {
            let status: Option<String> = if list_has(
                &call.terminal_task_statuses,
                tasks[k].status.as_str(),
            ) {
                None
            } else {
                Some(own("unassigned"))
            };
            return Action::ReleaseTask {
                task_id: own(tasks[k].task_id.as_str()),
                status,
                timestamp: own(call.now.as_str()),
            };
        }
        let rest: usize = k - tasks.len();
        if rest == 0 {
            return Action::RenameInActions { from: own(id), to: purge_tombstone(id) };
        }
        if rest == 1 {
            return Action::DeleteSessions { agent_id: own(id) };
        }
        if rest == 2 {
            return log_operator(
                call.caller(),
                "purged_agent",
                PurgeAgentTool::data(id, history),
                call.now.as_str(),
            );
        }
        if rest == 3 {
            return Action::DeleteAgent { agent_id: own(id) };
        }
        if event_failed(&history[13 + tasks.len()]) {
            return db_error();
        }
        let freed: Vec<usize> = find_open(tasks, &call.terminal_task_statuses);
        broadcast(
            history,
            14 + tasks.len(),
            freed.len() > 0,
            done(PurgeAgentTool::data(id, history), cat3("Agent '", id, "' purged")),
        )
    }

    /// What to do after `history`.
    pub fn next(call: &Call, history: &Vec<Event>) -> (r: Action)
        ensures
            r@ == purge_agent_next(call@, events(history@)),
    {
        let id: &str = match call.arguments.text_at("agent_id") {
            Some(id) => id,
            None => {
                return invalid("agent_id", "`agent_id` is required.");
            },
        };
        let n: usize = history.len();
        if n == 0 {
            return Action::GetAgent { agent_id: own(id) };
        }
        match &history[0] {
            Event::Agent(Some(_)) => {},
            _ => {
                return not_found("agent", id);
            },
        }
        if n <= 5 {
            return Action::Count { kind: kind_of(n - 1), agent_id: own(id) };
        }
        if n == 6 {
            return Action::InsertTombstone {
                token: cat2("__tombstone_", id),
                agent_id: purge_tombstone(id),
                timestamp: own(call.now.as_str()),
            };
        }
        if event_failed(&history[6]) {
            return db_error();
        }
        if n == 7 {
            return Action::RenameInMessages { from: own(id), to: purge_tombstone(id) };
        }
        if n == 8 {
            return Action::RenameTaskCreator { from: own(id), to: purge_tombstone(id) };
        }
        if n == 9 {
            return Action::ListTasksOf { agent_id: own(id) };
        }
        match &history[9] {
            Event::Tasks(tasks) => PurgeAgentTool::tail(call, id, tasks, history),
            _ => {
                let none: Vec<TaskRow> = Vec::new();
                proof {
                    assert(task_rows(none@) =~= Seq::empty());
                }
                PurgeAgentTool::tail(call, id, &none, history)
            },
        }
    }
}

// ---------------------------------------------------------------------
// Preview of a purge
// ---------------------------------------------------------------------

/// A sample of a sent message: its first eighty characters and its time.
pub open spec fn message_sample(m: SentMessageView) -> JsonView {
    JsonView::Object(
        map![
        "content"@ => JsonView::Text(shortened(m.content, 80)),
        "timestamp"@ => JsonView::Text(m.timestamp)
    ],
    )
}

/// The samples that an event holds.
pub open spec fn message_samples(e: EventView) -> JsonView {
    match e {
        EventView::Sent(v) => JsonView::List(
            v.map_values(|m: SentMessageView| message_sample(m)),
        ),
        _ => JsonView::List(Seq::empty()),
    }
}

/// The titles that an event holds.
pub open spec fn titles_in(e: EventView) -> JsonView {
    match e {
        EventView::Texts(v) => texts_json(v),
        _ => JsonView::List(Seq::empty()),
    }
}

/// What a purge of an agent would touch: counts and up to three samples of
/// each kind. Nothing is changed.
pub open spec fn purge_preview_next(id: Seq<char>, h: Seq<EventView>) -> ActionView {
    if h.len() < 5 {
        ActionView::Count { kind: count_kind(h.len() as int), agent_id: id }
    } else if h.len() == 5 {
        ActionView::ListSentMessages { agent_id: id, limit: 3 }
    } else if h.len() == 6 {
        ActionView::ListTaskTitles { agent_id: id, assigned: false, limit: 3 }
    } else if h.len() == 7 {
        ActionView::ListTaskTitles { agent_id: id, assigned: true, limit: 3 }
    } else {
        ActionView::Finish(
            ResultView::Success {
                data: Some(
                    JsonView::Object(
                        map![
                        "counts"@ => counts_json(h, 0),
                        "samples"@ => JsonView::Object(map![
                            "messages_sent"@ => message_samples(h[5]),
                            "tasks_created"@ => titles_in(h[6]),
                            "tasks_assigned"@ => titles_in(h[7])
                        ])
                    ],
                    ),
                ),
                message: None,
            },
        )
    }
}

fn samples(e: &Event) -> (r: Json)
    ensures
        r@ == message_samples(e@),
{
    let mut items: Items = Items::new();
    match e {
        Event::Sent(v) => {
            let mut i: usize = 0;
            while i < v.len()
                invariant
                    i <= v@.len(),
                    items@.len() == i,
                    forall|k: int| 0 <= k < i ==> #[trigger] items@[k] == message_sample(v@[k]@),
                decreases v@.len() - i,
            {
                let content: String = shorten(v[i].content.as_str(), 80);
                let mut f: Fields = Fields::new();
                f.put("content", jtext(content.as_str()));
                f.put("timestamp", jtext(v[i].timestamp.as_str()));
                items.push(f.done());
                i = i + 1;
            }
            proof {
                assert(items@ =~= sent_messages(v@).map_values(
                    |m: SentMessageView| message_sample(m),
                ));
            }
        },
        _ => {},
    }
    items.done()
}

fn titles(e: &Event) -> (r: Json)
    ensures
        r@ == titles_in(e@),
{
    match e {
        Event::Texts(v) => jtexts(v),
        _ => {
            let items: Items = Items::new();
            items.done()
        },
    }
}

/// What to do next to preview the purge of `agent_id`.
pub fn gather_purge_preview(agent_id: &str, history: &Vec<Event>) -> (r: Action)
    ensures
        r@ == purge_preview_next(agent_id@, events(history@)),
{
    let n: usize = history.len();
    if n < 5 {
        return Action::Count { kind: kind_of(n), agent_id: own(agent_id) };
    }
    if n == 5 {
        return Action::ListSentMessages { agent_id: own(agent_id), limit: 3 };
    }
    if n == 6 {
        return Action::ListTaskTitles { agent_id: own(agent_id), assigned: false, limit: 3 };
    }
    if n == 7 {
        return Action::ListTaskTitles { agent_id: own(agent_id), assigned: true, limit: 3 };
    }
    let mut s: Fields = Fields::new();
    s.put("messages_sent", samples(&history[5]));
    s.put("tasks_created", titles(&history[6]));
    s.put("tasks_assigned", titles(&history[7]));
    let mut f: Fields = Fields::new();
    f.put("counts", counts(history, 0));
    f.put("samples", s.done());
    Action::Finish(ToolResult::Success { data: Some(f.done()), message: None })
}

/// A preview only reads.
pub proof fn preview_changes_nothing(id: Seq<char>, h: Seq<EventView>)
    ensures
        match purge_preview_next(id, h) {
            ActionView::Count { .. } => true,
            ActionView::ListSentMessages { .. } => true,
            ActionView::ListTaskTitles { .. } => true,
            ActionView::Finish(_) => true,
            _ => false,
        },
{
}

// ---------------------------------------------------------------------
// Pausing and resuming
// ---------------------------------------------------------------------

/// What a caller without the permission reads.
pub const OPERATOR_REQUIRED_REASON: &'static str =
    "Operator session or system token required for admin tools.";

/// The refusal for a caller who may not terminate agents.
fn require_agents_terminate_capability(principal: Option<&Principal>) -> (r: Option<Action>)
    ensures
        match r {
            Some(a) => !caller_has(caller_view(principal), Capability::AgentsTerminate) && a@
                == denied_view(OPERATOR_REQUIRED_REASON@),
            None => caller_has(caller_view(principal), Capability::AgentsTerminate),
        },
{
    if has_capability(principal, Capability::AgentsTerminate) {
        None
    } else {
        Some(denied(OPERATOR_REQUIRED_REASON))
    }
}

/// The dialogue that switches an agent's event loop to `on`: look the agent
/// up, write the switch, write the audit line, wake the agent.
pub open spec fn switch_agent_next(
    p: Option<PrincipalView>,
    id: Seq<char>,
    now: Seq<char>,
    h: Seq<EventView>,
    on: bool,
    action_type: Seq<char>,
    end: ActionView,
) -> ActionView {
    if !caller_has(p, Capability::AgentsTerminate) {
        denied_view(OPERATOR_REQUIRED_REASON@)
    } else if h.len() == 0 {
        ActionView::GetAgent { agent_id: id }
    } else {
        match h[0] {
            EventView::Agent(row) => if row is None || row->0.status == "terminated"@ {
                not_found_view("agent"@, id)
            } else if h.len() == 1 {
                ActionView::UpdateAgent {
                    agent_id: id,
                    field: AgentField::AutoEventLoop,
                    value: FieldValueView::Bool(on),
                    timestamp: now,
                }
            } else if is_failure(h[1]) {
                failed_view("Failed to set auto_event_loop"@)
            } else if h.len() == 2 {
                operator_log(p, action_type, agent_ref(id), now)
            } else if h.len() == 3 {
                ActionView::Notify { agent_id: id }
            } else {
                end
            },
            _ => failed_view(db_error_text()),
        }
    }
}

fn switch_agent(
    principal: Option<&Principal>,
    agent_id: &str,
    now: &str,
    history: &Vec<Event>,
    on: bool,
    action_type: &str,
    end: Action,
) -> (r: Action)
    ensures
        r@ == switch_agent_next(
            caller_view(principal),
            agent_id@,
            now@,
            events(history@),
            on,
            action_type@,
            end@,
        ),
{
    match require_agents_terminate_capability(principal) {
        Some(a) => {
            return a;
        },
        None => {},
    }
    if history.len() == 0 {
        return Action::GetAgent { agent_id: own(agent_id) };
    }
    match &history[0] {
        Event::Agent(Some(row)) => {
            if same(row.status.as_str(), "terminated") {
                return not_found("agent", agent_id);
            }
        },
        Event::Agent(None) => {
            return not_found("agent", agent_id);
        },
        _ => {
            return db_error();
        },
    }
    if history.len() == 1 {
        return Action::UpdateAgent {
            agent_id: own(agent_id),
            field: AgentField::AutoEventLoop,
            value: FieldValue::Bool(on),
            timestamp: own(now),
        };
    }
    if event_failed(&history[1]) {
        return failed("Failed to set auto_event_loop");
    }
    if history.len() == 2 {
        return log_operator(principal, action_type, refer(agent_id), now);
    }
    if history.len() == 3 {
        return Action::Notify { agent_id: own(agent_id) };
    }
    end
}

/// The outcome of a disconnection.
pub open spec fn disconnected_view(id: Seq<char>) -> ActionView {
    done_view(
        JsonView::Object(
            map![
            "agent_id"@ => JsonView::Text(id),
            "auto_event_loop"@ => JsonView::Bool(false),
            "closed_streams"@ => int_json(0)
        ],
        ),
        "Agent '"@ + id
            + "' disconnected — monitoring paused; 0 live stream(s) closed. Reconnect to resume."@,
    )
}

/// The outcome of a reconnection.
pub open spec fn reconnected_view(id: Seq<char>) -> ActionView {
    done_view(
        JsonView::Object(
            map!["agent_id"@ => JsonView::Text(id), "auto_event_loop"@ => JsonView::Bool(true)],
        ),
        "Agent '"@ + id + "' reconnected — monitoring re-enabled."@,
    )
}

/// The dialogue of `disconnect_agent`.
pub open spec fn disconnect_agent_next(
    p: Option<PrincipalView>,
    id: Seq<char>,
    now: Seq<char>,
    h: Seq<EventView>,
) -> ActionView {
    switch_agent_next(p, id, now, h, false, "disconnected_agent"@, disconnected_view(id))
}

/// What to do next to pause an agent's event loop.
pub fn disconnect_agent(
    principal: Option<&Principal>,
    agent_id: &str,
    now: &str,
    history: &Vec<Event>,
) -> (r: Action)
    ensures
        r@ == switch_agent_next(
            caller_view(principal),
            agent_id@,
            now@,
            events(history@),
            false,
            "disconnected_agent"@,
            disconnected_view(agent_id@),
        ),
        r@ == disconnect_agent_next(caller_view(principal), agent_id@, now@, events(history@)),
{
    let mut f: Fields = Fields::new();
    f.put("agent_id", jtext(agent_id));
    f.put("auto_event_loop", Json::Bool(false));
    f.put("closed_streams", jint(0));
    let message: String = cat3(
        "Agent '",
        agent_id,
        "' disconnected — monitoring paused; 0 live stream(s) closed. Reconnect to resume.",
    );
    switch_agent(
        principal,
        agent_id,
        now,
        history,
        false,
        "disconnected_agent",
        done(f.done(), message),
    )
}

/// The dialogue of `reconnect_agent`.
pub open spec fn reconnect_agent_next(
    p: Option<PrincipalView>,
    id: Seq<char>,
    now: Seq<char>,
    h: Seq<EventView>,
) -> ActionView {
    switch_agent_next(p, id, now, h, true, "reconnected_agent"@, reconnected_view(id))
}

/// What to do next to resume an agent's event loop.
pub fn reconnect_agent(
    principal: Option<&Principal>,
    agent_id: &str,
    now: &str,
    history: &Vec<Event>,
) -> (r: Action)
    ensures
        r@ == switch_agent_next(
            caller_view(principal),
            agent_id@,
            now@,
            events(history@),
            true,
            "reconnected_agent"@,
            reconnected_view(agent_id@),
        ),
        r@ == reconnect_agent_next(caller_view(principal), agent_id@, now@, events(history@)),
{
    let mut f: Fields = Fields::new();
    f.put("agent_id", jtext(agent_id));
    f.put("auto_event_loop", Json::Bool(true));
    let message: String = cat3("Agent '", agent_id, "' reconnected — monitoring re-enabled.");
    switch_agent(
        principal,
        agent_id,
        now,
        history,
        true,
        "reconnected_agent",
        done(f.done(), message),
    )
}

/// The dialogue that switches everyone's event loop: write the setting, write
/// the audit line, wake everyone.
pub open spec fn switch_all_next(
    p: Option<PrincipalView>,
    now: Seq<char>,
    h: Seq<EventView>,
    value: Seq<char>,
    action_type: Seq<char>,
    failure: Seq<char>,
    end: ActionView,
) -> ActionView {
    if !caller_has(p, Capability::AgentsTerminate) {
        denied_view(OPERATOR_REQUIRED_REASON@)
    } else if h.len() == 0 {
        ActionView::PutSetting {
            key: "config_auto_event_loop_global"@,
            value,
            updated_by: label_or(p, "operator"@),
            timestamp: now,
        }
    } else if is_failure(h[0]) {
        failed_view(failure)
    } else if h.len() == 1 {
        operator_log(p, action_type, JsonView::Object(Map::empty()), now)
    } else {
        broadcast_view(h, 2, true, end)
    }
}

fn switch_all(
    principal: Option<&Principal>,
    now: &str,
    history: &Vec<Event>,
    value: &str,
    action_type: &str,
    failure: &str,
    end: Action,
) -> (r: Action)
    ensures
        r@ == switch_all_next(
            caller_view(principal),
            now@,
            events(history@),
            value@,
            action_type@,
            failure@,
            end@,
        ),
{
    match require_agents_terminate_capability(principal) {
        Some(a) => {
            return a;
        },
        None => {},
    }
    if history.len() == 0 {
        return Action::PutSetting {
            key: own("config_auto_event_loop_global"),
            value: own(value),
            updated_by: own(actor_label(principal, "operator")),
            timestamp: own(now),
        };
    }
    if event_failed(&history[0]) {
        return failed(failure);
    }
    if history.len() == 1 {
        let f: Fields = Fields::new();
        return log_operator(principal, action_type, f.done(), now);
    }
    broadcast(history, 2, true, end)
}

/// The outcome of a disconnection of everyone.
pub open spec fn all_disconnected_view() -> ActionView {
    done_view(
        JsonView::Object(map!["closed_streams"@ => int_json(0)]),
        "All agents disconnected — global monitoring paused; 0 live stream(s) closed. Reconnect-all to resume."@,
    )
}

/// The outcome of a reconnection of everyone.
pub open spec fn all_reconnected_view() -> ActionView {
    done_view(
        JsonView::Object(Map::empty()),
        "All agents reconnected — global monitoring re-enabled."@,
    )
}

/// The dialogue of `disconnect_all_agents`.
pub open spec fn disconnect_all_agents_next(
    p: Option<PrincipalView>,
    now: Seq<char>,
    h: Seq<EventView>,
) -> ActionView {
    switch_all_next(
        p,
        now,
        h,
        "false"@,
        "disconnected_all_agents"@,
        "Database error on disconnect-all"@,
        all_disconnected_view(),
    )
}

/// What to do next to pause everyone's event loop.
pub fn disconnect_all_agents(
    principal: Option<&Principal>,
    now: &str,
    history: &Vec<Event>,
) -> (r: Action)
    ensures
        r@ == switch_all_next(
            caller_view(principal),
            now@,
            events(history@),
            "false"@,
            "disconnected_all_agents"@,
            "Database error on disconnect-all"@,
            all_disconnected_view(),
        ),
        r@ == disconnect_all_agents_next(caller_view(principal), now@, events(history@)),
{
    let mut f: Fields = Fields::new();
    f.put("closed_streams", jint(0));
    let end: Action = done(
        f.done(),
        own(
            "All agents disconnected — global monitoring paused; 0 live stream(s) closed. Reconnect-all to resume.",
        ),
    );
    switch_all(
        principal,
        now,
        history,
        "false",
        "disconnected_all_agents",
        "Database error on disconnect-all",
        end,
    )
}

/// The dialogue of `reconnect_all_agents`.
pub open spec fn reconnect_all_agents_next(
    p: Option<PrincipalView>,
    now: Seq<char>,
    h: Seq<EventView>,
) -> ActionView {
    switch_all_next(
        p,
        now,
        h,
        "true"@,
        "reconnected_all_agents"@,
        "Database error on reconnect-all"@,
        all_reconnected_view(),
    )
}

/// What to do next to resume everyone's event loop.
pub fn reconnect_all_agents(
    principal: Option<&Principal>,
    now: &str,
    history: &Vec<Event>,
) -> (r: Action)
    ensures
        r@ == switch_all_next(
            caller_view(principal),
            now@,
            events(history@),
            "true"@,
            "reconnected_all_agents"@,
            "Database error on reconnect-all"@,
            all_reconnected_view(),
        ),
        r@ == reconnect_all_agents_next(caller_view(principal), now@, events(history@)),
{
    let f: Fields = Fields::new();
    let end: Action = done(
        f.done(),
        own("All agents reconnected — global monitoring re-enabled."),
    );
    switch_all(
        principal,
        now,
        history,
        "true",
        "reconnected_all_agents",
        "Database error on reconnect-all",
        end,
    )
}

/// Without the permission to terminate agents nothing is read, written or
/// woken by any of the four switches: the call is refused at once.
pub proof fn switches_need_the_permission(
    p: Option<PrincipalView>,
    id: Seq<char>,
    now: Seq<char>,
    h: Seq<EventView>,
    on: bool,
    text: Seq<char>,
    end: ActionView,
)
    requires
        !caller_has(p, Capability::AgentsTerminate),
    ensures
        switch_agent_next(p, id, now, h, on, text, end) matches ActionView::Finish(
            ResultView::PermissionDenied { .. },
        ),
        switch_all_next(p, now, h, text, text, text, end) matches ActionView::Finish(
            ResultView::PermissionDenied { .. },
        ),
{
}

} // verus!

//! What becomes of agents after they are registered.

use crate::agent_lifecycle::{
    disconnect_agent_next, disconnect_all_agents_next, edit_agent_next, edited_fields, open_tasks,
    purge_agent_next, purge_preview_next, reconnect_agent_next, reconnect_all_agents_next,
    restore_agent_next, rotate_agent_token_next, supplied, tasks_in, terminate_agent_next,
};
use crate::json::{bool_field, field, int_json, list_field, text_field, JsonView};
use crate::principal::{caller_has, Capability, PrincipalView};
use crate::protocol::{
    first_failed, is_failure, ActionView, AgentField, AgentRowView, CallView, CountKind,
    EventView, FieldValueView, ResultView, SentMessageView, TaskRowView,
};
use crate::text::holds;
use vstd::prelude::*;

verus! {

/// Whether a line of the audit trail is in the caller's name and at the call's
/// time.
pub open spec fn logged(a: ActionView, p: Option<PrincipalView>, now: Seq<char>, what: Seq<char>) -> bool {
    &&& a is LogAction
    &&& a->LogAction_action_type == what
    &&& p is Some ==> a->LogAction_agent_id == p->0.actor_label
    &&& p is None ==> a->LogAction_agent_id == "operator"@
    &&& a->LogAction_timestamp == now
}

/// Whether a call ends because there is no agent `id`.
pub open spec fn is_missing(a: ActionView, id: Seq<char>) -> bool {
    &&& a is Finish && a->Finish_0 is NotFound
    &&& a->Finish_0->NotFound_resource == "agent"@
    &&& a->Finish_0->NotFound_identifier == id
}

/// Every tool on one agent needs the agent's name and looks the agent up first;
/// one that is not there is not found.
pub proof fn agents_are_looked_up_first(c: CallView, h: Seq<EventView>, id: Seq<char>)
    ensures
        text_field(c.arguments, "agent_id"@) is None ==> {
            &&& rotate_agent_token_next(c, h) matches ActionView::Finish(
                ResultView::Invalid { field: f, .. },
            ) && f == Some("agent_id"@)
            &&& restore_agent_next(c, h) matches ActionView::Finish(
                ResultView::Invalid { field: f, .. },
            ) && f == Some("agent_id"@)
            &&& edit_agent_next(c, h) matches ActionView::Finish(
                ResultView::Invalid { field: f, .. },
            ) && f == Some("agent_id"@)
            &&& terminate_agent_next(c, h) matches ActionView::Finish(
                ResultView::Invalid { field: f, .. },
            ) && f == Some("agent_id"@)
            &&& purge_agent_next(c, h) matches ActionView::Finish(
                ResultView::Invalid { field: f, .. },
            ) && f == Some("agent_id"@)
        },
        text_field(c.arguments, "agent_id"@) == Some(id) ==> {
            let none = seq![EventView::Agent(None)];
            let ask = ActionView::GetAgent { agent_id: id };
            &&& rotate_agent_token_next(c, Seq::empty()) == ask
            &&& restore_agent_next(c, Seq::empty()) == ask
            &&& purge_agent_next(c, Seq::empty()) == ask
            &&& is_missing(rotate_agent_token_next(c, none), id)
            &&& is_missing(restore_agent_next(c, none), id)
            &&& is_missing(purge_agent_next(c, none), id)
            &&& terminate_agent_next(c, Seq::empty()) == (ActionView::TerminateAgent {
                agent_id: id,
                timestamp: c.now,
            })
            &&& is_missing(terminate_agent_next(c, seq![EventView::Changed(false)]), id)
        },
{
    let none = seq![EventView::Agent(None)];
    assert(none[0] == EventView::Agent(None));
    let gone = seq![EventView::Changed(false)];
    assert(gone[0] == EventView::Changed(false));
}

/// Whether a token is of more than four characters, all in ASCII.
pub open spec fn is_plain_token(s: Seq<char>) -> bool {
    s.len() > 4 && forall|i: int| 0 <= i < s.len() ==> (#[trigger] s[i] as u32) < 128
}

/// A new token is the one that was minted for this call; it is stored for the
/// agent that the call names, an audit line says so, and whoever asked reads
/// that very token. An agent that has left service keeps its token.
pub proof fn rotations_hand_out_the_minted_token(
    c: CallView,
    id: Seq<char>,
    row: AgentRowView,
    token: Seq<char>,
    e: EventView,
)
    requires
        text_field(c.arguments, "agent_id"@) == Some(id),
    ensures
        ({
            let there = EventView::Agent(Some(row));
            let minted = EventView::Text(Some(token));
            let written = EventView::Changed(true);
            let line = rotate_agent_token_next(c, seq![there, minted, written]);
            let r = rotate_agent_token_next(c, seq![there, minted, written, e]);
            let data = r->Finish_0->Success_data->0;
            &&& c.terminal_agent_statuses.contains(row.status) ==> (rotate_agent_token_next(
                c,
                seq![there],
            ) matches ActionView::Finish(ResultView::Conflict { .. }))
            &&& !c.terminal_agent_statuses.contains(row.status) ==> {
                &&& rotate_agent_token_next(c, seq![there]) is MintToken
                &&& rotate_agent_token_next(c, seq![there, minted]) == (ActionView::RotateToken {
                    agent_id: id,
                    token,
                    timestamp: c.now,
                })
                &&& logged(line, c.principal, c.now, "rotated_agent_token"@)
                &&& text_field(line->LogAction_details, "agent_id"@) == Some(id)
                &&& is_plain_token(row.token) ==> text_field(
                    line->LogAction_details,
                    "old_token_suffix"@,
                ) == Some(row.token.subrange(row.token.len() - 4, row.token.len() as int))
                &&& is_plain_token(token) ==> text_field(
                    line->LogAction_details,
                    "new_token_suffix"@,
                ) == Some(token.subrange(token.len() - 4, token.len() as int))
                &&& r is Finish && r->Finish_0 is Success && r->Finish_0->Success_data is Some
                &&& text_field(data, "agent_id"@) == Some(id)
                &&& text_field(data, "token"@) == Some(token)
            }
        }),
{
    reveal_strlit("agent_id");
    reveal_strlit("token");
    reveal_strlit("old_token_suffix");
    reveal_strlit("new_token_suffix");
    assert("agent_id"@.len() == 8);
    assert("token"@.len() == 5);
    assert("old_token_suffix"@.len() == 16);
    assert("new_token_suffix"@.len() == 16);
    assert("new_token_suffix"@[0] == 'n');
    assert("old_token_suffix"@[0] == 'o');
    let there = EventView::Agent(Some(row));
    let minted = EventView::Text(Some(token));
    let written = EventView::Changed(true);
    let a = seq![there];
    let b = seq![there, minted];
    let d = seq![there, minted, written];
    let f = seq![there, minted, written, e];
    assert(a[0] == there && b[0] == there && d[0] == there && f[0] == there);
    assert(b[1] == minted && d[1] == minted && f[1] == minted);
    assert(d[2] == written && f[2] == written);
    if is_plain_token(token) {
        crate::text_laws::last_bytes_of_plain_texts(token, 4);
    }
    if is_plain_token(row.token) {
        crate::text_laws::last_bytes_of_plain_texts(row.token, 4);
    }
}

/// A terminated agent comes back into service: its status is written, then the
/// time of its end is taken away; an audit line names it and the answer says so.
/// Any other agent is left as it is.
pub proof fn restores_bring_agents_back(
    c: CallView,
    id: Seq<char>,
    row: AgentRowView,
    d: EventView,
    e: EventView,
    f: EventView,
)
    requires
        text_field(c.arguments, "agent_id"@) == Some(id),
        !is_failure(d),
    ensures
        ({
            let there = EventView::Agent(Some(row));
            let line = restore_agent_next(c, seq![there, d, e]);
            let r = restore_agent_next(c, seq![there, d, e, f]);
            let data = r->Finish_0->Success_data->0;
            &&& row.status != "terminated"@ ==> (restore_agent_next(c, seq![there]) matches
                ActionView::Finish(ResultView::Conflict { .. }))
            &&& row.status == "terminated"@ ==> {
                &&& restore_agent_next(c, seq![there]) == (ActionView::UpdateAgent {
                    agent_id: id,
                    field: AgentField::Status,
                    value: FieldValueView::Text("created"@),
                    timestamp: c.now,
                })
                &&& restore_agent_next(c, seq![there, d]) == (ActionView::UpdateAgent {
                    agent_id: id,
                    field: AgentField::TerminatedAt,
                    value: FieldValueView::OptionalText(None),
                    timestamp: c.now,
                })
                &&& logged(line, c.principal, c.now, "restored_agent"@)
                &&& text_field(line->LogAction_details, "agent_id"@) == Some(id)
                &&& r is Finish && r->Finish_0 is Success && r->Finish_0->Success_data is Some
                &&& text_field(data, "agent_id"@) == Some(id)
                &&& text_field(data, "status"@) == Some("created"@)
            }
        }),
{
    reveal_strlit("agent_id");
    reveal_strlit("status");
    assert("agent_id"@.len() == 8);
    assert("status"@.len() == 6);
    let there = EventView::Agent(Some(row));
    let s1 = seq![there];
    let s2 = seq![there, d];
    let s3 = seq![there, d, e];
    let s4 = seq![there, d, e, f];
    assert(s1[0] == there && s2[0] == there && s3[0] == there && s4[0] == there);
    assert(s2[1] == d && s3[1] == d && s4[1] == d);
}

// ---------------------------------------------------------------------
// Edits
// ---------------------------------------------------------------------

/// An edit writes only what the call has, and what it has: into the column of
/// that name goes the value of that name, an empty session becoming none.
pub proof fn edits_write_what_is_given(c: CallView, h: Seq<EventView>)
    requires
        edit_agent_next(c, h) is UpdateAgent,
    ensures
        ({
            let u = edit_agent_next(c, h);
            let f = u->UpdateAgent_field;
            let v = u->UpdateAgent_value;
            let args = c.arguments;
            &&& text_field(args, "agent_id"@) == Some(u->UpdateAgent_agent_id)
            &&& u->UpdateAgent_timestamp == c.now
            &&& f == AgentField::Color ==> field(args, "color"@) is Some && v
                == FieldValueView::OptionalText(text_field(args, "color"@))
            &&& f == AgentField::WorkingDirectory ==> field(args, "working_directory"@) is Some && (
            text_field(args, "working_directory"@) is Some ==> v == FieldValueView::Text(
                text_field(args, "working_directory"@)->0,
            ))
            &&& f == AgentField::AoeSessionId ==> field(args, "aoe_session_id"@) is Some && (
            text_field(args, "aoe_session_id"@) is Some && text_field(
                args,
                "aoe_session_id"@,
            )->0.len() > 0 ==> v == FieldValueView::OptionalText(
                text_field(args, "aoe_session_id"@),
            )) && (text_field(args, "aoe_session_id"@) is None || text_field(
                args,
                "aoe_session_id"@,
            )->0.len() == 0 ==> v == FieldValueView::OptionalText(None))
            &&& f == AgentField::AutoEventLoop ==> field(args, "auto_event_loop"@) is Some && v
                == FieldValueView::Bool(bool_field(args, "auto_event_loop"@) == Some(true))
            &&& f == AgentField::AgentRole ==> field(args, "agent_role"@) is Some && (text_field(
                args,
                "agent_role"@,
            ) is Some ==> v == FieldValueView::Text(text_field(args, "agent_role"@)->0))
            &&& f == AgentField::Color || f == AgentField::WorkingDirectory || f
                == AgentField::AoeSessionId || f == AgentField::AutoEventLoop || f
                == AgentField::AgentRole
        }),
{
    reveal_strlit("color");
    reveal_strlit("working_directory");
    reveal_strlit("aoe_session_id");
    reveal_strlit("auto_event_loop");
    reveal_strlit("agent_role");
    assert("color"@.len() == 5);
    assert("working_directory"@.len() == 17);
    assert("aoe_session_id"@.len() == 14);
    assert("auto_event_loop"@.len() == 15);
    assert("agent_role"@.len() == 10);
    reveal_strlit("");
    let updates = edited_fields(c.arguments);
    let k = h.len() - 1;
    let name = updates[k];
    lemma_edited(c.arguments, k);
    let session = text_field(c.arguments, "aoe_session_id"@);
    if session is Some && session->0.len() == 0 {
        assert(session->0 =~= ""@);
    }
}

proof fn lemma_edited(args: JsonView, k: int)
    requires
        0 <= k < edited_fields(args).len(),
    ensures
        ({
            let name = edited_fields(args)[k];
            &&& field(args, name) is Some
            &&& name == "color"@ || name == "working_directory"@ || name == "aoe_session_id"@
                || name == "auto_event_loop"@ || name == "agent_role"@
        }),
{
    let a = supplied(args, "color"@);
    let b = supplied(args, "working_directory"@);
    let d = supplied(args, "aoe_session_id"@);
    let e = supplied(args, "auto_event_loop"@);
    let f = supplied(args, "agent_role"@);
    let name = edited_fields(args)[k];
    if k < a.len() {
        assert(name == a[k]);
    } else if k < a.len() + b.len() {
        assert(name == b[k - a.len()]);
    } else if k < a.len() + b.len() + d.len() {
        assert(name == d[k - a.len() - b.len()]);
    } else if k < a.len() + b.len() + d.len() + e.len() {
        assert(name == e[k - a.len() - b.len() - d.len()]);
    } else {
        assert(name == f[k - a.len() - b.len() - d.len() - e.len()]);
    }
}

proof fn lemma_is_edited(args: JsonView, name: Seq<char>) -> (k: int)
    requires
        field(args, name) is Some,
        name == "color"@ || name == "working_directory"@ || name == "aoe_session_id"@ || name
            == "auto_event_loop"@ || name == "agent_role"@,
    ensures
        0 <= k < edited_fields(args).len(),
        edited_fields(args)[k] == name,
{
    let a = supplied(args, "color"@);
    let b = supplied(args, "working_directory"@);
    let d = supplied(args, "aoe_session_id"@);
    let e = supplied(args, "auto_event_loop"@);
    let f = supplied(args, "agent_role"@);
    let k: int = if name == "color"@ {
        0
    } else if name == "working_directory"@ {
        a.len() as int
    } else if name == "aoe_session_id"@ {
        (a.len() + b.len()) as int
    } else if name == "auto_event_loop"@ {
        (a.len() + b.len() + d.len()) as int
    } else {
        (a.len() + b.len() + d.len() + e.len()) as int
    };
    assert(supplied(args, name)[0] == name);
    assert(edited_fields(args)[k] == name);
    k
}

proof fn lemma_none_failed(h: Seq<EventView>, from: int, n: int, m: int)
    requires
        0 <= from,
        first_failed(h, from, n) is None,
        0 <= m <= h.len(),
    ensures
        first_failed(h.subrange(0, m), from, n) is None,
    decreases n,
{
    if n > 0 {
        lemma_none_failed(h, from, n - 1, m);
        if from + n - 1 < m {
            assert(h.subrange(0, m)[from + n - 1] == h[from + n - 1]);
        }
    }
}

/// An edit passes nothing over: before it ends well, every editable column that
/// the call names was written, and the answer names it.
pub proof fn every_given_column_is_edited(c: CallView, h: Seq<EventView>, name: Seq<char>) -> (n:
    int)
    requires
        edit_agent_next(c, h) is Finish,
        edit_agent_next(c, h)->Finish_0 is Success,
        field(c.arguments, name) is Some,
        name == "color"@ || name == "working_directory"@ || name == "aoe_session_id"@ || name
            == "auto_event_loop"@ || name == "agent_role"@,
    ensures
        0 <= n < h.len(),
        ({
            let u = edit_agent_next(c, h.subrange(0, n));
            let data = edit_agent_next(c, h)->Finish_0->Success_data->0;
            &&& u is UpdateAgent
            &&& name == "color"@ ==> u->UpdateAgent_field == AgentField::Color
            &&& name == "working_directory"@ ==> u->UpdateAgent_field
                == AgentField::WorkingDirectory
            &&& name == "aoe_session_id"@ ==> u->UpdateAgent_field == AgentField::AoeSessionId
            &&& name == "auto_event_loop"@ ==> u->UpdateAgent_field == AgentField::AutoEventLoop
            &&& name == "agent_role"@ ==> u->UpdateAgent_field == AgentField::AgentRole
            &&& !is_failure(h[n])
            &&& edit_agent_next(c, h)->Finish_0->Success_data is Some
            &&& text_field(data, "agent_id"@) == text_field(c.arguments, "agent_id"@)
            &&& list_field(data, "updated"@) is Some
            &&& list_field(data, "updated"@)->0.contains(JsonView::Text(name))
        }),
{
    reveal_strlit("color");
    reveal_strlit("working_directory");
    reveal_strlit("aoe_session_id");
    reveal_strlit("auto_event_loop");
    reveal_strlit("agent_role");
    assert("color"@.len() == 5);
    assert("working_directory"@.len() == 17);
    assert("aoe_session_id"@.len() == 14);
    assert("auto_event_loop"@.len() == 15);
    assert("agent_role"@.len() == 10);
    reveal_strlit("agent_id");
    reveal_strlit("updated");
    assert("agent_id"@.len() == 8);
    assert("updated"@.len() == 7);
    let updates = edited_fields(c.arguments);
    let k = lemma_is_edited(c.arguments, name);
    let n = k + 1;
    let g = h.subrange(0, n);
    assert(h.len() >= 1 + updates.len());
    assert(g[0] == h[0]);
    lemma_none_failed(h, 1, updates.len() as int, n);
    lemma_no_failure_at(h, 1, updates.len() as int, k);
    let data = edit_agent_next(c, h)->Finish_0->Success_data->0;
    assert(list_field(data, "updated"@)->0[k] == JsonView::Text(name));
    n
}

proof fn lemma_no_failure_at(h: Seq<EventView>, from: int, n: int, k: int)
    requires
        0 <= from,
        0 <= k < n,
        from + k < h.len(),
        first_failed(h, from, n) is None,
    ensures
        !is_failure(h[from + k]),
    decreases n,
{
    if k < n - 1 {
        lemma_no_failure_at(h, from, n - 1, k);
    }
}

/// An edit needs a column to write, a role that is one, and an agent that is
/// there. Where it switches the agent's event loop, it wakes the agent.
pub proof fn edits_are_checked_first(c: CallView, h: Seq<EventView>, id: Seq<char>)
    requires
        text_field(c.arguments, "agent_id"@) == Some(id),
    ensures
        ({
            let args = c.arguments;
            let role = text_field(args, "agent_role"@);
            let any = field(args, "color"@) is Some || field(args, "working_directory"@) is Some
                || field(args, "aoe_session_id"@) is Some || field(args, "auto_event_loop"@) is Some
                || field(args, "agent_role"@) is Some;
            let bad = role is Some && role->0 != "worker"@ && role->0 != "manager"@;
            &&& !any ==> (edit_agent_next(c, h) matches ActionView::Finish(
                ResultView::Invalid { .. },
            ))
            &&& bad ==> (edit_agent_next(c, h) matches ActionView::Finish(
                ResultView::Invalid { .. },
            ))
            &&& (any && !bad) ==> edit_agent_next(c, Seq::empty()) == (ActionView::GetAgent {
                agent_id: id,
            })
            &&& (any && !bad) ==> is_missing(edit_agent_next(c, seq![EventView::Agent(None)]), id)
        }),
{
    let args = c.arguments;
    let none = seq![EventView::Agent(None)];
    assert(none[0] == EventView::Agent(None));
    let updates = edited_fields(args);
    if field(args, "color"@) is Some {
        let k = lemma_is_edited(args, "color"@);
    } else if field(args, "working_directory"@) is Some {
        let k = lemma_is_edited(args, "working_directory"@);
    } else if field(args, "aoe_session_id"@) is Some {
        let k = lemma_is_edited(args, "aoe_session_id"@);
    } else if field(args, "auto_event_loop"@) is Some {
        let k = lemma_is_edited(args, "auto_event_loop"@);
    } else if field(args, "agent_role"@) is Some {
        let k = lemma_is_edited(args, "agent_role"@);
    }
}

// ---------------------------------------------------------------------
// Terminations and purges
// ---------------------------------------------------------------------

proof fn lemma_open_task(tasks: Seq<TaskRowView>, done: Seq<Seq<char>>, i: int) -> (k: int)
    requires
        0 <= i < tasks.len(),
        !done.contains(tasks[i].status),
    ensures
        0 <= k < open_tasks(tasks, done).len(),
        open_tasks(tasks, done)[k] == tasks[i],
    decreases tasks.len(),
{
    let front = tasks.drop_last();
    if i < front.len() {
        let k = lemma_open_task(front, done, i);
        assert(open_tasks(tasks, done)[k] == open_tasks(front, done)[k]);
        k
    } else {
        assert(open_tasks(tasks, done).last() == tasks[i]);
        open_tasks(tasks, done).len() - 1
    }
}

/// A termination sets free every task of the agent that is not finished: before
/// it ends well, each was released, to be assigned anew.
pub proof fn terminations_free_every_open_task(
    c: CallView,
    h: Seq<EventView>,
    tasks: Seq<TaskRowView>,
    i: int,
) -> (n: int)
    requires
        terminate_agent_next(c, h) is Finish,
        terminate_agent_next(c, h)->Finish_0 is Success,
        h[1] == EventView::Tasks(tasks),
        0 <= i < tasks.len(),
        !c.terminal_task_statuses.contains(tasks[i].status),
    ensures
        2 <= n < h.len(),
        terminate_agent_next(c, h.subrange(0, n)) == (ActionView::ReleaseTask {
            task_id: tasks[i].task_id,
            status: Some("unassigned"@),
            timestamp: c.now,
        }),
{
    let k = lemma_open_task(tasks, c.terminal_task_statuses, i);
    let n = k + 2;
    let g = h.subrange(0, n);
    assert(g[0] == h[0] && g[1] == h[1]);
    n
}

/// What follows a termination: the agent's tasks are read, the audit trail gets
/// a line that names the agent, everyone is woken where a task was set free, and
/// the answer names the agent.
pub proof fn terminations_are_audited(
    c: CallView,
    id: Seq<char>,
    e: EventView,
    f: EventView,
)
    requires
        text_field(c.arguments, "agent_id"@) == Some(id),
    ensures
        ({
            let gone = EventView::Changed(true);
            let free = EventView::Tasks(Seq::empty());
            let line = terminate_agent_next(c, seq![gone, free]);
            let r = terminate_agent_next(c, seq![gone, free, e]);
            let data = r->Finish_0->Success_data->0;
            &&& terminate_agent_next(c, seq![gone]) == (ActionView::ListTasksOf { agent_id: id })
            &&& line is LogAction
            &&& line->LogAction_agent_id == "admin"@
            &&& line->LogAction_action_type == "terminated_agent"@
            &&& line->LogAction_timestamp == c.now
            &&& text_field(line->LogAction_details, "agent_id"@) == Some(id)
            &&& r is Finish && r->Finish_0 is Success && r->Finish_0->Success_data is Some
            &&& text_field(data, "agent_id"@) == Some(id)
            &&& text_field(data, "status"@) == Some("terminated"@)
        }),
{
    reveal_strlit("agent_id");
    reveal_strlit("status");
    assert("agent_id"@.len() == 8);
    assert("status"@.len() == 6);
    let gone = EventView::Changed(true);
    let free = EventView::Tasks(Seq::empty());
    let a = seq![gone];
    let b = seq![gone, free];
    let d = seq![gone, free, e];
    assert(a[0] == gone && b[0] == gone && d[0] == gone && b[1] == free && d[1] == free);
    assert(open_tasks(Seq::empty(), c.terminal_task_statuses).len() == 0);
}

/// Where a termination sets a task free, everyone is woken for it; where it sets
/// none free, no one is.
pub proof fn freed_tasks_wake_everyone(
    c: CallView,
    h: Seq<EventView>,
    tasks: Seq<TaskRowView>,
    e: EventView,
)
    requires
        terminate_agent_next(c, h) is LogAction,
        h[1] == EventView::Tasks(tasks),
    ensures
        (exists|i: int|
            0 <= i < tasks.len() && !c.terminal_task_statuses.contains(#[trigger] tasks[i].status))
            ==> terminate_agent_next(c, h.push(e)) is ListActiveAgents,
        (forall|i: int|
            0 <= i < tasks.len() ==> c.terminal_task_statuses.contains(#[trigger] tasks[i].status))
            ==> (terminate_agent_next(c, h.push(e)) matches ActionView::Finish(
            ResultView::Success { .. },
        )),
{
    let g = h.push(e);
    assert(g[0] == h[0] && g[1] == h[1]);
    if exists|i: int|
        0 <= i < tasks.len() && !c.terminal_task_statuses.contains(#[trigger] tasks[i].status) {
        let i = choose|i: int|
            0 <= i < tasks.len() && !c.terminal_task_statuses.contains(#[trigger] tasks[i].status);
        let k = lemma_open_task(tasks, c.terminal_task_statuses, i);
    }
    if forall|i: int|
        0 <= i < tasks.len() ==> c.terminal_task_statuses.contains(#[trigger] tasks[i].status) {
        lemma_none_open(tasks, c.terminal_task_statuses);
    }
}

proof fn lemma_none_open(tasks: Seq<TaskRowView>, done: Seq<Seq<char>>)
    requires
        forall|i: int| 0 <= i < tasks.len() ==> done.contains(#[trigger] tasks[i].status),
    ensures
        open_tasks(tasks, done).len() == 0,
    decreases tasks.len(),
{
    if tasks.len() > 0 {
        let front = tasks.drop_last();
        assert forall|i: int| 0 <= i < front.len() implies done.contains(
            #[trigger] front[i].status,
        ) by {
            assert(tasks[i].status == front[i].status);
        }
        lemma_none_open(front, done);
        assert(done.contains(tasks[tasks.len() - 1].status));
    }
}

/// A purge puts the agent's tombstone in the agent's place, step by step: in the
/// messages, in the tasks that it created and in the audit trail; it drops the
/// agent's sessions and, last, the agent.
pub proof fn purges_rename_the_agent(
    c: CallView,
    h: Seq<EventView>,
    id: Seq<char>,
    row: AgentRowView,
)
    requires
        text_field(c.arguments, "agent_id"@) == Some(id),
        h.len() > 0,
        h[0] == EventView::Agent(Some(row)),
        h.len() > 6 ==> !is_failure(h[6]),
    ensures
        ({
            let a = purge_agent_next(c, h);
            let stone = "[deleted-"@ + id + "]"@;
            let t = tasks_in(h[9]).len();
            &&& h.len() == 6 ==> a == (ActionView::InsertTombstone {
                token: "__tombstone_"@ + id,
                agent_id: stone,
                timestamp: c.now,
            })
            &&& h.len() == 7 ==> a == (ActionView::RenameInMessages { from: id, to: stone })
            &&& h.len() == 8 ==> a == (ActionView::RenameTaskCreator { from: id, to: stone })
            &&& h.len() == 9 ==> a == (ActionView::ListTasksOf { agent_id: id })
            &&& h.len() == 10 + t ==> a == (ActionView::RenameInActions { from: id, to: stone })
            &&& h.len() == 11 + t ==> a == (ActionView::DeleteSessions { agent_id: id })
            &&& h.len() == 12 + t ==> logged(a, c.principal, c.now, "purged_agent"@)
            &&& h.len() == 13 + t ==> a == (ActionView::DeleteAgent { agent_id: id })
        }),
{
}

/// A purge sets free every task of the agent: before it ends well, each was
/// released; one that is finished keeps its status, any other is to be assigned
/// anew.
pub proof fn purges_free_every_task(c: CallView, h: Seq<EventView>, tasks: Seq<TaskRowView>, i: int)
    requires
        purge_agent_next(c, h) is Finish,
        purge_agent_next(c, h)->Finish_0 is Success,
        h[9] == EventView::Tasks(tasks),
        0 <= i < tasks.len(),
    ensures
        ({
            let a = purge_agent_next(c, h.subrange(0, 10 + i));
            &&& a is ReleaseTask
            &&& a->ReleaseTask_task_id == tasks[i].task_id
            &&& a->ReleaseTask_timestamp == c.now
            &&& c.terminal_task_statuses.contains(tasks[i].status) ==> a->ReleaseTask_status is None
            &&& !c.terminal_task_statuses.contains(tasks[i].status) ==> a->ReleaseTask_status
                == Some("unassigned"@)
        }),
{
    let g = h.subrange(0, 10 + i);
    assert(g[0] == h[0] && g[6] == h[6] && g[9] == h[9]);
}

/// What a purge, and the preview of one, says of the agent: how many messages it
/// sent and received, how many tasks it created and holds, and how many actions
/// the audit trail has of it, each as it was counted.
pub proof fn purges_say_what_they_touch(
    c: CallView,
    h: Seq<EventView>,
    id: Seq<char>,
    n: Seq<i64>,
)
    requires
        text_field(c.arguments, "agent_id"@) == Some(id),
        purge_agent_next(c, h) is Finish,
        purge_agent_next(c, h)->Finish_0 is Success,
        n.len() == 5,
        forall|i: int| 0 <= i < 5 ==> h[i + 1] == EventView::Count(#[trigger] n[i]),
    ensures
        ({
            let data = purge_agent_next(c, h)->Finish_0->Success_data->0;
            let counts = field(data, "counts"@);
            let asked = |i: int| purge_agent_next(c, h.subrange(0, i));
            &&& asked(1) == (ActionView::Count { kind: CountKind::MessagesSent, agent_id: id })
            &&& asked(2) == (ActionView::Count { kind: CountKind::MessagesReceived, agent_id: id })
            &&& asked(3) == (ActionView::Count { kind: CountKind::TasksCreated, agent_id: id })
            &&& asked(4) == (ActionView::Count { kind: CountKind::TasksAssigned, agent_id: id })
            &&& asked(5) == (ActionView::Count { kind: CountKind::AgentActions, agent_id: id })
            &&& text_field(data, "agent_id"@) == Some(id)
            &&& text_field(data, "tombstone"@) == Some("[deleted-"@ + id + "]"@)
            &&& counts is Some
            &&& field(counts->0, "messages_sent"@) == Some(int_json(n[0] as int))
            &&& field(counts->0, "messages_received"@) == Some(int_json(n[1] as int))
            &&& field(counts->0, "tasks_created"@) == Some(int_json(n[2] as int))
            &&& field(counts->0, "tasks_assigned"@) == Some(int_json(n[3] as int))
            &&& field(counts->0, "agent_actions"@) == Some(int_json(n[4] as int))
        }),
{
    reveal_strlit("agent_id");
    reveal_strlit("tombstone");
    reveal_strlit("counts");
    assert("agent_id"@.len() == 8);
    assert("tombstone"@.len() == 9);
    assert("counts"@.len() == 6);
    reveal_strlit("messages_sent");
    reveal_strlit("messages_received");
    reveal_strlit("tasks_created");
    reveal_strlit("tasks_assigned");
    reveal_strlit("agent_actions");
    assert("messages_sent"@.len() == 13);
    assert("messages_received"@.len() == 17);
    assert("tasks_created"@.len() == 13);
    assert("tasks_assigned"@.len() == 14);
    assert("agent_actions"@.len() == 13);
    assert("agent_actions"@[0] == 'a');
    assert("messages_sent"@[0] == 'm');
    assert("tasks_created"@[0] == 't');
    assert(h[1] == EventView::Count(n[0]) && h[2] == EventView::Count(n[1]) && h[3]
        == EventView::Count(n[2]) && h[4] == EventView::Count(n[3]) && h[5] == EventView::Count(
        n[4],
    ));
    assert(h.subrange(0, 1)[0] == h[0] && h.subrange(0, 2)[0] == h[0] && h.subrange(0, 3)[0]
        == h[0] && h.subrange(0, 4)[0] == h[0] && h.subrange(0, 5)[0] == h[0]);
}

/// The preview of a purge counts as the purge does, and shows up to three
/// messages that the agent sent, cut after eighty characters, and up to three
/// titles of tasks that it created and that it holds.
pub proof fn previews_show_what_a_purge_touches(
    id: Seq<char>,
    h: Seq<EventView>,
    n: Seq<i64>,
    sent: Seq<SentMessageView>,
    made: Seq<Seq<char>>,
    held: Seq<Seq<char>>,
)
    requires
        h.len() == 8,
        n.len() == 5,
        forall|i: int| 0 <= i < 5 ==> h[i] == EventView::Count(#[trigger] n[i]),
        h[5] == EventView::Sent(sent),
        h[6] == EventView::Texts(made),
        h[7] == EventView::Texts(held),
    ensures
        ({
            let asked = |i: int| purge_preview_next(id, h.subrange(0, i));
            let data = purge_preview_next(id, h)->Finish_0->Success_data->0;
            let counts = field(data, "counts"@);
            let samples = field(data, "samples"@);
            let messages = list_field(samples->0, "messages_sent"@);
            let created = list_field(samples->0, "tasks_created"@);
            let assigned = list_field(samples->0, "tasks_assigned"@);
            &&& asked(0) == (ActionView::Count { kind: CountKind::MessagesSent, agent_id: id })
            &&& asked(1) == (ActionView::Count { kind: CountKind::MessagesReceived, agent_id: id })
            &&& asked(2) == (ActionView::Count { kind: CountKind::TasksCreated, agent_id: id })
            &&& asked(3) == (ActionView::Count { kind: CountKind::TasksAssigned, agent_id: id })
            &&& asked(4) == (ActionView::Count { kind: CountKind::AgentActions, agent_id: id })
            &&& asked(5) == (ActionView::ListSentMessages { agent_id: id, limit: 3 })
            &&& asked(6) == (ActionView::ListTaskTitles { agent_id: id, assigned: false, limit: 3 })
            &&& asked(7) == (ActionView::ListTaskTitles { agent_id: id, assigned: true, limit: 3 })
            &&& counts is Some && samples is Some
            &&& field(counts->0, "messages_sent"@) == Some(int_json(n[0] as int))
            &&& field(counts->0, "messages_received"@) == Some(int_json(n[1] as int))
            &&& field(counts->0, "tasks_created"@) == Some(int_json(n[2] as int))
            &&& field(counts->0, "tasks_assigned"@) == Some(int_json(n[3] as int))
            &&& field(counts->0, "agent_actions"@) == Some(int_json(n[4] as int))
            &&& messages is Some && messages->0.len() == sent.len()
            &&& forall|i: int|
                0 <= i < sent.len() ==> {
                    let m = #[trigger] messages->0[i];
                    &&& text_field(m, "timestamp"@) == Some(sent[i].timestamp)
                    &&& sent[i].content.len() <= 80 ==> text_field(m, "content"@) == Some(
                        sent[i].content,
                    )
                    &&& sent[i].content.len() > 80 ==> text_field(m, "content"@) == Some(
                        sent[i].content.subrange(0, 80) + "..."@,
                    )
                }
            &&& created is Some && created->0.len() == made.len()
            &&& forall|i: int|
                0 <= i < made.len() ==> #[trigger] created->0[i] == JsonView::Text(made[i])
            &&& assigned is Some && assigned->0.len() == held.len()
            &&& forall|i: int|
                0 <= i < held.len() ==> #[trigger] assigned->0[i] == JsonView::Text(held[i])
        }),
{
    reveal_strlit("counts");
    reveal_strlit("samples");
    assert("counts"@.len() == 6);
    assert("samples"@.len() == 7);
    reveal_strlit("messages_sent");
    reveal_strlit("messages_received");
    reveal_strlit("tasks_created");
    reveal_strlit("tasks_assigned");
    reveal_strlit("agent_actions");
    assert("messages_sent"@.len() == 13);
    assert("messages_received"@.len() == 17);
    assert("tasks_created"@.len() == 13);
    assert("tasks_assigned"@.len() == 14);
    assert("agent_actions"@.len() == 13);
    assert("agent_actions"@[0] == 'a');
    assert("messages_sent"@[0] == 'm');
    assert("tasks_created"@[0] == 't');
    reveal_strlit("content");
    reveal_strlit("timestamp");
    assert("content"@.len() == 7);
    assert("timestamp"@.len() == 9);
    assert(h[0] == EventView::Count(n[0]) && h[1] == EventView::Count(n[1]) && h[2]
        == EventView::Count(n[2]) && h[3] == EventView::Count(n[3]) && h[4] == EventView::Count(
        n[4],
    ));
    let data = purge_preview_next(id, h)->Finish_0->Success_data->0;
    let samples = field(data, "samples"@);
    let messages = list_field(samples->0, "messages_sent"@);
    assert forall|i: int| 0 <= i < sent.len() implies {
        let m = #[trigger] messages->0[i];
        &&& text_field(m, "timestamp"@) == Some(sent[i].timestamp)
        &&& sent[i].content.len() <= 80 ==> text_field(m, "content"@) == Some(sent[i].content)
        &&& sent[i].content.len() > 80 ==> text_field(m, "content"@) == Some(
            sent[i].content.subrange(0, 80) + "..."@,
        )
    } by {
        assert(messages->0[i] == crate::agent_lifecycle::message_sample(sent[i]));
    }
}

// ---------------------------------------------------------------------
// The event loop
// ---------------------------------------------------------------------

/// Disconnecting an agent switches its event loop off, reconnecting it switches
/// it on; each is written down, wakes the agent and says how the loop now
/// stands. An agent that is not there, or was terminated, is not found.
pub proof fn connections_switch_the_event_loop(
    p: Option<PrincipalView>,
    id: Seq<char>,
    now: Seq<char>,
    row: AgentRowView,
    d: EventView,
    e: EventView,
    f: EventView,
)
    requires
        caller_has(p, Capability::AgentsTerminate),
        !is_failure(d),
    ensures
        ({
            let there = EventView::Agent(Some(row));
            let off = disconnect_agent_next(p, id, now, seq![there]);
            let on = reconnect_agent_next(p, id, now, seq![there]);
            let ended = disconnect_agent_next(p, id, now, seq![there, d, e, f]);
            let begun = reconnect_agent_next(p, id, now, seq![there, d, e, f]);
            &&& disconnect_agent_next(p, id, now, Seq::empty()) == (ActionView::GetAgent {
                agent_id: id,
            })
            &&& reconnect_agent_next(p, id, now, Seq::empty()) == (ActionView::GetAgent {
                agent_id: id,
            })
            &&& row.status == "terminated"@ ==> is_missing(off, id) && is_missing(on, id)
            &&& row.status != "terminated"@ ==> {
                &&& off == (ActionView::UpdateAgent {
                    agent_id: id,
                    field: AgentField::AutoEventLoop,
                    value: FieldValueView::Bool(false),
                    timestamp: now,
                })
                &&& on == (ActionView::UpdateAgent {
                    agent_id: id,
                    field: AgentField::AutoEventLoop,
                    value: FieldValueView::Bool(true),
                    timestamp: now,
                })
                &&& logged(
                    disconnect_agent_next(p, id, now, seq![there, d]),
                    p,
                    now,
                    "disconnected_agent"@,
                )
                &&& logged(
                    reconnect_agent_next(p, id, now, seq![there, d]),
                    p,
                    now,
                    "reconnected_agent"@,
                )
                &&& disconnect_agent_next(p, id, now, seq![there, d, e]) == (ActionView::Notify {
                    agent_id: id,
                })
                &&& reconnect_agent_next(p, id, now, seq![there, d, e]) == (ActionView::Notify {
                    agent_id: id,
                })
                &&& ended is Finish && ended->Finish_0 is Success
                &&& text_field(ended->Finish_0->Success_data->0, "agent_id"@) == Some(id)
                &&& bool_field(ended->Finish_0->Success_data->0, "auto_event_loop"@) == Some(false)
                &&& field(ended->Finish_0->Success_data->0, "closed_streams"@) == Some(int_json(0))
                &&& begun is Finish && begun->Finish_0 is Success
                &&& text_field(begun->Finish_0->Success_data->0, "agent_id"@) == Some(id)
                &&& bool_field(begun->Finish_0->Success_data->0, "auto_event_loop"@) == Some(true)
            }
        }),
{
    reveal_strlit("agent_id");
    reveal_strlit("auto_event_loop");
    reveal_strlit("closed_streams");
    assert("agent_id"@.len() == 8);
    assert("auto_event_loop"@.len() == 15);
    assert("closed_streams"@.len() == 14);
    let there = EventView::Agent(Some(row));
    let s1 = seq![there];
    let s2 = seq![there, d];
    let s3 = seq![there, d, e];
    let s4 = seq![there, d, e, f];
    assert(s1[0] == there && s2[0] == there && s3[0] == there && s4[0] == there);
    assert(s2[1] == d && s3[1] == d && s4[1] == d);
}

/// Disconnecting everyone writes `false` into the setting that every event loop
/// heeds, reconnecting everyone writes `true`; each is written down, and wakes
/// every agent in service.
pub proof fn everyone_is_switched_by_a_setting(
    p: Option<PrincipalView>,
    now: Seq<char>,
    d: EventView,
    e: EventView,
    agents: Seq<AgentRowView>,
)
    requires
        caller_has(p, Capability::AgentsTerminate),
        !is_failure(d),
    ensures
        ({
            let found = EventView::Agents(agents);
            let off = disconnect_all_agents_next(p, now, Seq::empty());
            let on = reconnect_all_agents_next(p, now, Seq::empty());
            &&& off is PutSetting && on is PutSetting
            &&& off->PutSetting_key == "config_auto_event_loop_global"@
            &&& on->PutSetting_key == "config_auto_event_loop_global"@
            &&& off->PutSetting_value == "false"@
            &&& on->PutSetting_value == "true"@
            &&& off->PutSetting_timestamp == now && on->PutSetting_timestamp == now
            &&& p is Some ==> off->PutSetting_updated_by == p->0.actor_label
            &&& p is Some ==> on->PutSetting_updated_by == p->0.actor_label
            &&& logged(
                disconnect_all_agents_next(p, now, seq![d]),
                p,
                now,
                "disconnected_all_agents"@,
            )
            &&& logged(
                reconnect_all_agents_next(p, now, seq![d]),
                p,
                now,
                "reconnected_all_agents"@,
            )
            &&& disconnect_all_agents_next(p, now, seq![d, e]) is ListActiveAgents
            &&& reconnect_all_agents_next(p, now, seq![d, e]) is ListActiveAgents
            &&& agents.len() == 0 ==> (disconnect_all_agents_next(p, now, seq![d, e, found])
                matches ActionView::Finish(ResultView::Success { .. }))
            &&& agents.len() == 0 ==> (reconnect_all_agents_next(p, now, seq![d, e, found])
                matches ActionView::Finish(ResultView::Success { .. }))
            &&& agents.len() > 0 ==> disconnect_all_agents_next(p, now, seq![d, e, found]) == (
            ActionView::Notify { agent_id: agents[0].agent_id })
            &&& agents.len() > 0 ==> reconnect_all_agents_next(p, now, seq![d, e, found]) == (
            ActionView::Notify { agent_id: agents[0].agent_id })
        }),
{
    let a = seq![d];
    let b = seq![d, e];
    let found = EventView::Agents(agents);
    let f = seq![d, e, found];
    assert(a[0] == d && b[0] == d && f[0] == d && f[2] == found);
}

/// Whatever wakes everyone wakes each agent in service, one after another, and
/// then ends.
pub proof fn everyone_is_woken(
    h: Seq<EventView>,
    at: int,
    agents: Seq<AgentRowView>,
    k: int,
    end: ActionView,
)
    requires
        0 <= at < h.len(),
        h[at] == EventView::Agents(agents),
        0 <= k < agents.len(),
    ensures
        h.len() == at + 1 + k ==> crate::protocol::broadcast_view(h, at, true, end) == (
        ActionView::Notify { agent_id: agents[k].agent_id }),
        h.len() > at + agents.len() ==> crate::protocol::broadcast_view(h, at, true, end) == end,
{
}

} // verus!

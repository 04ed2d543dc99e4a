//! What whole runs of a tool leave in the database: its rows before and after,
//! as far as they name agents.

use crate::agent_lifecycle::{
    purge_agent_next, restore_agent_next, tasks_in, terminate_agent_next, tombstone,
};
use crate::json::text_field;
use crate::principal::label_or;
use crate::protocol::{
    is_failure, not_found_view, ActionView, AgentField, AgentRowView, CallView,
    EventView, FieldValueView, ResultView, TaskRowView,
};
use vstd::prelude::*;

verus! {

/// Who sent a message, and to whom.
pub struct Parties {
    pub sender: Seq<char>,
    pub recipient: Seq<char>,
}

/// What a task tells of agents, and its status.
pub struct TaskRecord {
    pub created_by: Seq<char>,
    pub assigned_to: Option<Seq<char>>,
    pub status: Seq<char>,
}

/// The rows of the database that name agents: the agents by their name, the
/// messages, the tasks by their id, and whom each line of the audit trail and
/// each session belongs to.
#[verifier::ext_equal]
pub struct Records {
    pub agents: Map<Seq<char>, AgentRowView>,
    pub messages: Seq<Parties>,
    pub tasks: Map<Seq<char>, TaskRecord>,
    pub actions: Seq<Seq<char>>,
    pub sessions: Seq<Seq<char>>,
}

/// `to` where `name` is `from`; else `name`.
pub open spec fn put_for(name: Seq<char>, from: Seq<char>, to: Seq<char>) -> Seq<char> {
    if name == from {
        to
    } else {
        name
    }
}

/// A message after `to` has taken the place of `from` in it.
pub open spec fn renamed_parties(m: Parties, from: Seq<char>, to: Seq<char>) -> Parties {
    Parties { sender: put_for(m.sender, from, to), recipient: put_for(m.recipient, from, to) }
}

/// A task after `to` has taken the place of `from` as its creator.
pub open spec fn renamed_creator(t: TaskRecord, from: Seq<char>, to: Seq<char>) -> TaskRecord {
    TaskRecord { created_by: put_for(t.created_by, from, to), ..t }
}

/// A task after it has been taken from its agent, with a new status where one
/// is given.
pub open spec fn released(t: TaskRecord, status: Option<Seq<char>>) -> TaskRecord {
    TaskRecord {
        assigned_to: None,
        status: match status {
            Some(s) => s,
            None => t.status,
        },
        ..t
    }
}

/// An agent's row after one column has been written.
pub open spec fn with_column(
    row: AgentRowView,
    field: AgentField,
    value: FieldValueView,
) -> AgentRowView {
    match (field, value) {
        (AgentField::Status, FieldValueView::Text(s)) => AgentRowView { status: s, ..row },
        (AgentField::TerminatedAt, FieldValueView::OptionalText(t)) => AgentRowView {
            terminated_at: t,
            ..row
        },
        (AgentField::Color, FieldValueView::OptionalText(t)) => AgentRowView { color: t, ..row },
        (AgentField::WorkingDirectory, FieldValueView::Text(s)) => AgentRowView {
            working_directory: s,
            ..row
        },
        (AgentField::AoeSessionId, FieldValueView::OptionalText(t)) => AgentRowView {
            aoe_session_id: t,
            ..row
        },
        (AgentField::AutoEventLoop, FieldValueView::Bool(b)) => AgentRowView {
            auto_event_loop: b,
            ..row
        },
        (AgentField::AgentRole, FieldValueView::Text(s)) => AgentRowView { agent_role: s, ..row },
        _ => row,
    }
}

/// Whether two rows agree in all that neither a termination nor a restore
/// writes.
pub open spec fn same_agent(a: AgentRowView, b: AgentRowView) -> bool {
    &&& a.agent_id == b.agent_id
    &&& a.created_at == b.created_at
    &&& a.working_directory == b.working_directory
    &&& a.color == b.color
    &&& a.auto_event_loop == b.auto_event_loop
    &&& a.agent_role == b.agent_role
    &&& a.profile == b.profile
}

/// Whether a list names the tasks of an agent: each with its status, and none
/// is missing.
pub open spec fn lists_tasks(
    tasks: Map<Seq<char>, TaskRecord>,
    agent_id: Seq<char>,
    v: Seq<TaskRowView>,
) -> bool {
    &&& forall|i: int|
        #![trigger v[i]]
        0 <= i < v.len() ==> {
            &&& tasks.contains_key(v[i].task_id)
            &&& tasks[v[i].task_id].assigned_to == Some(agent_id)
            &&& tasks[v[i].task_id].status == v[i].status
        }
    &&& forall|t: Seq<char>|
        #![trigger tasks[t]]
        tasks.contains_key(t) && tasks[t].assigned_to == Some(agent_id) ==> exists|i: int|
            0 <= i < v.len() && #[trigger] v[i].task_id == t
}

/// Whether a database that holds `r` may answer an action with `e` and hold
/// `after` then. What fails changes nothing. Nothing is said of actions that
/// belong to other tools.
pub open spec fn performs(r: Records, a: ActionView, e: EventView, after: Records) -> bool {
    if is_failure(e) {
        after == r
    } else {
        match a {
            ActionView::GetAgent { agent_id } => {
                &&& after == r
                &&& e == EventView::Agent(
                    if r.agents.contains_key(agent_id) {
                        Some(r.agents[agent_id])
                    } else {
                        None
                    },
                )
            },
            ActionView::Count { .. } => after == r,
            ActionView::ListActiveAgents => after == r,
            ActionView::Notify { .. } => after == r,
            ActionView::ListTasksOf { agent_id } => {
                &&& after == r
                &&& e matches EventView::Tasks(v) && lists_tasks(r.tasks, agent_id, v)
            },
            ActionView::InsertTombstone { token, agent_id, .. } => {
                &&& after == Records { agents: after.agents, ..r }
                &&& if r.agents.contains_key(agent_id) {
                    after.agents == r.agents
                } else {
                    &&& after.agents == r.agents.insert(agent_id, after.agents[agent_id])
                    &&& after.agents[agent_id].agent_id == agent_id
                    &&& after.agents[agent_id].token == token
                    &&& after.agents[agent_id].status == "tombstone"@
                }
            },
            ActionView::RenameInMessages { from, to } => after == Records {
                messages: r.messages.map_values(|m: Parties| renamed_parties(m, from, to)),
                ..r
            },
            ActionView::RenameTaskCreator { from, to } => after == Records {
                tasks: r.tasks.map_values(|t: TaskRecord| renamed_creator(t, from, to)),
                ..r
            },
            ActionView::ReleaseTask { task_id, status, .. } => after == Records {
                tasks: if r.tasks.contains_key(task_id) {
                    r.tasks.insert(task_id, released(r.tasks[task_id], status))
                } else {
                    r.tasks
                },
                ..r
            },
            ActionView::RenameInActions { from, to } => after == Records {
                actions: r.actions.map_values(|x: Seq<char>| put_for(x, from, to)),
                ..r
            },
            ActionView::DeleteSessions { agent_id } => after == Records {
                sessions: r.sessions.filter(|x: Seq<char>| x != agent_id),
                ..r
            },
            ActionView::LogAction { agent_id, .. } => after == Records {
                actions: r.actions.push(agent_id),
                ..r
            },
            ActionView::DeleteAgent { agent_id } => after == Records {
                agents: r.agents.remove(agent_id),
                ..r
            },
            ActionView::TerminateAgent { agent_id, .. } => match e {
                EventView::Changed(true) => {
                    &&& r.agents.contains_key(agent_id)
                    &&& after == Records {
                        agents: r.agents.insert(agent_id, after.agents[agent_id]),
                        ..r
                    }
                    &&& same_agent(r.agents[agent_id], after.agents[agent_id])
                    &&& after.agents[agent_id].status == "terminated"@
                    &&& after.agents[agent_id].terminated_at is Some
                },
                _ => after == r,
            },
            ActionView::UpdateAgent { agent_id, field, value, .. } => if r.agents.contains_key(
                agent_id,
            ) {
                &&& after == Records {
                    agents: r.agents.insert(agent_id, after.agents[agent_id]),
                    ..r
                }
                &&& after.agents[agent_id] == AgentRowView {
                    updated_at: after.agents[agent_id].updated_at,
                    ..with_column(r.agents[agent_id], field, value)
                }
            } else {
                after == r
            },
            _ => true,
        }
    }
}

/// Whether a dialogue has run through the events of `h` on a database that held
/// `states[n]` after the first `n` of them.
pub open spec fn ran(
    next: spec_fn(Seq<EventView>) -> ActionView,
    h: Seq<EventView>,
    states: Seq<Records>,
) -> bool {
    &&& states.len() == h.len() + 1
    &&& forall|n: int|
        #![trigger h[n]]
        0 <= n < h.len() ==> {
            &&& next(h.subrange(0, n)) !is Finish
            &&& performs(states[n], next(h.subrange(0, n)), h[n], states[n + 1])
        }
}

/// Whether a dialogue has run to its end, and well.
pub open spec fn succeeded(
    next: spec_fn(Seq<EventView>) -> ActionView,
    h: Seq<EventView>,
    states: Seq<Records>,
) -> bool {
    &&& ran(next, h, states)
    &&& next(h) matches ActionView::Finish(ResultView::Success { .. })
}

/// Whether an action changes no row and its answer decides no change: it counts,
/// lists who is in service, or wakes an agent.
pub open spec fn may_fail(a: ActionView) -> bool {
    a is Count || a is ListActiveAgents || a is Notify
}

/// Whether every write of a run succeeded, and every listing that its writes go
/// by. Counts and wakes may have failed.
pub open spec fn writes_held(
    next: spec_fn(Seq<EventView>) -> ActionView,
    h: Seq<EventView>,
) -> bool {
    forall|n: int|
        #![trigger h[n]]
        0 <= n < h.len() && is_failure(h[n]) ==> may_fail(next(h.subrange(0, n)))
}

/// Whether a row of the database names `id`.
pub open spec fn names(r: Records, id: Seq<char>) -> bool {
    ||| r.agents.contains_key(id)
    ||| exists|i: int|
        0 <= i < r.messages.len() && ((#[trigger] r.messages[i]).sender == id
            || r.messages[i].recipient == id)
    ||| exists|t: Seq<char>|
        r.tasks.contains_key(t) && ((#[trigger] r.tasks[t]).created_by == id
            || r.tasks[t].assigned_to == Some(id))
    ||| r.actions.contains(id)
    ||| r.sessions.contains(id)
}

/// A task after its agent `id` was purged: the tombstone is its creator where
/// the agent was, and where the agent had it, nobody has it, and it is
/// unassigned unless it was finished.
pub open spec fn purged_task(t: TaskRecord, id: Seq<char>, finished: Seq<Seq<char>>) -> TaskRecord {
    let r = renamed_creator(t, id, tombstone(id));
    if t.assigned_to == Some(id) {
        released(
            r,
            if finished.contains(t.status) {
                None
            } else {
                Some("unassigned"@)
            },
        )
    } else {
        r
    }
}

/// The run of a purge up to the first change: nothing but reading.
proof fn lemma_purge_reads(c: CallView, id: Seq<char>, h: Seq<EventView>, states: Seq<Records>)
    requires
        text_field(c.arguments, "agent_id"@) == Some(id),
        succeeded(|p: Seq<EventView>| purge_agent_next(c, p), h, states),
        writes_held(|p: Seq<EventView>| purge_agent_next(c, p), h),
    ensures
        h.len() >= 14 + tasks_in(h[9]).len(),
        h[0] == EventView::Agent(Some(states[0].agents[id])),
        states[0].agents.contains_key(id),
        states[6] == states[0],
{
    let next = |p: Seq<EventView>| purge_agent_next(c, p);
    assert(next(h) == purge_agent_next(c, h));
    assert(h.len() > 0);
    assert(next(h.subrange(0, 0)) == ActionView::GetAgent { agent_id: id });
    assert(performs(states[0], next(h.subrange(0, 0)), h[0], states[1]));
    assert(states[1] == states[0]);
    assert(h[0] is Agent && h[0]->Agent_0 is Some);
    assert(h.len() >= 10);
    let p1 = h.subrange(0, 1);
    let p2 = h.subrange(0, 2);
    let p3 = h.subrange(0, 3);
    let p4 = h.subrange(0, 4);
    let p5 = h.subrange(0, 5);
    assert(p1[0] == h[0] && p2[0] == h[0] && p3[0] == h[0] && p4[0] == h[0] && p5[0] == h[0]);
    assert(next(p1) is Count && next(p2) is Count && next(p3) is Count && next(p4) is Count && next(
        p5,
    ) is Count);
    assert(performs(states[1], next(p1), h[1], states[2]));
    assert(performs(states[2], next(p2), h[2], states[3]));
    assert(performs(states[3], next(p3), h[3], states[4]));
    assert(performs(states[4], next(p4), h[4], states[5]));
    assert(performs(states[5], next(p5), h[5], states[6]));
    assert(states[2] == states[1]);
    assert(states[3] == states[2]);
    assert(states[4] == states[3]);
    assert(states[5] == states[4]);
    assert(states[6] == states[5]);
}

/// A purge that succeeds has stored the tombstone and deleted the row.
proof fn lemma_purge_stored(c: CallView, id: Seq<char>, h: Seq<EventView>, states: Seq<Records>)
    requires
        text_field(c.arguments, "agent_id"@) == Some(id),
        succeeded(|p: Seq<EventView>| purge_agent_next(c, p), h, states),
    ensures
        !is_failure(h[6]),
        !is_failure(h[13 + tasks_in(h[9]).len() as int]),
{
    let next = |p: Seq<EventView>| purge_agent_next(c, p);
    assert(next(h) == purge_agent_next(c, h));
}

/// The run of a purge from the tombstone to the list of the agent's tasks.
proof fn lemma_purge_renames(c: CallView, id: Seq<char>, h: Seq<EventView>, states: Seq<Records>)
    requires
        text_field(c.arguments, "agent_id"@) == Some(id),
        succeeded(|p: Seq<EventView>| purge_agent_next(c, p), h, states),
        writes_held(|p: Seq<EventView>| purge_agent_next(c, p), h),
    ensures
        states[0].agents.contains_key(id),
        states[10] == (Records {
            agents: states[10].agents,
            messages: states[0].messages.map_values(
                |m: Parties| renamed_parties(m, id, tombstone(id)),
            ),
            tasks: states[0].tasks.map_values(
                |t: TaskRecord| renamed_creator(t, id, tombstone(id)),
            ),
            ..states[0]
        }),
        if states[0].agents.contains_key(tombstone(id)) {
            states[10].agents == states[0].agents
        } else {
            &&& states[10].agents == states[0].agents.insert(
                tombstone(id),
                states[10].agents[tombstone(id)],
            )
            &&& states[10].agents[tombstone(id)].status == "tombstone"@
        },
        lists_tasks(states[10].tasks, id, tasks_in(h[9])),
{
    let next = |p: Seq<EventView>| purge_agent_next(c, p);
    lemma_purge_reads(c, id, h, states);
    let p6 = h.subrange(0, 6);
    let p7 = h.subrange(0, 7);
    let p8 = h.subrange(0, 8);
    let p9 = h.subrange(0, 9);
    assert(p6[0] == h[0] && p7[0] == h[0] && p8[0] == h[0] && p9[0] == h[0]);
    assert(p7[6] == h[6] && p8[6] == h[6] && p9[6] == h[6]);
    assert(next(p6) is InsertTombstone);
    assert(!is_failure(h[6]));
    assert(next(p7) == ActionView::RenameInMessages { from: id, to: tombstone(id) });
    assert(next(p8) == ActionView::RenameTaskCreator { from: id, to: tombstone(id) });
    assert(next(p9) == ActionView::ListTasksOf { agent_id: id });
    assert(!is_failure(h[7]) && !is_failure(h[8]) && !is_failure(h[9]));
}

/// The tasks of a purged agent after the first `k` of them are released.
proof fn lemma_purge_releases(
    c: CallView,
    id: Seq<char>,
    h: Seq<EventView>,
    states: Seq<Records>,
    k: int,
)
    requires
        text_field(c.arguments, "agent_id"@) == Some(id),
        succeeded(|p: Seq<EventView>| purge_agent_next(c, p), h, states),
        writes_held(|p: Seq<EventView>| purge_agent_next(c, p), h),
        0 <= k <= tasks_in(h[9]).len(),
    ensures
        states[10 + k] == (Records { tasks: states[10 + k].tasks, ..states[10] }),
        states[10 + k].tasks.dom() == states[10].tasks.dom(),
        forall|t: Seq<char>| #[trigger]
            states[10].tasks.contains_key(t) ==> {
                let finished = c.terminal_task_statuses;
                let was = states[10].tasks[t];
                let now = states[10 + k].tasks[t];
                let freed = released(
                    was,
                    if finished.contains(was.status) {
                        None
                    } else {
                        Some("unassigned"@)
                    },
                );
                &&& was.assigned_to != Some(id) ==> now == was
                &&& now == was || now == freed
                &&& (exists|i: int|
                    0 <= i < k && #[trigger] tasks_in(h[9])[i].task_id == t) ==> now == freed
            },
    decreases k,
{
    let v = tasks_in(h[9]);
    let next = |p: Seq<EventView>| purge_agent_next(c, p);
    lemma_purge_reads(c, id, h, states);
    lemma_purge_renames(c, id, h, states);
    if k > 0 {
        lemma_purge_releases(c, id, h, states, k - 1);
        let p = h.subrange(0, 9 + k);
        assert(p[0] == h[0] && p[6] == h[6] && p[9] == h[9]);
        lemma_purge_stored(c, id, h, states);
        assert(next(p) is ReleaseTask);
        assert(!is_failure(h[9 + k]));
        let id_k = v[k - 1].task_id;
        assert(states[10].tasks.contains_key(id_k));
        assert(performs(states[9 + k], next(p), h[9 + k], states[10 + k]));
    }
}

/// The run of a purge from the last release to its end.
proof fn lemma_purge_ends(c: CallView, id: Seq<char>, h: Seq<EventView>, states: Seq<Records>)
    requires
        text_field(c.arguments, "agent_id"@) == Some(id),
        succeeded(|p: Seq<EventView>| purge_agent_next(c, p), h, states),
        writes_held(|p: Seq<EventView>| purge_agent_next(c, p), h),
    ensures
        ({
            let done = states[10 + tasks_in(h[9]).len() as int];
            states.last() == (Records {
                agents: done.agents.remove(id),
                actions: done.actions.map_values(
                    |x: Seq<char>| put_for(x, id, tombstone(id)),
                ).push(label_or(c.principal, "operator"@)),
                sessions: done.sessions.filter(|x: Seq<char>| x != id),
                ..done
            })
        }),
{
    let n = tasks_in(h[9]).len() as int;
    let next = |p: Seq<EventView>| purge_agent_next(c, p);
    lemma_purge_reads(c, id, h, states);
    let p0 = h.subrange(0, 10 + n);
    let p1 = h.subrange(0, 11 + n);
    let p2 = h.subrange(0, 12 + n);
    let p3 = h.subrange(0, 13 + n);
    assert(p0[0] == h[0] && p0[6] == h[6] && p0[9] == h[9]);
    assert(p1[0] == h[0] && p1[6] == h[6] && p1[9] == h[9]);
    assert(p2[0] == h[0] && p2[6] == h[6] && p2[9] == h[9]);
    assert(p3[0] == h[0] && p3[6] == h[6] && p3[9] == h[9]);
    lemma_purge_stored(c, id, h, states);
    assert(next(p0) == ActionView::RenameInActions { from: id, to: tombstone(id) });
    assert(next(p1) == ActionView::DeleteSessions { agent_id: id });
    assert(next(p2) is LogAction);
    assert(next(p3) == ActionView::DeleteAgent { agent_id: id });
    assert(!is_failure(h[10 + n]) && !is_failure(h[11 + n]));
    assert(!is_failure(h[12 + n]) && !is_failure(h[13 + n]));
    assert(performs(states[10 + n], next(p0), h[10 + n], states[11 + n]));
    assert(performs(states[11 + n], next(p1), h[11 + n], states[12 + n]));
    assert(performs(states[12 + n], next(p2), h[12 + n], states[13 + n]));
    assert(performs(states[13 + n], next(p3), h[13 + n], states[14 + n]));
    lemma_purge_wakes(c, id, h, states, h.len() - 14 - n);
}

/// Nothing changes while agents are woken after a purge.
proof fn lemma_purge_wakes(
    c: CallView,
    id: Seq<char>,
    h: Seq<EventView>,
    states: Seq<Records>,
    k: int,
)
    requires
        text_field(c.arguments, "agent_id"@) == Some(id),
        succeeded(|p: Seq<EventView>| purge_agent_next(c, p), h, states),
        writes_held(|p: Seq<EventView>| purge_agent_next(c, p), h),
        0 <= k <= h.len() - 14 - tasks_in(h[9]).len(),
    ensures
        states[14 + tasks_in(h[9]).len() + k] == states[14 + tasks_in(h[9]).len() as int],
    decreases k,
{
    let n = tasks_in(h[9]).len() as int;
    let next = |p: Seq<EventView>| purge_agent_next(c, p);
    lemma_purge_reads(c, id, h, states);
    if k > 0 {
        lemma_purge_wakes(c, id, h, states, k - 1);
        let p = h.subrange(0, 13 + n + k);
        assert(p[0] == h[0] && p[6] == h[6] && p[9] == h[9] && p[13 + n] == h[13 + n]);
        lemma_purge_stored(c, id, h, states);
        assert(next(p) !is Finish) by {
            assert(performs(states[13 + n + k], next(p), h[13 + n + k], states[14 + n + k]));
        }
        assert(next(p) is ListActiveAgents || next(p) is Notify);
        assert(performs(states[13 + n + k], next(p), h[13 + n + k], states[14 + n + k]));
    }
}

/// After a purge that succeeds, with every write and the listing of the agent's
/// tasks, nothing names the agent. The tombstone stands where the agent stood,
/// in messages, as the creator of tasks and in the audit trail, and has a row of
/// its own: a new one in status `tombstone`, or the one that an earlier agent of
/// that name left. The agent's tasks are nobody's, unassigned unless they were
/// finished; its sessions are gone; and whatever names others is as it was.
///
/// The caller is another than the agent: the line of the purge itself is
/// written in the caller's name.
pub proof fn purges_leave_no_trace(
    c: CallView,
    id: Seq<char>,
    h: Seq<EventView>,
    states: Seq<Records>,
)
    requires
        text_field(c.arguments, "agent_id"@) == Some(id),
        succeeded(|p: Seq<EventView>| purge_agent_next(c, p), h, states),
        writes_held(|p: Seq<EventView>| purge_agent_next(c, p), h),
        label_or(c.principal, "operator"@) != id,
    ensures
        states[0].agents.contains_key(id),
        !names(states.last(), id),
        states.last().agents.contains_key(tombstone(id)),
        if states[0].agents.contains_key(tombstone(id)) {
            states.last().agents[tombstone(id)] == states[0].agents[tombstone(id)]
        } else {
            states.last().agents[tombstone(id)].status == "tombstone"@
        },
        states.last().agents.remove(tombstone(id)) == states[0].agents.remove(tombstone(id)).remove(
            id,
        ),
        states.last().messages == states[0].messages.map_values(
            |m: Parties| renamed_parties(m, id, tombstone(id)),
        ),
        states.last().tasks == states[0].tasks.map_values(
            |t: TaskRecord| purged_task(t, id, c.terminal_task_statuses),
        ),
        states.last().actions == states[0].actions.map_values(
            |x: Seq<char>| put_for(x, id, tombstone(id)),
        ).push(label_or(c.principal, "operator"@)),
        states.last().sessions == states[0].sessions.filter(|x: Seq<char>| x != id),
{
    let n = tasks_in(h[9]).len() as int;
    let v = tasks_in(h[9]);
    let t_id = tombstone(id);
    assert(t_id != id) by {
        reveal_strlit("[deleted-");
        reveal_strlit("]");
        assert(t_id.len() > id.len());
    }
    lemma_purge_reads(c, id, h, states);
    lemma_purge_renames(c, id, h, states);
    lemma_purge_releases(c, id, h, states, n);
    lemma_purge_ends(c, id, h, states);
    let last = states.last();
    let finished = c.terminal_task_statuses;
    let purged = states[0].tasks.map_values(|t: TaskRecord| purged_task(t, id, finished));
    assert forall|t: Seq<char>| states[0].tasks.contains_key(t) implies last.tasks[t]
        == #[trigger] purged[t] by {
        assert(states[10].tasks.contains_key(t));
        let was = states[10].tasks[t];
        if was.assigned_to == Some(id) {
            let i = choose|i: int| 0 <= i < v.len() && #[trigger] v[i].task_id == t;
            assert(v[i].task_id == t);
        }
    }
    assert(last.tasks =~= purged);
    assert(last.agents.remove(t_id) =~= states[0].agents.remove(t_id).remove(id));
    assert forall|i: int| 0 <= i < last.actions.len() implies #[trigger] last.actions[i] != id by {}
    let kept = |x: Seq<char>| x != id;
    assert forall|i: int| 0 <= i < last.sessions.len() implies #[trigger] last.sessions[i]
        != id by {
        states[0].sessions.lemma_filter_pred(kept, i);
    }
}

/// A purge of an agent that has no row, such as one that was purged before,
/// ends on the lookup: the agent is not found, and nothing is changed.
pub proof fn missing_agents_are_not_purged(
    c: CallView,
    id: Seq<char>,
    h: Seq<EventView>,
    states: Seq<Records>,
)
    requires
        text_field(c.arguments, "agent_id"@) == Some(id),
        ran(|p: Seq<EventView>| purge_agent_next(c, p), h, states),
        purge_agent_next(c, h) is Finish,
        !states[0].agents.contains_key(id),
    ensures
        h.len() == 1,
        purge_agent_next(c, h) == not_found_view("agent"@, id),
        states.last() == states[0],
{
    let next = |p: Seq<EventView>| purge_agent_next(c, p);
    assert(h.len() > 0);
    assert(next(h.subrange(0, 0)) == ActionView::GetAgent { agent_id: id });
    assert(performs(states[0], next(h.subrange(0, 0)), h[0], states[1]));
    if h.len() > 1 {
        let p = h.subrange(0, 1);
        assert(p[0] == h[0]);
        assert(performs(states[1], next(p), h[1], states[2]));
    }
}

/// Whoever purges an agent a second time finds nobody, and nothing is changed
/// any more.
pub proof fn second_purges_find_nobody(
    c: CallView,
    id: Seq<char>,
    h: Seq<EventView>,
    states: Seq<Records>,
    again: CallView,
    g: Seq<EventView>,
    then_states: Seq<Records>,
)
    requires
        text_field(c.arguments, "agent_id"@) == Some(id),
        text_field(again.arguments, "agent_id"@) == Some(id),
        succeeded(|p: Seq<EventView>| purge_agent_next(c, p), h, states),
        writes_held(|p: Seq<EventView>| purge_agent_next(c, p), h),
        label_or(c.principal, "operator"@) != id,
        ran(|p: Seq<EventView>| purge_agent_next(again, p), g, then_states),
        purge_agent_next(again, g) is Finish,
        then_states[0] == states.last(),
    ensures
        purge_agent_next(again, g) == not_found_view("agent"@, id),
        then_states.last() == states.last(),
{
    purges_leave_no_trace(c, id, h, states);
    missing_agents_are_not_purged(again, id, g, then_states);
}

/// The end of service of an agent: the run of a termination that succeeds
/// leaves the agent's row terminated and otherwise as it was.
proof fn lemma_terminated(
    c: CallView,
    id: Seq<char>,
    h: Seq<EventView>,
    states: Seq<Records>,
    k: int,
)
    requires
        text_field(c.arguments, "agent_id"@) == Some(id),
        succeeded(|p: Seq<EventView>| terminate_agent_next(c, p), h, states),
        1 <= k <= h.len(),
    ensures
        h[0] == EventView::Changed(true),
        states[0].agents.contains_key(id),
        states[k].agents.contains_key(id),
        same_agent(states[0].agents[id], states[k].agents[id]),
        states[k].agents[id].status == "terminated"@,
        states[k].agents[id].terminated_at is Some,
    decreases k,
{
    let next = |p: Seq<EventView>| terminate_agent_next(c, p);
    assert(next(h) == terminate_agent_next(c, h));
    assert(h[0] == EventView::Changed(true));
    if k == 1 {
        assert(next(h.subrange(0, 0)) == ActionView::TerminateAgent {
            agent_id: id,
            timestamp: c.now,
        });
        assert(performs(states[0], next(h.subrange(0, 0)), h[0], states[1]));
    } else {
        lemma_terminated(c, id, h, states, k - 1);
        let p = h.subrange(0, k - 1);
        assert(p[0] == h[0]);
        assert(performs(states[k - 1], next(p), h[k - 1], states[k]));
        assert(next(p) is ListTasksOf || next(p) is ReleaseTask || next(p) is LogAction || next(
            p,
        ) is ListActiveAgents || next(p) is Notify);
    }
}

/// What a restore that succeeds, with both columns written, makes of the agent's row.
proof fn lemma_restored(c: CallView, id: Seq<char>, h: Seq<EventView>, states: Seq<Records>)
    requires
        text_field(c.arguments, "agent_id"@) == Some(id),
        succeeded(|p: Seq<EventView>| restore_agent_next(c, p), h, states),
        !is_failure(h[2]),
    ensures
        states[0].agents.contains_key(id),
        states[0].agents[id].status == "terminated"@,
        states.last() == (Records {
            agents: states[0].agents.insert(id, states.last().agents[id]),
            actions: states.last().actions,
            ..states[0]
        }),
        states.last().agents[id] == (AgentRowView {
            status: "created"@,
            terminated_at: None,
            updated_at: states.last().agents[id].updated_at,
            ..states[0].agents[id]
        }),
{
    let next = |p: Seq<EventView>| restore_agent_next(c, p);
    assert(next(h) == restore_agent_next(c, h));
    assert(h.len() >= 4);
    let p0 = h.subrange(0, 0);
    let p1 = h.subrange(0, 1);
    let p2 = h.subrange(0, 2);
    let p3 = h.subrange(0, 3);
    assert(p1[0] == h[0] && p2[0] == h[0] && p3[0] == h[0] && p2[1] == h[1] && p3[1] == h[1]);
    assert(performs(states[0], next(p0), h[0], states[1]));
    assert(performs(states[1], next(p1), h[1], states[2]));
    assert(performs(states[2], next(p2), h[2], states[3]));
    assert(performs(states[3], next(p3), h[3], states[4]));
    assert(next(p3) is LogAction);
    assert(next(p2) == ActionView::UpdateAgent {
        agent_id: id,
        field: AgentField::TerminatedAt,
        value: FieldValueView::OptionalText(None),
        timestamp: c.now,
    });
    assert(next(p1) == ActionView::UpdateAgent {
        agent_id: id,
        field: AgentField::Status,
        value: FieldValueView::Text("created"@),
        timestamp: c.now,
    });
    if h.len() > 4 {
        let p4 = h.subrange(0, 4);
        assert(p4[0] == h[0] && p4[1] == h[1]);
        assert(performs(states[4], next(p4), h[4], states[5]));
    }
    assert(states[4].agents =~= states[0].agents.insert(id, states[4].agents[id]));
}

/// Whoever is terminated and then restored, with both columns written, is back:
/// in status `created`, with no time of termination, and with the working
/// directory and the rest of the row as before. A restore changes no other agent's row, and no message, task
/// or session.
pub proof fn restores_undo_terminations(
    ending: CallView,
    h: Seq<EventView>,
    ended: Seq<Records>,
    undoing: CallView,
    g: Seq<EventView>,
    undone: Seq<Records>,
    id: Seq<char>,
)
    requires
        text_field(ending.arguments, "agent_id"@) == Some(id),
        text_field(undoing.arguments, "agent_id"@) == Some(id),
        succeeded(|p: Seq<EventView>| terminate_agent_next(ending, p), h, ended),
        succeeded(|p: Seq<EventView>| restore_agent_next(undoing, p), g, undone),
        !is_failure(g[2]),
        undone[0] == ended.last(),
    ensures
        ended.last().agents[id].status == "terminated"@,
        ended.last().agents[id].terminated_at is Some,
        undone.last().agents.contains_key(id),
        undone.last().agents[id].status == "created"@,
        undone.last().agents[id].terminated_at is None,
        undone.last().agents[id].working_directory == ended[0].agents[id].working_directory,
        same_agent(ended[0].agents[id], undone.last().agents[id]),
        undone.last() == (Records {
            agents: undone[0].agents.insert(id, undone.last().agents[id]),
            actions: undone.last().actions,
            ..undone[0]
        }),
{
    let next = |p: Seq<EventView>| terminate_agent_next(ending, p);
    assert(next(h) == terminate_agent_next(ending, h));
    assert(h.len() > 0);
    lemma_terminated(ending, id, h, ended, h.len() as int);
    lemma_restored(undoing, id, g, undone);
}

/// A restore of an agent that is not terminated, such as one that was restored
/// before, ends on the lookup with a conflict; one of a missing agent finds
/// nobody. Neither changes anything.
pub proof fn others_are_not_restored(
    c: CallView,
    id: Seq<char>,
    h: Seq<EventView>,
    states: Seq<Records>,
)
    requires
        text_field(c.arguments, "agent_id"@) == Some(id),
        ran(|p: Seq<EventView>| restore_agent_next(c, p), h, states),
        restore_agent_next(c, h) is Finish,
        h.len() > 0 ==> !is_failure(h[0]),
        !states[0].agents.contains_key(id) || states[0].agents[id].status != "terminated"@,
    ensures
        h.len() == 1,
        states[0].agents.contains_key(id) ==> (restore_agent_next(c, h) matches ActionView::Finish(
            ResultView::Conflict { .. },
        )),
        !states[0].agents.contains_key(id) ==> restore_agent_next(c, h) == not_found_view(
            "agent"@,
            id,
        ),
        states.last() == states[0],
{
    let next = |p: Seq<EventView>| restore_agent_next(c, p);
    assert(h.len() > 0);
    assert(next(h.subrange(0, 0)) == ActionView::GetAgent { agent_id: id });
    assert(performs(states[0], next(h.subrange(0, 0)), h[0], states[1]));
    if h.len() > 1 {
        let p = h.subrange(0, 1);
        assert(p[0] == h[0]);
        assert(performs(states[1], next(p), h[1], states[2]));
    }
}

} // verus!

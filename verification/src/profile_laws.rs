//! Who is shown on the roster, whose profile is written, and what an agent is
//! told of itself.

use crate::agent_roster_tools::{
    by_id, insert_by_id, roster, update_agent_profile_next, view_agents_next,
};
use crate::agent_tools::get_system_prompt_next;
use crate::json::{bool_field, list_field, text_field, JsonView};
use crate::principal::AgentRole;
use crate::protocol::{ActionView, AgentRowView, CallView, EventView, ResultView, ReviewedProfileView};
use crate::text::holds;
use vstd::prelude::*;

verus! {

proof fn lemma_insert_holds(s: Seq<AgentRowView>, x: AgentRowView, e: AgentRowView)
    ensures
        insert_by_id(s, x).contains(e) <==> s.contains(e) || e == x,
        insert_by_id(s, x).len() == s.len() + 1,
    decreases s.len(),
{
    let p = insert_by_id(s, x);
    if s.len() > 0 && crate::text::text_before(x.agent_id, s.last().agent_id) {
        let t = s.drop_last();
        lemma_insert_holds(t, x, e);
        let u = insert_by_id(t, x);
        if p.contains(e) {
            let i = choose|i: int| 0 <= i < p.len() && p[i] == e;
            if i < u.len() {
                assert(u[i] == e);
                if t.contains(e) {
                    let j = choose|j: int| 0 <= j < t.len() && t[j] == e;
                    assert(s[j] == e);
                }
            } else {
                assert(s[s.len() - 1] == e);
            }
        }
        if s.contains(e) {
            let j = choose|j: int| 0 <= j < s.len() && s[j] == e;
            if j < t.len() {
                assert(t[j] == e);
                let i = choose|i: int| 0 <= i < u.len() && u[i] == e;
                assert(p[i] == e);
            } else {
                assert(p[p.len() - 1] == e);
            }
        }
        if e == x {
            let i = choose|i: int| 0 <= i < u.len() && u[i] == e;
            assert(p[i] == e);
        }
    } else {
        if p.contains(e) {
            let i = choose|i: int| 0 <= i < p.len() && p[i] == e;
            if i < s.len() {
                assert(s[i] == e);
            }
        }
        if s.contains(e) {
            let j = choose|j: int| 0 <= j < s.len() && s[j] == e;
            assert(p[j] == e);
        }
        assert(p[s.len() as int] == x);
    }
}

proof fn lemma_by_id_holds(s: Seq<AgentRowView>, e: AgentRowView)
    ensures
        by_id(s).contains(e) <==> s.contains(e),
        by_id(s).len() == s.len(),
    decreases s.len(),
{
    if s.len() > 0 {
        let t = s.drop_last();
        lemma_by_id_holds(t, e);
        lemma_insert_holds(by_id(t), s.last(), e);
        if s.contains(e) {
            let i = choose|i: int| 0 <= i < s.len() && s[i] == e;
            if i < t.len() {
                assert(t[i] == e);
            }
        }
        if t.contains(e) {
            let i = choose|i: int| 0 <= i < t.len() && t[i] == e;
            assert(s[i] == e);
        }
        assert(s[s.len() - 1] == s.last());
    }
}

proof fn lemma_filter_holds(s: Seq<AgentRowView>, e: AgentRowView)
    ensures
        crate::admin_tools::live_agents(s).contains(e) <==> s.contains(e) && e.status != "system"@,
    decreases s.len(),
{
    reveal(Seq::filter);
    if s.len() > 0 {
        let t = s.drop_last();
        lemma_filter_holds(t, e);
        let live = crate::admin_tools::live_agents(s);
        let before = crate::admin_tools::live_agents(t);
        if s.contains(e) && e.status != "system"@ {
            let i = choose|i: int| 0 <= i < s.len() && s[i] == e;
            if i < t.len() {
                assert(t[i] == e);
                let k = choose|k: int| 0 <= k < before.len() && before[k] == e;
                assert(live[k] == e);
            } else {
                assert(live[live.len() - 1] == e);
            }
        }
        if live.contains(e) {
            let k = choose|k: int| 0 <= k < live.len() && live[k] == e;
            if k < before.len() {
                assert(before[k] == e);
                let i = choose|i: int| 0 <= i < t.len() && t[i] == e;
                assert(s[i] == e);
            } else {
                assert(s[s.len() - 1] == e);
            }
        }
    }
}

/// On the roster stands every agent in service, save those of the system, and no
/// one else.
pub proof fn everyone_in_service_is_on_the_roster(rows: Seq<AgentRowView>, e: AgentRowView)
    ensures
        roster(rows).contains(e) <==> rows.contains(e) && e.status != "system"@,
        roster(rows).len() == rows.filter(|a: AgentRowView| a.status != "system"@).len(),
{
    lemma_filter_holds(rows, e);
    lemma_by_id_holds(crate::admin_tools::live_agents(rows), e);
}

/// What the roster shows of an agent is what is stored: its name, its role, a
/// worker's where none is stored, its profile and when that was written. It
/// shows no more than that: no token, no directory.
pub proof fn the_roster_shows_what_is_stored(rows: Seq<AgentRowView>, i: int)
    requires
        0 <= i < roster(rows).len(),
    ensures
        ({
            let r = view_agents_next(seq![EventView::Agents(rows)]);
            let list = list_field(r->Finish_0->Success_data->0, "agents"@);
            let row = roster(rows)[i];
            &&& view_agents_next(Seq::empty()) is ListActiveAgents
            &&& r is Finish && r->Finish_0 is Success && r->Finish_0->Success_data is Some
            &&& list is Some && list->0.len() == roster(rows).len()
            &&& text_field(list->0[i], "agent_id"@) == Some(row.agent_id)
            &&& row.agent_role.len() > 0 ==> text_field(list->0[i], "agent_role"@) == Some(
                row.agent_role,
            )
            &&& row.agent_role.len() == 0 ==> text_field(list->0[i], "agent_role"@) == Some(
                "worker"@,
            )
            &&& text_field(list->0[i], "profile"@) == row.profile
            &&& text_field(list->0[i], "profile_updated_at"@) == row.profile_updated_at
            &&& list->0[i] matches JsonView::Object(m) && m.dom() == set![
                "agent_id"@,
                "agent_role"@,
                "profile"@,
                "profile_updated_at"@,
            ]
        }),
{
    reveal_strlit("agent_id");
    reveal_strlit("agent_role");
    reveal_strlit("profile");
    reveal_strlit("profile_updated_at");
    assert("agent_id"@.len() == 8);
    assert("agent_role"@.len() == 10);
    assert("profile"@.len() == 7);
    assert("profile_updated_at"@.len() == 18);
    let h = seq![EventView::Agents(rows)];
    assert(h[0] == EventView::Agents(rows));
    let r = view_agents_next(h);
    let list = list_field(r->Finish_0->Success_data->0, "agents"@);
    let one = list->0[i];
    assert(one == crate::agent_roster_tools::roster_entry(roster(rows)[i]));
    assert(one->Object_0.dom() =~= set![
        "agent_id"@,
        "agent_role"@,
        "profile"@,
        "profile_updated_at"@,
    ]);
}

/// Whether `a` has the profile of `target` reviewed by `caller`: with the text of
/// the call, or only confirmed where it has none.
pub open spec fn reviews(a: ActionView, c: CallView, target: Seq<char>, caller: Seq<char>) -> bool {
    a == (ActionView::ReviewProfile {
        agent_id: target,
        profile: text_field(c.arguments, "profile"@),
        reviewer: caller,
        timestamp: c.now,
    })
}

/// An agent confirms its own profile at once. To change it, the switch of its
/// role must be on: managers and workers have one each.
pub proof fn agents_review_their_own_profile(c: CallView, caller: Seq<char>)
    requires
        c.principal is Some,
        c.principal->0.agent_id == Some(caller),
        text_field(c.arguments, "agent_id"@) is None || text_field(c.arguments, "agent_id"@)
            == Some(caller),
    ensures
        ({
            let changes = text_field(c.arguments, "profile"@) is Some;
            let manager = c.principal->0.agent_role == Some(AgentRole::Manager);
            let on = seq![EventView::Changed(true)];
            let off = seq![EventView::Changed(false)];
            let ask = update_agent_profile_next(c, Seq::empty());
            &&& !changes ==> reviews(ask, c, caller, caller)
            &&& changes ==> {
                &&& ask is GetSwitch && ask->GetSwitch_default_on
                &&& manager ==> ask->GetSwitch_key == "config_allow_manager_update_own_profile"@
                &&& !manager ==> ask->GetSwitch_key == "config_allow_worker_update_own_profile"@
                &&& reviews(update_agent_profile_next(c, on), c, caller, caller)
                &&& update_agent_profile_next(c, off) matches ActionView::Finish(
                    ResultView::PermissionDenied { .. },
                )
            }
        }),
{
    let on = seq![EventView::Changed(true)];
    let off = seq![EventView::Changed(false)];
    assert(on[0] == EventView::Changed(true) && off[0] == EventView::Changed(false));
}

/// Another's profile is a manager's to review, and only a worker's: no one else
/// may, and no manager another manager's. To change it, the switch for that must
/// be on.
pub proof fn managers_review_the_profiles_of_workers(
    c: CallView,
    caller: Seq<char>,
    target: Seq<char>,
    row: AgentRowView,
)
    requires
        c.principal is Some,
        c.principal->0.agent_id == Some(caller),
        text_field(c.arguments, "agent_id"@) == Some(target),
        target != caller,
    ensures
        ({
            let changes = text_field(c.arguments, "profile"@) is Some;
            let manager = c.principal->0.agent_role == Some(AgentRole::Manager);
            let there = EventView::Agent(Some(row));
            let on = seq![there, EventView::Changed(true)];
            let off = seq![there, EventView::Changed(false)];
            let found = update_agent_profile_next(c, seq![there]);
            &&& !manager ==> (update_agent_profile_next(c, Seq::empty()) matches
                ActionView::Finish(ResultView::PermissionDenied { .. }))
            &&& manager ==> {
                &&& update_agent_profile_next(c, Seq::empty()) == (ActionView::GetAgent {
                    agent_id: target,
                })
                &&& update_agent_profile_next(c, seq![EventView::Agent(None)]) matches
                    ActionView::Finish(ResultView::NotFound { .. })
                &&& row.agent_role == "manager"@ ==> (found matches ActionView::Finish(
                    ResultView::PermissionDenied { .. },
                ))
                &&& row.agent_role != "manager"@ ==> {
                    &&& found == (ActionView::GetSwitch {
                        key: "config_allow_manager_curate_profiles"@,
                        default_on: true,
                    })
                    &&& reviews(update_agent_profile_next(c, on), c, target, caller)
                    &&& !changes ==> reviews(update_agent_profile_next(c, off), c, target, caller)
                    &&& changes ==> (update_agent_profile_next(c, off) matches
                        ActionView::Finish(ResultView::PermissionDenied { .. }))
                }
            }
        }),
{
    let there = EventView::Agent(Some(row));
    let on = seq![there, EventView::Changed(true)];
    let off = seq![there, EventView::Changed(false)];
    let one = seq![there];
    let none = seq![EventView::Agent(None)];
    assert(on[0] == there && off[0] == there && one[0] == there);
    assert(on[1] == EventView::Changed(true) && off[1] == EventView::Changed(false));
    assert(none[0] == EventView::Agent(None));
}

/// Whoever reviewed a profile reads it as it now stands, and whether it changed.
pub proof fn reviewed_profiles_are_read_back(c: CallView, h: Seq<EventView>, v: ReviewedProfileView)
    requires
        update_agent_profile_next(c, h) is ReviewProfile,
    ensures
        ({
            let asked = update_agent_profile_next(c, h);
            let r = update_agent_profile_next(c, h.push(EventView::Reviewed(Some(v))));
            let data = r->Finish_0->Success_data->0;
            &&& r is Finish && r->Finish_0 is Success && r->Finish_0->Success_data is Some
            &&& text_field(data, "agent_id"@) == Some(asked->ReviewProfile_agent_id)
            &&& text_field(data, "profile"@) == v.profile
            &&& text_field(data, "profile_updated_at"@) == v.profile_updated_at
            &&& text_field(data, "profile_reviewed_at"@) == v.profile_reviewed_at
            &&& bool_field(data, "changed"@) == Some(v.changed)
            &&& update_agent_profile_next(c, h.push(EventView::Reviewed(None))) matches
                ActionView::Finish(ResultView::NotFound { .. })
        }),
{
    reveal_strlit("agent_id");
    reveal_strlit("profile");
    reveal_strlit("profile_updated_at");
    reveal_strlit("profile_reviewed_at");
    reveal_strlit("changed");
    assert("agent_id"@.len() == 8);
    assert("profile"@.len() == 7);
    assert("profile_updated_at"@.len() == 18);
    assert("profile_reviewed_at"@.len() == 19);
    assert("changed"@.len() == 7);
    assert("changed"@[0] == 'c');
    assert("profile"@[0] == 'p');
    let a = h.push(EventView::Reviewed(Some(v)));
    let b = h.push(EventView::Reviewed(None));
    let n = h.len() as int;
    assert(forall|k: int| 0 <= k < n ==> a[k] == h[k] && b[k] == h[k]);
    assert(a[n] == EventView::Reviewed(Some(v)) && b[n] == EventView::Reviewed(None));
}

/// An agent's prompt names the agent that asks and its directory: the one that
/// is stored for it, and the server's own where none is. Managers are told of
/// their type and of messaging, all others are told that they are workers.
pub proof fn prompts_are_made_for_the_caller(
    c: CallView,
    id: Seq<char>,
    row: Option<AgentRowView>,
    here: Seq<char>,
)
    requires
        c.principal is Some,
        c.principal->0.agent_id == Some(id),
    ensures
        ({
            let there = EventView::Agent(row);
            let known = row is Some && row->0.working_directory.len() > 0;
            let dir = if known {
                row->0.working_directory
            } else {
                here
            };
            let h = if known {
                seq![there]
            } else {
                seq![there, EventView::Text(Some(here))]
            };
            let r = get_system_prompt_next(c, h);
            let text = r->Finish_0->Success_message->0;
            let manager = row is Some && row->0.agent_role == "manager"@;
            &&& get_system_prompt_next(c, Seq::empty()) == (ActionView::GetAgent { agent_id: id })
            &&& !known ==> get_system_prompt_next(c, seq![there]) is CurrentDir
            &&& r is Finish && r->Finish_0 is Success && r->Finish_0->Success_message is Some
            &&& holds(text, "Agent ID: "@ + id + "\n"@)
            &&& holds(text, "Your working directory is: "@ + dir + "\n"@)
            &&& manager ==> holds(text, "Agent Type: "@ + "Admin"@ + "\n"@)
            &&& !manager ==> holds(text, "Agent Type: "@ + "Worker"@ + "\n"@)
        }),
{
    let there = EventView::Agent(row);
    let known = row is Some && row->0.working_directory.len() > 0;
    let dir = if known {
        row->0.working_directory
    } else {
        here
    };
    let one = seq![there];
    let two = seq![there, EventView::Text(Some(here))];
    assert(one[0] == there && two[0] == there && two[1] == EventView::Text(Some(here)));
    let h = if known {
        one
    } else {
        two
    };
    let text = get_system_prompt_next(c, h)->Finish_0->Success_message->0;
    let role = match row {
        Some(r) => r.agent_role,
        None => "worker"@,
    };
    let kind = crate::agent_tools::agent_type(role);
    reveal_strlit("worker");
    reveal_strlit("manager");
    assert("worker"@.len() == 6 && "manager"@.len() == 7);
    assert(row is None ==> kind == "Worker"@);
    assert(get_system_prompt_next(c, h) == crate::agent_tools::prompt_view(id, dir, row));
    lemma_lines_hold(id, dir, kind);
    let lines = crate::agent_tools::agent_lines(id, dir, kind);
    let prompt = crate::agent_tools::system_prompt(id, dir, role);
    let common = crate::agent_tools::common_prompt(id, dir, kind);
    let head = "System Prompt for Agent '"@ + id + "':\n\n"@;
    let top = crate::agent_tools::PROMPT_HEAD@;
    let note = "\n"@ + crate::agent_tools::TOOL_ACCESS_NOTE@;
    let tail = if role == "manager"@ {
        "\n\n"@ + crate::agent_tools::MANAGER_HEADING@ + crate::agent_tools::MANAGER_NOTE@
    } else {
        Seq::<char>::empty()
    };
    assert(text == head + prompt);
    assert(common =~= top + lines + note);
    assert(prompt =~= common + tail);
    assert(text =~= (head + top) + lines + (note + tail));
    crate::text_laws::sums_hold_their_parts(head + top, lines, note + tail);
    crate::text_laws::parts_of_parts_are_held(text, lines, "Agent ID: "@ + id + "\n"@);
    crate::text_laws::parts_of_parts_are_held(
        text,
        lines,
        "Your working directory is: "@ + dir + "\n"@,
    );
    crate::text_laws::parts_of_parts_are_held(text, lines, "Agent Type: "@ + kind + "\n"@);
}

proof fn lemma_lines_hold(id: Seq<char>, dir: Seq<char>, kind: Seq<char>)
    ensures
        ({
            let lines = crate::agent_tools::agent_lines(id, dir, kind);
            &&& holds(lines, "Agent ID: "@ + id + "\n"@)
            &&& holds(lines, "Your working directory is: "@ + dir + "\n"@)
            &&& holds(lines, "Agent Type: "@ + kind + "\n"@)
        }),
{
    reveal_strlit("\n");
    reveal_strlit("\nAgent ID: ");
    reveal_strlit("Agent ID: ");
    reveal_strlit("\nAgent Type: ");
    reveal_strlit("Agent Type: ");
    let none = Seq::<char>::empty();
    assert("\nAgent ID: "@ =~= "\n"@ + "Agent ID: "@);
    assert("\nAgent Type: "@ =~= "\n"@ + "Agent Type: "@);
    let lines = crate::agent_tools::agent_lines(id, dir, kind);
    let a = "Your working directory is: "@ + dir + "\n"@;
    let b = "Agent ID: "@ + id + "\n"@;
    let d = "Agent Type: "@ + kind + "\n"@;
    assert(lines =~= a + b + d);
    crate::text_laws::sums_hold_their_parts(none, a, b + d);
    assert(none + a + (b + d) =~= lines);
    crate::text_laws::sums_hold_their_parts(a, b, d);
    crate::text_laws::sums_hold_their_parts(a + b, d, none);
    assert(a + b + d + none =~= lines);
}

} // verus!

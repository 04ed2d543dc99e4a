//! Tools on the team: who is in it, and what each agent says of itself.

use crate::admin_tools::{str_or, text_or};
use crate::json::{jopt, jtext, opt_json, text_field, Fields, Items, Json, JsonView};
use crate::principal::{
    agent_of, caller_agent, caller_has, caller_view, has_capability, AgentRole, Capability,
    Principal, PrincipalView,
};
use crate::protocol::{
    agent_rows, denied, denied_view, done, done_view, events, failed, failed_view, not_found,
    not_found_view, Action, ActionView, AgentRow, AgentRowView, Call, CallView, Event, EventView,
    ResultView, ToolResult,
};
use crate::text::{
    borrow_opt, cat2, comes_before, own, own_opt, same, text_before, text_order_is_strict,
};
use vstd::prelude::*;

verus! {

// ---------------------------------------------------------------------
// view_agents
// ---------------------------------------------------------------------

/// What a caller who may not see the team reads.
pub const ROSTER_DENIED: &'static str =
    "Unauthorized: An authenticated agent or operator is required to view the agent roster.";

/// Whether the caller may use or view agents.
pub fn principal_can_view_roster(principal: Option<&Principal>) -> (r: bool)
    ensures
        r == (caller_has(caller_view(principal), Capability::AgentsUse) || caller_has(
            caller_view(principal),
            Capability::AgentsView,
        )),
{
    has_capability(principal, Capability::AgentsUse) || has_capability(
        principal,
        Capability::AgentsView,
    )
}

/// `x` put into a list that is in the order of ids: behind every agent that
/// does not come after it.
pub open spec fn insert_by_id(s: Seq<AgentRowView>, x: AgentRowView) -> Seq<AgentRowView>
    decreases s.len(),
{
    if s.len() > 0 && text_before(x.agent_id, s.last().agent_id) {
        insert_by_id(s.drop_last(), x).push(s.last())
    } else {
        s.push(x)
    }
}

/// The agents in the order of their ids; agents with one id keep their order.
pub open spec fn by_id(s: Seq<AgentRowView>) -> Seq<AgentRowView>
    decreases s.len(),
{
    if s.len() == 0 {
        Seq::empty()
    } else {
        insert_by_id(by_id(s.drop_last()), s.last())
    }
}

/// Whether no agent of the list comes before the one in front of it.
pub open spec fn in_order(s: Seq<AgentRowView>) -> bool {
    forall|i: int|
        0 <= i < s.len() - 1 ==> !text_before((#[trigger] s[i + 1]).agent_id, s[i].agent_id)
}

/// The team: the agents in service without system entries, by id.
pub open spec fn roster(rows: Seq<AgentRowView>) -> Seq<AgentRowView> {
    by_id(crate::admin_tools::live_agents(rows))
}

/// The team is listed in the order of ids, and everyone in it is listed as
/// often as it was found.
pub proof fn roster_is_ordered_and_complete(rows: Seq<AgentRowView>)
    ensures
        in_order(roster(rows)),
        roster(rows).to_multiset() == crate::admin_tools::live_agents(rows).to_multiset(),
{
    lemma_by_id(crate::admin_tools::live_agents(rows));
}

proof fn lemma_by_id(s: Seq<AgentRowView>)
    ensures
        in_order(by_id(s)),
        by_id(s).to_multiset() == s.to_multiset(),
    decreases s.len(),
{
    broadcast use vstd::seq_lib::group_to_multiset_ensures;

    if s.len() > 0 {
        lemma_by_id(s.drop_last());
        lemma_insert(by_id(s.drop_last()), s.last());
        assert(s =~= s.drop_last().push(s.last()));
    }
}

proof fn lemma_insert(s: Seq<AgentRowView>, x: AgentRowView)
    requires
        in_order(s),
    ensures
        in_order(insert_by_id(s, x)),
        insert_by_id(s, x).len() == s.len() + 1,
        insert_by_id(s, x).last() == x || (s.len() > 0 && insert_by_id(s, x).last() == s.last()),
        insert_by_id(s, x).to_multiset() == s.to_multiset().insert(x),
    decreases s.len(),
{
    broadcast use vstd::seq_lib::group_to_multiset_ensures;

    if s.len() > 0 && text_before(x.agent_id, s.last().agent_id) {
        let t = s.drop_last();
        assert(in_order(t)) by {
            assert forall|i: int| 0 <= i < t.len() - 1 implies !text_before(
                (#[trigger] t[i + 1]).agent_id,
                t[i].agent_id,
            ) by {
                assert(t[i + 1] == s[i + 1]);
                assert(t[i] == s[i]);
            }
        }
        lemma_insert(t, x);
        let u = insert_by_id(t, x);
        text_order_is_strict(x.agent_id, s.last().agent_id);
        if t.len() > 0 {
            assert(!text_before(s[t.len() - 1 + 1].agent_id, s[t.len() - 1].agent_id));
            assert(t.last() == s[t.len() - 1]);
        }
        let w = u.push(s.last());
        assert forall|i: int| 0 <= i < w.len() - 1 implies !text_before(
            (#[trigger] w[i + 1]).agent_id,
            w[i].agent_id,
        ) by {
            if i < u.len() - 1 {
                assert(w[i + 1] == u[i + 1]);
            } else {
                assert(w[i] == u.last());
            }
        }
        assert(s =~= t.push(s.last()));
    } else {
        let w = s.push(x);
        assert forall|i: int| 0 <= i < w.len() - 1 implies !text_before(
            (#[trigger] w[i + 1]).agent_id,
            w[i].agent_id,
        ) by {
            if i < s.len() - 1 {
                assert(w[i + 1] == s[i + 1]);
            } else {
                assert(w[i] == s.last());
            }
        }
    }
}

/// What the roster says of an agent.
pub open spec fn roster_entry(row: AgentRowView) -> JsonView {
    JsonView::Object(
        map![
        "agent_id"@ => JsonView::Text(row.agent_id),
        "agent_role"@ => JsonView::Text(
            if row.agent_role.len() == 0 {
                "worker"@
            } else {
                row.agent_role
            },
        ),
        "profile"@ => opt_json(row.profile),
        "profile_updated_at"@ => opt_json(row.profile_updated_at)
    ],
    )
}

/// The dialogue of `view_agents`.
pub open spec fn view_agents_next(h: Seq<EventView>) -> ActionView {
    if h.len() == 0 {
        ActionView::ListActiveAgents
    } else {
        match h[0] {
            EventView::Agents(rows) => ActionView::Finish(
                ResultView::Success {
                    data: Some(
                        JsonView::Object(
                            map![
                            "agents"@ => JsonView::List(
                                roster(rows).map_values(|r: AgentRowView| roster_entry(r)),
                            )
                        ],
                        ),
                    ),
                    message: None,
                },
            ),
            _ => failed_view("Database error reading the agent roster"@),
        }
    }
}

/// The rows at the given positions.
pub open spec fn picked(rows: Seq<AgentRow>, order: Seq<usize>) -> Seq<AgentRowView> {
    order.map_values(|i: usize| rows[i as int]@)
}

/// `view_agents`: the team.
pub struct ViewAgentsTool;

impl ViewAgentsTool {
    fn insert(rows: &Vec<AgentRow>, order: &mut Vec<usize>, x: usize)
        requires
            x < rows@.len(),
            forall|i: int| 0 <= i < old(order)@.len() ==> #[trigger] old(order)@[i] < rows@.len(),
        ensures
            picked(rows@, final(order)@) == insert_by_id(
                picked(rows@, old(order)@),
                rows@[x as int]@,
            ),
            forall|i: int|
                0 <= i < final(order)@.len() ==> #[trigger] final(order)@[i] < rows@.len(),
    {
        let ghost before = picked(rows@, order@);
        let ghost row = rows@[x as int]@;
        let mut j: usize = order.len();
        proof {
            assert(before.subrange(0, before.len() as int) =~= before);
            assert(insert_by_id(before, row) =~= insert_by_id(before, row) + before.subrange(
                before.len() as int,
                before.len() as int,
            ));
        }
        while j > 0 && comes_before(
            rows[x].agent_id.as_str(),
            rows[order[j - 1]].agent_id.as_str(),
        )
            invariant
                j <= order@.len(),
                x < rows@.len(),
                before == picked(rows@, order@),
                row == rows@[x as int]@,
                forall|i: int| 0 <= i < order@.len() ==> #[trigger] order@[i] < rows@.len(),
                insert_by_id(before, row) == insert_by_id(before.subrange(0, j as int), row)
                    + before.subrange(j as int, before.len() as int),
            decreases j,
        {
            proof {
                let s = before.subrange(0, j as int);
                assert(s.drop_last() =~= before.subrange(0, j - 1));
                assert(s.last() == before[j - 1]);
                assert(insert_by_id(s.drop_last(), row).push(s.last()) + before.subrange(
                    j as int,
                    before.len() as int,
                ) =~= insert_by_id(s.drop_last(), row) + before.subrange(
                    j - 1,
                    before.len() as int,
                ));
            }
            j = j - 1;
        }
        let ghost old_order = order@;
        order.insert(j, x);
        proof {
            let s = before.subrange(0, j as int);
            assert(insert_by_id(s, row) == s.push(row));
            assert(order@ =~= old_order.insert(j as int, x));
            assert(picked(rows@, order@) =~= s.push(row) + before.subrange(
                j as int,
                before.len() as int,
            ));
        }
    }

    fn order(rows: &Vec<AgentRow>) -> (r: Vec<usize>)
        ensures
            picked(rows@, r@) == roster(agent_rows(rows@)),
            forall|i: int| 0 <= i < r@.len() ==> #[trigger] r@[i] < rows@.len(),
    {
        let mut order: Vec<usize> = Vec::new();
        let mut i: usize = 0;
        let ghost all = agent_rows(rows@);
        let ghost keep = |r: AgentRowView| r.status != "system"@;
        proof {
            reveal(Seq::filter);
            assert(all.subrange(0, 0).filter(keep) =~= Seq::empty());
            assert(picked(rows@, order@) =~= Seq::empty());
        }
        while i < rows.len()
            invariant
                all == agent_rows(rows@),
                keep == (|r: AgentRowView| r.status != "system"@),
                i <= rows@.len(),
                picked(rows@, order@) == by_id(all.subrange(0, i as int).filter(keep)),
                forall|k: int| 0 <= k < order@.len() ==> #[trigger] order@[k] < rows@.len(),
            decreases rows@.len() - i,
        {
            proof {
                reveal(Seq::filter);
                let now = all.subrange(0, i + 1);
                assert(now.drop_last() =~= all.subrange(0, i as int));
                assert(now.last() == rows@[i as int]@);
            }
            if !same(rows[i].status.as_str(), "system") {
                ViewAgentsTool::insert(rows, &mut order, i);
                proof {
                    let kept = all.subrange(0, i as int).filter(keep);
                    assert(kept.push(rows@[i as int]@).drop_last() =~= kept);
                }
            }
            i = i + 1;
        }
        proof {
            assert(all.subrange(0, all.len() as int) =~= all);
        }
        order
    }

    /// What to do after `history`.
    pub fn next(history: &Vec<Event>) -> (r: Action)
        ensures
            r@ == view_agents_next(events(history@)),
    {
        if history.len() == 0 {
            return Action::ListActiveAgents;
        }
        match &history[0] {
            Event::Agents(rows) => {
                let order: Vec<usize> = ViewAgentsTool::order(rows);
                let mut items: Items = Items::new();
                let mut i: usize = 0;
                while i < order.len()
                    invariant
                        i <= order@.len(),
                        forall|k: int| 0 <= k < order@.len() ==> #[trigger] order@[k] < rows@.len(),
                        items@.len() == i,
                        forall|k: int|
                            0 <= k < i ==> #[trigger] items@[k] == roster_entry(
                                rows@[order@[k] as int]@,
                            ),
                    decreases order@.len() - i,
                {
                    let row: &AgentRow = &rows[order[i]];
                    let mut f: Fields = Fields::new();
                    f.put("agent_id", jtext(row.agent_id.as_str()));
                    if row.agent_role.as_str().is_empty() {
                        f.put("agent_role", jtext("worker"));
                    } else {
                        f.put("agent_role", jtext(row.agent_role.as_str()));
                    }
                    f.put("profile", jopt(borrow_opt(&row.profile)));
                    f.put("profile_updated_at", jopt(borrow_opt(&row.profile_updated_at)));
                    items.push(f.done());
                    i = i + 1;
                }
                proof {
                    assert(items@ =~= picked(rows@, order@).map_values(
                        |r: AgentRowView| roster_entry(r),
                    ));
                }
                let mut f: Fields = Fields::new();
                f.put("agents", items.done());
                Action::Finish(ToolResult::Success { data: Some(f.done()), message: None })
            },
            _ => failed("Database error reading the agent roster"),
        }
    }
}

// ---------------------------------------------------------------------
// update_agent_profile
// ---------------------------------------------------------------------

/// What a caller without an agent reads.
pub const PROFILE_DENIED: &'static str =
    "Unauthorized: An authenticated agent is required to update a profile.";

/// Whether the caller may use agents.
pub fn principal_can_use_profile_tool(principal: Option<&Principal>) -> (r: bool)
    ensures
        r == caller_has(caller_view(principal), Capability::AgentsUse),
{
    has_capability(principal, Capability::AgentsUse)
}

/// Whether the caller is a manager.
pub open spec fn is_manager(p: Option<PrincipalView>) -> bool {
    match p {
        Some(x) => x.agent_role == Some(AgentRole::Manager),
        None => false,
    }
}

/// The setting that lets an agent change its own profile.
pub open spec fn own_profile_switch(manager: bool) -> Seq<char> {
    if manager {
        "config_allow_manager_update_own_profile"@
    } else {
        "config_allow_worker_update_own_profile"@
    }
}

/// Whether a switch is on by the answer to its reading; on where there is none.
pub open spec fn switched_on(e: EventView) -> bool {
    match e {
        EventView::Changed(b) => b,
        _ => true,
    }
}

/// Whether a switch is on.
pub fn is_on(e: &Event) -> (r: bool)
    ensures
        r == switched_on(e@),
{
    match e {
        Event::Changed(b) => *b,
        _ => true,
    }
}

/// The last part of `update_agent_profile`, from event `at` on: review the
/// profile and say what came of it.
pub open spec fn review_from(
    c: CallView,
    caller: Seq<char>,
    target: Seq<char>,
    h: Seq<EventView>,
    at: int,
) -> ActionView {
    if h.len() <= at {
        ActionView::ReviewProfile {
            agent_id: target,
            profile: text_field(c.arguments, "profile"@),
            reviewer: caller,
            timestamp: c.now,
        }
    } else {
        match h[at] {
            EventView::Reviewed(Some(r)) => done_view(
                JsonView::Object(
                    map![
                    "agent_id"@ => JsonView::Text(target),
                    "profile"@ => opt_json(r.profile),
                    "profile_updated_at"@ => opt_json(r.profile_updated_at),
                    "profile_reviewed_at"@ => opt_json(r.profile_reviewed_at),
                    "changed"@ => JsonView::Bool(r.changed)
                ],
                ),
                if r.changed {
                    "Profile updated."@
                } else {
                    "Profile confirmed (no content change)."@
                },
            ),
            EventView::Reviewed(None) => not_found_view("agent"@, target),
            _ => failed_view("Database error updating the profile"@),
        }
    }
}

/// The dialogue of `update_agent_profile`.
pub open spec fn update_agent_profile_next(c: CallView, h: Seq<EventView>) -> ActionView {
    match caller_agent(c.principal) {
        None => denied_view(PROFILE_DENIED@),
        Some(caller) => {
            let target = text_or(text_field(c.arguments, "agent_id"@), caller);
            let changes = text_field(c.arguments, "profile"@) is Some;
            let manager = is_manager(c.principal);
            if target != caller {
                if !manager {
                    denied_view("Only a manager may edit another agent's profile."@)
                } else if h.len() == 0 {
                    ActionView::GetAgent { agent_id: target }
                } else {
                    match h[0] {
                        EventView::Agent(Some(row)) => if row.agent_role == "manager"@ {
                            denied_view("Managers may not edit another manager's profile."@)
                        } else if h.len() == 1 {
                            ActionView::GetSwitch {
                                key: "config_allow_manager_curate_profiles"@,
                                default_on: true,
                            }
                        } else if !switched_on(h[1]) && changes {
                            denied_view(
                                "config_allow_manager_curate_profiles is disabled; ask an operator to enable it before curating a worker's profile."@,
                            )
                        } else {
                            review_from(c, caller, target, h, 2)
                        },
                        EventView::Agent(None) => not_found_view("agent"@, target),
                        _ => failed_view("Database error reading the target agent"@),
                    }
                }
            } else if changes {
                if h.len() == 0 {
                    ActionView::GetSwitch { key: own_profile_switch(manager), default_on: true }
                } else if !switched_on(h[0]) {
                    denied_view(
                        own_profile_switch(manager)
                            + " is disabled; you may still confirm your profile (call with no `profile` argument) but not change its content."@,
                    )
                } else {
                    review_from(c, caller, target, h, 1)
                }
            } else {
                review_from(c, caller, target, h, 0)
            }
        },
    }
}

/// An agent that confirms its own profile is never refused, whatever the
/// settings.
pub proof fn confirming_is_never_refused(c: CallView, h: Seq<EventView>)
    requires
        caller_agent(c.principal) is Some,
        text_field(c.arguments, "agent_id"@) is None || text_field(c.arguments, "agent_id"@)
            == caller_agent(c.principal),
        text_field(c.arguments, "profile"@) is None,
    ensures
        !(update_agent_profile_next(c, h) matches ActionView::Finish(
            ResultView::PermissionDenied { .. },
        )),
{
}

/// Nobody's profile is reviewed but by the agent itself, or by a manager where
/// the agent is known and no manager.
pub proof fn profiles_are_reviewed_by_self_or_manager(c: CallView, h: Seq<EventView>)
    requires
        update_agent_profile_next(c, h) is ReviewProfile,
    ensures
        match update_agent_profile_next(c, h) {
            ActionView::ReviewProfile { agent_id, reviewer, .. } => {
                &&& caller_agent(c.principal) == Some(reviewer)
                &&& agent_id != reviewer ==> is_manager(c.principal) && h.len() > 0 && match h[0] {
                    EventView::Agent(Some(row)) => row.agent_role != "manager"@,
                    _ => false,
                }
            },
            _ => false,
        },
{
}

/// `update_agent_profile`: confirms or replaces a profile.
pub struct UpdateAgentProfileTool;

impl UpdateAgentProfileTool {
    fn review(
        call: &Call,
        caller: &str,
        target: &str,
        history: &Vec<Event>,
        at: usize,
    ) -> (r: Action)
        ensures
            r@ == review_from(call@, caller@, target@, events(history@), at as int),
    {
        if history.len() <= at {
            return Action::ReviewProfile {
                agent_id: own(target),
                profile: own_opt(call.arguments.text_at("profile")),
                reviewer: own(caller),
                timestamp: own(call.now.as_str()),
            };
        }
        match &history[at] {
            Event::Reviewed(Some(p)) => {
                let mut f: Fields = Fields::new();
                f.put("agent_id", jtext(target));
                f.put("profile", jopt(borrow_opt(&p.profile)));
                f.put("profile_updated_at", jopt(borrow_opt(&p.profile_updated_at)));
                f.put("profile_reviewed_at", jopt(borrow_opt(&p.profile_reviewed_at)));
                f.put("changed", Json::Bool(p.changed));
                let message: String = if p.changed {
                    own("Profile updated.")
                } else {
                    own("Profile confirmed (no content change).")
                };
                done(f.done(), message)
            },
            Event::Reviewed(None) => not_found("agent", target),
            _ => failed("Database error updating the profile"),
        }
    }

    /// What to do after `history`.
    pub fn next(call: &Call, history: &Vec<Event>) -> (r: Action)
        ensures
            r@ == update_agent_profile_next(call@, events(history@)),
    {
        let caller: &str = match agent_of(call.caller()) {
            Some(id) => id,
            None => {
                return denied(PROFILE_DENIED);
            },
        };
        let target: &str = str_or(call.arguments.text_at("agent_id"), caller);
        let changes: bool = call.arguments.text_at("profile").is_some();
        let manager: bool = match call.caller() {
            Some(p) => match p.agent_role {
                Some(AgentRole::Manager) => true,
                _ => false,
            },
            None => false,
        };
        if !same(target, caller) {
            if !manager {
                return denied("Only a manager may edit another agent's profile.");
            }
            if history.len() == 0 {
                return Action::GetAgent { agent_id: own(target) };
            }
            match &history[0] {
                Event::Agent(Some(row)) => {
                    if same(row.agent_role.as_str(), "manager") {
                        return denied("Managers may not edit another manager's profile.");
                    }
                },
                Event::Agent(None) => {
                    return not_found("agent", target);
                },
                _ => {
                    return failed("Database error reading the target agent");
                },
            }
            if history.len() == 1 {
                return Action::GetSwitch {
                    key: own("config_allow_manager_curate_profiles"),
                    default_on: true,
                };
            }
            if !is_on(&history[1]) && changes {
                return denied(
                    "config_allow_manager_curate_profiles is disabled; ask an operator to enable it before curating a worker's profile.",
                );
            }
            return UpdateAgentProfileTool::review(call, caller, target, history, 2);
        }
        if changes {
            let key: &str = if manager {
                "config_allow_manager_update_own_profile"
            } else {
                "config_allow_worker_update_own_profile"
            };
            if history.len() == 0 {
                return Action::GetSwitch { key: own(key), default_on: true };
            }
            if !is_on(&history[0]) {
                let m: String = cat2(
                    key,
                    " is disabled; you may still confirm your profile (call with no `profile` argument) but not change its content.",
                );
                return denied(m.as_str());
            }
            return UpdateAgentProfileTool::review(call, caller, target, history, 1);
        }
        UpdateAgentProfileTool::review(call, caller, target, history, 0)
    }
}

} // verus!

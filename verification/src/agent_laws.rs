//! How agents are registered, listed and shown.

use crate::admin_tools::{
    agent_color, agents_details, get_agent_tokens_next, hex_text, is_reserved, is_token, live_agents,
    register_agent_next, view_audit_log_next, view_status_next,
};
use crate::json::{
    bool_field, field, int_field, int_json, list_field, pretty_text, text_field, JsonView,
};
use crate::protocol::{
    ActionRowView, ActionView, AgentRowView, CallView, EventView, ResultView,
};
use crate::text::{holds, lowercase, trimmed, without_trailing};
use vstd::prelude::*;

verus! {

/// The audit trail is read as the call asks: of the agent and the action that
/// it names, and at most as many lines as it says, up to two hundred, and fifty
/// where it says no such number.
pub proof fn audit_lines_are_read_as_asked(c: CallView)
    ensures
        ({
            let a = view_audit_log_next(c, Seq::empty());
            let n = int_field(c.arguments, "limit"@);
            &&& a is ListActions
            &&& a->ListActions_agent_id == text_field(c.arguments, "agent_id"@)
            &&& a->ListActions_action_type == text_field(c.arguments, "action"@)
            &&& (n is Some && 1 <= n->0 <= 200) ==> a->ListActions_limit == n->0
            &&& (n is None || n->0 < 1 || n->0 > 200) ==> a->ListActions_limit == 50
        }),
{
}

/// Every line of the audit trail is shown as it was written, in its place, and
/// as many as there are are counted.
pub proof fn audit_lines_are_shown_as_written(c: CallView, rows: Seq<ActionRowView>, i: int)
    requires
        0 <= i < rows.len(),
    ensures
        ({
            let r = view_audit_log_next(c, seq![EventView::Actions(rows)]);
            let data = r->Finish_0->Success_data->0;
            let list = list_field(data, "entries"@);
            &&& r is Finish && r->Finish_0 is Success && r->Finish_0->Success_data is Some
            &&& list is Some && list->0.len() == rows.len()
            &&& field(data, "count"@) == Some(int_json(rows.len() as int))
            &&& text_field(list->0[i], "timestamp"@) == Some(rows[i].timestamp)
            &&& text_field(list->0[i], "agent_id"@) == Some(rows[i].agent_id)
            &&& text_field(list->0[i], "action"@) == Some(rows[i].action_type)
            &&& text_field(list->0[i], "details"@) == rows[i].details
            &&& text_field(data, "filter_agent_id"@) == text_field(c.arguments, "agent_id"@)
            &&& text_field(data, "filter_action"@) == text_field(c.arguments, "action"@)
            &&& exists|list: JsonView|
                r->Finish_0->Success_message is Some && holds(
                    r->Finish_0->Success_message->0,
                    #[trigger] pretty_text(list),
                ) && list == field(data, "entries"@)->0
        }),
{
    reveal_strlit("entries");
    reveal_strlit("count");
    reveal_strlit("filter_agent_id");
    reveal_strlit("filter_action");
    reveal_strlit("limit");
    assert("entries"@.len() == 7);
    assert("count"@.len() == 5);
    assert("filter_agent_id"@.len() == 15);
    assert("filter_action"@.len() == 13);
    assert("limit"@.len() == 5);
    assert("count"@[0] == 'c');
    assert("limit"@[0] == 'l');
    reveal_strlit("timestamp");
    reveal_strlit("agent_id");
    reveal_strlit("action");
    reveal_strlit("details");
    assert("timestamp"@.len() == 9);
    assert("agent_id"@.len() == 8);
    assert("action"@.len() == 6);
    assert("details"@.len() == 7);
    let h = seq![EventView::Actions(rows)];
    assert(h[0] == EventView::Actions(rows));
    let r = view_audit_log_next(c, h);
    let shown = crate::admin_tools::audit_entries(rows);
    let text = r->Finish_0->Success_message->0;
    let none = Seq::<char>::empty();
    let head = text.subrange(0, text.len() - pretty_text(shown).len());
    assert(text =~= head + pretty_text(shown) + none);
    crate::text_laws::sums_hold_their_parts(head, pretty_text(shown), none);
}

/// The agents are listed as the call asks: with the status, the name and the
/// times that it names, the terminated ones only where it says so, in the order
/// that it names, and the page that it names. Without an order they come by the
/// time of their making, the latest first; without a page the first fifty.
pub proof fn agents_are_listed_as_asked(c: CallView)
    ensures
        ({
            let a = get_agent_tokens_next(c, Seq::empty());
            let f = a->QueryAgents_0;
            let sort = text_field(c.arguments, "sort_by"@);
            let order = text_field(c.arguments, "sort_order"@);
            let n = int_field(c.arguments, "limit"@);
            let skip = int_field(c.arguments, "offset"@);
            &&& a is QueryAgents
            &&& f.status == text_field(c.arguments, "filter_status"@)
            &&& f.agent_id_pattern == text_field(c.arguments, "filter_agent_id_pattern"@)
            &&& f.created_after == text_field(c.arguments, "filter_created_after"@)
            &&& f.created_before == text_field(c.arguments, "filter_created_before"@)
            &&& f.include_terminated == (bool_field(c.arguments, "include_terminated"@) == Some(
                true,
            ))
            &&& sort is None ==> f.sort_by == "created_at"@
            &&& (sort == Some("agent_id"@) || sort == Some("status"@) || sort == Some(
                "terminated_at"@,
            ) || sort == Some("created_at"@)) ==> Some(f.sort_by) == sort
            &&& f.sort_by == "agent_id"@ || f.sort_by == "status"@ || f.sort_by == "terminated_at"@
                || f.sort_by == "created_at"@
            &&& order is None ==> f.sort_order == "DESC"@
            &&& (order == Some("ASC"@) || order == Some("DESC"@)) ==> Some(f.sort_order) == order
            &&& f.sort_order == "ASC"@ || f.sort_order == "DESC"@
            &&& (n is Some && 1 <= n->0 <= 500) ==> f.limit == n->0
            &&& (n is None || n->0 < 1 || n->0 > 500) ==> f.limit == 50
            &&& (skip is Some && skip->0 >= 0) ==> f.offset == skip->0
            &&& (skip is None || skip->0 < 0) ==> f.offset == 0
        }),
{
    reveal_strlit("ASC");
    reveal_strlit("DESC");
    assert(crate::text::ascii_lower("ASC"@).len() == 3);
    assert(crate::text::ascii_lower("DESC"@).len() == 4);
}

/// Whether the columns of an agent stand in `j` under their own names, save its
/// token and its session.
pub open spec fn shows_agent(j: JsonView, row: AgentRowView) -> bool {
    &&& text_field(j, "agent_id"@) == Some(row.agent_id)
    &&& text_field(j, "created_at"@) == Some(row.created_at)
    &&& text_field(j, "status"@) == Some(row.status)
    &&& text_field(j, "current_task"@) == row.current_task
    &&& text_field(j, "working_directory"@) == Some(row.working_directory)
    &&& text_field(j, "color"@) == row.color
    &&& text_field(j, "terminated_at"@) == row.terminated_at
    &&& text_field(j, "updated_at"@) == row.updated_at
    &&& bool_field(j, "auto_event_loop"@) == Some(row.auto_event_loop)
    &&& text_field(j, "last_event_seen_at"@) == row.last_event_seen_at
    &&& text_field(j, "last_activity_at"@) == row.last_activity_at
    &&& text_field(j, "agent_role"@) == Some(row.agent_role)
    &&& text_field(j, "profile"@) == row.profile
    &&& text_field(j, "profile_updated_at"@) == row.profile_updated_at
    &&& text_field(j, "profile_reviewed_at"@) == row.profile_reviewed_at
    &&& text_field(j, "profile_updated_by"@) == row.profile_updated_by
}

proof fn lemma_redacted(row: AgentRowView, open: bool)
    ensures
        ({
            let j = JsonView::Object(crate::admin_tools::redacted(row, open));
            &&& shows_agent(j, row)
            &&& open ==> text_field(j, "token"@) == Some(row.token)
            &&& open ==> text_field(j, "aoe_session_id"@) == row.aoe_session_id
            &&& !open ==> text_field(j, "token"@) == Some("***"@)
            &&& !open ==> text_field(j, "aoe_session_id"@) == Some("***"@)
        }),
{
    reveal_strlit("token");
    reveal_strlit("agent_id");
    reveal_strlit("created_at");
    reveal_strlit("status");
    reveal_strlit("current_task");
    reveal_strlit("working_directory");
    reveal_strlit("color");
    reveal_strlit("terminated_at");
    reveal_strlit("updated_at");
    reveal_strlit("aoe_session_id");
    reveal_strlit("auto_event_loop");
    reveal_strlit("last_event_seen_at");
    reveal_strlit("last_activity_at");
    reveal_strlit("agent_role");
    reveal_strlit("profile");
    reveal_strlit("profile_updated_at");
    reveal_strlit("profile_reviewed_at");
    reveal_strlit("profile_updated_by");
    assert("token"@.len() == 5);
    assert("agent_id"@.len() == 8);
    assert("created_at"@.len() == 10);
    assert("status"@.len() == 6);
    assert("current_task"@.len() == 12);
    assert("working_directory"@.len() == 17);
    assert("color"@.len() == 5);
    assert("terminated_at"@.len() == 13);
    assert("updated_at"@.len() == 10);
    assert("aoe_session_id"@.len() == 14);
    assert("auto_event_loop"@.len() == 15);
    assert("last_event_seen_at"@.len() == 18);
    assert("last_activity_at"@.len() == 16);
    assert("agent_role"@.len() == 10);
    assert("profile"@.len() == 7);
    assert("profile_updated_at"@.len() == 18);
    assert("profile_reviewed_at"@.len() == 19);
    assert("profile_updated_by"@.len() == 18);
    assert("agent_role"@[0] == 'a');
    assert("color"@[0] == 'c');
    assert("created_at"@[0] == 'c');
    assert("last_event_seen_at"@[0] == 'l');
    assert("profile_updated_at"@[0] == 'p');
    assert("profile_updated_at"@[16] == 'a');
    assert("profile_updated_by"@[0] == 'p');
    assert("profile_updated_by"@[16] == 'b');
    assert("token"@[0] == 't');
    assert("updated_at"@[0] == 'u');
}

/// Every agent of the page is shown with what is stored of it, in its place. Its
/// token and its session are shown to a confirmed operator who asks for them;
/// to anyone else three stars stand there.
pub proof fn agents_are_shown_as_stored(
    c: CallView,
    rows: Seq<AgentRowView>,
    total: i64,
    e: EventView,
    i: int,
)
    requires
        0 <= i < rows.len(),
    ensures
        ({
            let h = seq![EventView::AgentPage { rows, total }, e];
            let r = get_agent_tokens_next(c, h);
            let data = r->Finish_0->Success_data->0;
            let list = list_field(data, "agents"@);
            let asked = bool_field(c.arguments, "include_sensitive_data"@) == Some(true);
            let open = asked && c.principal is Some && c.principal->0.confirmed_operator_tier;
            &&& r is Finish && r->Finish_0 is Success && r->Finish_0->Success_data is Some
            &&& list is Some && list->0.len() == rows.len()
            &&& shows_agent(list->0[i], rows[i])
            &&& open ==> text_field(list->0[i], "token"@) == Some(rows[i].token)
            &&& open ==> text_field(list->0[i], "aoe_session_id"@) == rows[i].aoe_session_id
            &&& !open ==> text_field(list->0[i], "token"@) == Some("***"@)
            &&& !open ==> text_field(list->0[i], "aoe_session_id"@) == Some("***"@)
        }),
{
    reveal_strlit("agents");
    reveal_strlit("pagination");
    reveal_strlit("filters_applied");
    reveal_strlit("sort");
    assert("agents"@.len() == 6);
    assert("pagination"@.len() == 10);
    assert("filters_applied"@.len() == 15);
    assert("sort"@.len() == 4);
    let h = seq![EventView::AgentPage { rows, total }, e];
    assert(h[0] == EventView::AgentPage { rows, total });
    let asked = bool_field(c.arguments, "include_sensitive_data"@) == Some(true);
    lemma_redacted(
        rows[i],
        asked && c.principal is Some && c.principal->0.confirmed_operator_tier,
    );
}

/// A page says where it begins, how many agents it has of how many, and whether
/// more follow. That it was read is entered into the audit trail, with whether
/// tokens were shown.
pub proof fn pages_of_agents_are_counted(
    c: CallView,
    rows: Seq<AgentRowView>,
    total: i64,
    e: EventView,
)
    ensures
        ({
            let page = EventView::AgentPage { rows, total };
            let f = get_agent_tokens_next(c, Seq::empty())->QueryAgents_0;
            let line = get_agent_tokens_next(c, seq![page]);
            let r = get_agent_tokens_next(c, seq![page, e]);
            let p = field(r->Finish_0->Success_data->0, "pagination"@);
            let applied = field(r->Finish_0->Success_data->0, "filters_applied"@);
            let sorted = field(r->Finish_0->Success_data->0, "sort"@);
            let asked = bool_field(c.arguments, "include_sensitive_data"@) == Some(true);
            let open = asked && c.principal is Some && c.principal->0.confirmed_operator_tier;
            &&& applied is Some && sorted is Some
            &&& text_field(applied->0, "filter_status"@) == f.status
            &&& text_field(applied->0, "filter_agent_id_pattern"@) == f.agent_id_pattern
            &&& text_field(applied->0, "filter_created_after"@) == f.created_after
            &&& text_field(applied->0, "filter_created_before"@) == f.created_before
            &&& bool_field(applied->0, "include_terminated"@) == Some(f.include_terminated)
            &&& bool_field(applied->0, "include_sensitive_data"@) == Some(open)
            &&& text_field(sorted->0, "sort_by"@) == Some(f.sort_by)
            &&& text_field(sorted->0, "sort_order"@) == Some(f.sort_order)
            &&& p is Some
            &&& field(p->0, "offset"@) == Some(int_json(f.offset as int))
            &&& field(p->0, "limit"@) == Some(int_json(f.limit as int))
            &&& field(p->0, "total_count"@) == Some(int_json(total as int))
            &&& field(p->0, "returned_count"@) == Some(int_json(rows.len() as int))
            &&& bool_field(p->0, "has_more"@) == Some(f.offset + rows.len() < total)
            &&& line is LogAction
            &&& line->LogAction_action_type == "get_agent_tokens"@
            &&& c.principal is Some ==> line->LogAction_agent_id == c.principal->0.actor_label
            &&& c.principal is None ==> line->LogAction_agent_id == "operator"@
            &&& bool_field(line->LogAction_details, "tokens_exposed"@) == Some(open)
            &&& field(line->LogAction_details, "agents_returned"@) == Some(
                int_json(rows.len() as int),
            )
            &&& field(line->LogAction_details, "total_matching"@) == Some(int_json(total as int))
            &&& text_field(line->LogAction_details, "filter_status"@) == f.status
            &&& text_field(line->LogAction_details, "filter_agent_id_pattern"@)
                == f.agent_id_pattern
            &&& bool_field(line->LogAction_details, "include_sensitive_data"@) == Some(asked)
        }),
{
    reveal_strlit("agents");
    reveal_strlit("pagination");
    reveal_strlit("filters_applied");
    reveal_strlit("sort");
    assert("agents"@.len() == 6);
    assert("pagination"@.len() == 10);
    assert("filters_applied"@.len() == 15);
    assert("sort"@.len() == 4);
    reveal_strlit("offset");
    reveal_strlit("limit");
    reveal_strlit("total_count");
    reveal_strlit("returned_count");
    reveal_strlit("has_more");
    assert("offset"@.len() == 6);
    assert("limit"@.len() == 5);
    assert("total_count"@.len() == 11);
    assert("returned_count"@.len() == 14);
    assert("has_more"@.len() == 8);
    reveal_strlit("filter_status");
    reveal_strlit("filter_agent_id_pattern");
    reveal_strlit("agents_returned");
    reveal_strlit("total_matching");
    reveal_strlit("include_sensitive_data");
    reveal_strlit("tokens_exposed");
    reveal_strlit("filter_created_after");
    reveal_strlit("filter_created_before");
    reveal_strlit("include_terminated");
    assert("filter_status"@.len() == 13);
    assert("filter_agent_id_pattern"@.len() == 23);
    assert("agents_returned"@.len() == 15);
    assert("total_matching"@.len() == 14);
    assert("include_sensitive_data"@.len() == 22);
    assert("tokens_exposed"@.len() == 14);
    assert("filter_created_after"@.len() == 20);
    assert("filter_created_before"@.len() == 21);
    assert("include_terminated"@.len() == 18);
    assert("tokens_exposed"@[2] == 'k');
    assert("total_matching"@[2] == 't');
    reveal_strlit("sort_by");
    reveal_strlit("sort_order");
    assert("sort_by"@.len() == 7);
    assert("sort_order"@.len() == 10);
    let page = EventView::AgentPage { rows, total };
    let h = seq![page, e];
    assert(h[0] == page);
    assert(seq![page][0] == page);
}

/// The status of the server: every live agent but those of the system is shown
/// under its name with its status, its task, its directory and its colour, and
/// as many are counted as there are.
pub proof fn live_agents_are_shown(
    rows: Seq<AgentRowView>,
    size: usize,
    preview: Map<Seq<char>, JsonView>,
    i: int,
)
    requires
        0 <= i < rows.len(),
        forall|j: int, k: int|
            0 <= j < k < rows.len() ==> #[trigger] rows[j].agent_id != #[trigger] rows[k].agent_id,
    ensures
        ({
            let h = seq![EventView::Agents(rows), EventView::FileMap { size, preview }];
            let r = view_status_next(h);
            let data = r->Finish_0->Success_data->0;
            let all = field(data, "agents_details"@);
            let one = field(all->0, rows[i].agent_id);
            &&& view_status_next(Seq::empty()) is ListActiveAgents
            &&& r is Finish && r->Finish_0 is Success && r->Finish_0->Success_data is Some
            &&& all is Some
            &&& rows[i].status == "system"@ ==> one is None
            &&& rows[i].status != "system"@ ==> {
                &&& one is Some
                &&& text_field(one->0, "status"@) == Some(rows[i].status)
                &&& text_field(one->0, "current_task"@) == rows[i].current_task
                &&& text_field(one->0, "working_directory"@) == Some(rows[i].working_directory)
                &&& rows[i].color is Some ==> text_field(one->0, "color"@) == rows[i].color
                &&& rows[i].color is None ==> text_field(one->0, "color"@) == Some("N/A"@)
            }
            &&& field(data, "active_agents_count"@) == Some(
                int_json(rows.filter(|a: AgentRowView| a.status != "system"@).len() as int),
            )
            &&& field(data, "file_map_size"@) == Some(int_json(size as int))
            &&& field(data, "file_map_preview"@) == Some(JsonView::Object(preview))
        }),
{
    reveal_strlit("active_connections");
    reveal_strlit("active_agents_count");
    reveal_strlit("agents_details");
    reveal_strlit("server_uptime");
    reveal_strlit("file_map_size");
    reveal_strlit("file_map_preview");
    assert("active_connections"@.len() == 18);
    assert("active_agents_count"@.len() == 19);
    assert("agents_details"@.len() == 14);
    assert("server_uptime"@.len() == 13);
    assert("file_map_size"@.len() == 13);
    assert("file_map_preview"@.len() == 16);
    assert("file_map_size"@[0] == 'f');
    assert("server_uptime"@[0] == 's');
    reveal_strlit("status");
    reveal_strlit("current_task");
    reveal_strlit("working_directory");
    reveal_strlit("color");
    assert("status"@.len() == 6);
    assert("current_task"@.len() == 12);
    assert("working_directory"@.len() == 17);
    assert("color"@.len() == 5);
    let h = seq![EventView::Agents(rows), EventView::FileMap { size, preview }];
    assert(h[0] == EventView::Agents(rows));
    assert(h[1] == EventView::FileMap { size, preview });
    let live = live_agents(rows);
    lemma_live(rows, i);
    if rows[i].status != "system"@ {
        let k = choose|k: int| 0 <= k < live.len() && live[k] == rows[i];
        lemma_details(live, k);
    } else if agents_details(live).dom().contains(rows[i].agent_id) {
        let k = lemma_details_dom(live, rows[i].agent_id);
        lemma_live_from(rows, k);
        let j = choose|j: int| 0 <= j < rows.len() && rows[j] == live[k];
        assert(j == i);
    }
}

proof fn lemma_live(rows: Seq<AgentRowView>, i: int)
    requires
        0 <= i < rows.len(),
        forall|j: int, k: int|
            0 <= j < k < rows.len() ==> #[trigger] rows[j].agent_id != #[trigger] rows[k].agent_id,
    ensures
        rows[i].status != "system"@ ==> live_agents(rows).contains(rows[i]),
        forall|j: int, k: int|
            0 <= j < k < live_agents(rows).len() ==> #[trigger] live_agents(rows)[j].agent_id
                != #[trigger] live_agents(rows)[k].agent_id,
    decreases rows.len(),
{
    reveal(Seq::filter);
    let front = rows.drop_last();
    let live = live_agents(rows);
    let before = live_agents(front);
    if front.len() > 0 {
        lemma_live(
            front,
            if i < front.len() {
                i
            } else {
                0
            },
        );
    }
    if rows[i].status != "system"@ {
        if i < front.len() {
            let k = choose|k: int| 0 <= k < before.len() && before[k] == front[i];
            assert(live[k] == rows[i]);
        } else {
            assert(live[live.len() - 1] == rows[i]);
        }
    }
    assert forall|j: int, k: int| 0 <= j < k < live.len() implies #[trigger] live[j].agent_id
        != #[trigger] live[k].agent_id by {
        if k < before.len() {
            assert(live[j] == before[j] && live[k] == before[k]);
        } else {
            assert(live[j] == before[j]);
            lemma_live_from(front, j);
            let m = choose|m: int| 0 <= m < front.len() && front[m] == before[j];
            assert(rows[m] == front[m]);
            assert(rows[m].agent_id != rows[rows.len() - 1].agent_id);
        }
    }
}

proof fn lemma_live_from(rows: Seq<AgentRowView>, k: int)
    requires
        0 <= k < live_agents(rows).len(),
    ensures
        rows.contains(live_agents(rows)[k]),
        live_agents(rows)[k].status != "system"@,
    decreases rows.len(),
{
    reveal(Seq::filter);
    if rows.len() > 0 {
        let front = rows.drop_last();
        if k < live_agents(front).len() {
            lemma_live_from(front, k);
            let j = choose|j: int| 0 <= j < front.len() && front[j] == live_agents(front)[k];
            assert(rows[j] == live_agents(rows)[k]);
        } else {
            assert(rows[rows.len() - 1] == live_agents(rows)[k]);
        }
    }
}

proof fn lemma_details(live: Seq<AgentRowView>, k: int)
    requires
        0 <= k < live.len(),
        forall|i: int, j: int|
            0 <= i < j < live.len() ==> #[trigger] live[i].agent_id != #[trigger] live[j].agent_id,
    ensures
        agents_details(live).dom().contains(live[k].agent_id),
        agents_details(live)[live[k].agent_id] == crate::admin_tools::status_entry(live[k]),
    decreases live.len(),
{
    if k < live.len() - 1 {
        lemma_details(live.drop_last(), k);
        assert(live[k].agent_id != live[live.len() - 1].agent_id);
    }
}

proof fn lemma_details_dom(live: Seq<AgentRowView>, id: Seq<char>) -> (k: int)
    requires
        agents_details(live).dom().contains(id),
    ensures
        0 <= k < live.len(),
        live[k].agent_id == id,
    decreases live.len(),
{
    if live.len() == 0 {
        0
    } else if live.last().agent_id == id {
        live.len() - 1
    } else {
        lemma_details_dom(live.drop_last(), id)
    }
}

// ---------------------------------------------------------------------
// Registration
// ---------------------------------------------------------------------

/// Whether a call names the agent `id` in the role `role`: by `name`, or by
/// `agent_id` where there is no `name`, and by `role` or `agent_role`; a worker
/// where it names no role.
pub open spec fn asks_for(args: JsonView, id: Seq<char>, role: Seq<char>) -> bool {
    let raw = match text_field(args, "name"@) {
        Some(t) => Some(t),
        None => text_field(args, "agent_id"@),
    };
    let given = match text_field(args, "role"@) {
        Some(t) => Some(t),
        None => text_field(args, "agent_role"@),
    };
    &&& raw is Some && id == trimmed(raw->0)
    &&& given is Some ==> role == given->0
    &&& given is None ==> role == "worker"@
}

/// A call is refused as a registration, whatever has happened, where it names no
/// agent, a role that is none, a name with a bracket or a name that is kept for
/// others. Any other has a token minted.
pub proof fn registrations_need_a_name_and_a_role(
    c: CallView,
    h: Seq<EventView>,
    id: Seq<char>,
    role: Seq<char>,
)
    ensures
        text_field(c.arguments, "name"@) is None && text_field(c.arguments, "agent_id"@) is None
            ==> (register_agent_next(c, h) matches ActionView::Finish(
            ResultView::Invalid { field: f, .. },
        ) && f == Some("name"@)),
        asks_for(c.arguments, id, role) && id.len() == 0 ==> (register_agent_next(c, h) matches
            ActionView::Finish(ResultView::Invalid { field: f, .. }) && f == Some("name"@)),
        asks_for(c.arguments, id, role) && id.len() > 0 && role != "worker"@ && role != "manager"@
            ==> (register_agent_next(c, h) matches ActionView::Finish(
            ResultView::Invalid { field: f, .. },
        ) && f == Some("role"@)),
        asks_for(c.arguments, id, role) && (role == "worker"@ || role == "manager"@) && (
        id.contains('[') || id.contains(']') || is_reserved(id)) ==> (register_agent_next(c, h)
            matches ActionView::Finish(ResultView::Invalid { field: f, .. }) && f == Some(
            "name"@,
        )),
        asks_for(c.arguments, id, role) && id.len() > 0 && (role == "worker"@ || role
            == "manager"@) && !id.contains('[') && !id.contains(']') && !is_reserved(id)
            ==> register_agent_next(c, Seq::empty()) is MintToken,
{
}

/// A new agent is stored as the call says: under its name and in its role, with
/// the token that was minted for it, the colour of its number, the project's
/// directory and the call's time.
pub proof fn agents_are_stored_as_registered(c: CallView, h: Seq<EventView>)
    requires
        register_agent_next(c, h) is CreateAgent,
    ensures
        ({
            let a = register_agent_next(c, h)->CreateAgent_0;
            &&& h.len() == 2
            &&& register_agent_next(c, Seq::empty()) is MintToken
            &&& h[0] == EventView::Text(Some(a.token))
            &&& h[1] is Index && a.color == agent_color(h[1]->Index_0 as int)
            &&& asks_for(c.arguments, a.agent_id, a.agent_role)
            &&& a.agent_id.len() > 0
            &&& a.created_at == c.now
            &&& a.status == "created"@
            &&& a.working_directory == c.project_dir
        }),
{
}

/// What follows the storing of a new agent: a manager gets a profile to begin
/// with, no one else does; then comes the audit line, which names the agent and
/// its role; and an agent that is there already makes the call end in a
/// conflict.
pub proof fn registrations_are_audited(
    c: CallView,
    h: Seq<EventView>,
    created_at: Seq<char>,
    e: EventView,
)
    requires
        register_agent_next(c, h) is CreateAgent,
    ensures
        ({
            let a = register_agent_next(c, h)->CreateAgent_0;
            let g = h.push(EventView::Created { created_at });
            let first = register_agent_next(c, g);
            let line = if a.agent_role == "manager"@ {
                register_agent_next(c, g.push(e))
            } else {
                first
            };
            &&& a.agent_role == "manager"@ ==> first is SeedManagerProfile
                && first->SeedManagerProfile_agent_id == a.agent_id
                && first->SeedManagerProfile_timestamp == created_at
            &&& line is LogAction
            &&& line->LogAction_action_type == "registered_agent"@
            &&& c.principal is Some ==> line->LogAction_agent_id == c.principal->0.actor_label
            &&& c.principal is None ==> line->LogAction_agent_id == "operator"@
            &&& text_field(line->LogAction_details, "agent_id"@) == Some(a.agent_id)
            &&& text_field(line->LogAction_details, "role"@) == Some(a.agent_role)
            &&& line->LogAction_timestamp == c.now
            &&& register_agent_next(c, h.push(EventView::Duplicate)) matches ActionView::Finish(
                ResultView::Conflict { .. },
            )
        }),
{
    reveal_strlit("agent_id");
    reveal_strlit("role");
    assert("agent_id"@.len() == 8);
    assert("role"@.len() == 4);
    let g = h.push(EventView::Created { created_at });
    assert(g[0] == h[0] && g[1] == h[1] && g[2] == EventView::Created { created_at });
    let f = g.push(e);
    assert(f[0] == h[0] && f[1] == h[1] && f[2] == EventView::Created { created_at });
    let d = h.push(EventView::Duplicate);
    assert(d[0] == h[0] && d[1] == h[1] && d[2] == EventView::Duplicate);
}

/// Whether a setup snippet leads an agent to `url` with `token`.
pub open spec fn leads_to(j: JsonView, url: Seq<char>, token: Seq<char>) -> bool {
    let servers = field(j, "mcpServers"@);
    let one = field(servers->0, "agent-mcp"@);
    let headers = field(one->0, "headers"@);
    &&& servers is Some && one is Some && headers is Some
    &&& text_field(one->0, "type"@) == Some("http"@)
    &&& text_field(one->0, "url"@) == Some(url)
    &&& text_field(headers->0, "Authorization"@) == Some("Bearer "@ + token)
}

/// Whoever registers an agent reads what was stored: its name, its role and its
/// token, and a snippet with that token that leads to the project's address on
/// the host that the call names.
pub proof fn registrations_hand_out_the_token(c: CallView, h: Seq<EventView>) -> (snippet: JsonView)
    requires
        register_agent_next(c, h) is Finish,
        register_agent_next(c, h)->Finish_0 is Success,
    ensures
        ({
            let data = register_agent_next(c, h)->Finish_0->Success_data->0;
            let a = register_agent_next(c, h.subrange(0, 2))->CreateAgent_0;
            let host = text_field(c.arguments, "host"@);
            let mount = text_field(c.arguments, "mount_prefix"@);
            let project = text_field(c.arguments, "project_name"@);
            let there = host is Some && trimmed(host->0).len() > 0;
            let named = project is Some && trimmed(project->0).len() > 0;
            let base = without_trailing(trimmed(host->0), '/');
            &&& register_agent_next(c, h)->Finish_0->Success_data is Some
            &&& register_agent_next(c, h.subrange(0, 2)) is CreateAgent
            &&& text_field(data, "agent_id"@) == Some(a.agent_id)
            &&& text_field(data, "token"@) == Some(a.token)
            &&& text_field(data, "agent_role"@) == Some(a.agent_role)
            &&& text_field(data, "mcp_snippet"@) == Some(pretty_text(snippet))
            &&& named ==> text_field(data, "project_name"@) == Some(trimmed(project->0))
            &&& (there && named && mount is None) ==> leads_to(
                snippet,
                base + "/agent-mcp"@ + "/mcp/"@ + trimmed(project->0),
                a.token,
            )
            &&& (there && named && mount is Some) ==> leads_to(
                snippet,
                base + mount->0 + "/mcp/"@ + trimmed(project->0),
                a.token,
            )
            &&& (there && !named && c.principal is None) ==> leads_to(
                snippet,
                base + "/mcp"@,
                a.token,
            )
            &&& exists|url: Seq<char>| #[trigger] leads_to(snippet, url, a.token)
            &&& register_agent_next(c, h)->Finish_0->Success_message is Some
            &&& holds(register_agent_next(c, h)->Finish_0->Success_message->0, a.agent_id)
        }),
{
    reveal_strlit("agent_id");
    reveal_strlit("token");
    reveal_strlit("agent_role");
    reveal_strlit("mcp_snippet");
    reveal_strlit("project_name");
    assert("agent_id"@.len() == 8);
    assert("token"@.len() == 5);
    assert("agent_role"@.len() == 10);
    assert("mcp_snippet"@.len() == 11);
    assert("project_name"@.len() == 12);
    reveal_strlit("type");
    reveal_strlit("url");
    reveal_strlit("headers");
    assert("type"@.len() == 4);
    assert("url"@.len() == 3);
    assert("headers"@.len() == 7);
    let p = h.subrange(0, 2);
    assert(p[0] == h[0] && p[1] == h[1]);
    let id = crate::admin_tools::requested_id(c.arguments)->0;
    let token = h[0]->Text_0->0;
    let at: int = if crate::admin_tools::requested_role(c.arguments) == "manager"@ {
        4
    } else {
        3
    };
    let env = match h[at + 1] {
        EventView::Text(env) => env,
        _ => None,
    };
    let project = crate::admin_tools::snippet_project(
        text_field(c.arguments, "project_name"@),
        c.principal,
    );
    let host = crate::admin_tools::snippet_host(text_field(c.arguments, "host"@), env);
    let mount = crate::admin_tools::text_or(
        text_field(c.arguments, "mount_prefix"@),
        "/agent-mcp"@,
    );
    let snippet = crate::admin_tools::snippet_json(project, token, host, mount);
    let url = crate::admin_tools::snippet_url(project, host, mount);
    assert(leads_to(snippet, url, token));
    let r = register_agent_next(c, h);
    assert(r == crate::admin_tools::registered_view(c, id, token, env));
    let data = r->Finish_0->Success_data->0;
    assert(text_field(data, "agent_id"@) == Some(id));
    assert(text_field(data, "token"@) == Some(token));
    assert(text_field(data, "mcp_snippet"@) == Some(pretty_text(snippet)));
    let a = register_agent_next(c, p)->CreateAgent_0;
    assert(a.token == token && a.agent_id == id);
    let given = text_field(c.arguments, "project_name"@);
    let named = given is Some && trimmed(given->0).len() > 0;
    assert(named ==> project == Some(trimmed(given->0)));
    assert(named ==> text_field(data, "project_name"@) == Some(trimmed(given->0)));
    crate::text_laws::sums_hold_their_parts(
        "Agent '"@,
        id,
        "' registered. Paste the snippet into the user's client .mcp.json — agent-mcp no longer spawns the client session itself."@,
    );
    snippet
}

/// Names that begin with `admin` in small letters, once they are written so, are
/// kept; no others are.
pub proof fn admin_names_are_kept(id: Seq<char>)
    ensures
        is_reserved(id) <==> {
            let low = lowercase(id);
            &&& low.len() >= 5
            &&& low[0] == 'a'
            &&& low[1] == 'd'
            &&& low[2] == 'm'
            &&& low[3] == 'i'
            &&& low[4] == 'n'
        },
{
    reveal_strlit("admin");
    let low = lowercase(id);
    let p = "admin"@;
    assert(p.len() == 5 && p[0] == 'a' && p[1] == 'd' && p[2] == 'm' && p[3] == 'i' && p[4]
        == 'n');
    if low.len() >= 5 {
        let s = low.subrange(0, 5);
        assert(s[0] == low[0] && s[1] == low[1] && s[2] == low[2] && s[3] == low[3] && s[4]
            == low[4]);
        if low[0] == 'a' && low[1] == 'd' && low[2] == 'm' && low[3] == 'i' && low[4] == 'n' {
            assert(s =~= p);
        }
    }
}

// ---------------------------------------------------------------------
// Tokens and colours
// ---------------------------------------------------------------------

/// The number that a hexadecimal digit in small letters stands for.
pub open spec fn digit_value(c: char) -> int {
    if '0' <= c <= '9' {
        c as int - 48
    } else {
        c as int - 97 + 10
    }
}

/// Bytes can be read back from their hexadecimal text: two digits for each, the
/// higher first, in small letters.
pub proof fn hexadecimal_texts_can_be_read_back(bytes: Seq<u8>, i: int)
    requires
        0 <= i < bytes.len(),
    ensures
        hex_text(bytes).len() == 2 * bytes.len(),
        16 * digit_value(hex_text(bytes)[2 * i]) + digit_value(hex_text(bytes)[2 * i + 1])
            == bytes[i],
        ({
            let a = hex_text(bytes)[2 * i];
            let b = hex_text(bytes)[2 * i + 1];
            &&& '0' <= a <= '9' || 'a' <= a <= 'f'
            &&& '0' <= b <= '9' || 'a' <= b <= 'f'
        }),
    decreases bytes.len(),
{
    let front = bytes.drop_last();
    crate::admin_tools::token_length(bytes);
    crate::admin_tools::token_length(front);
    if i < bytes.len() - 1 {
        hexadecimal_texts_can_be_read_back(front, i);
        assert(hex_text(bytes)[2 * i] == hex_text(front)[2 * i]);
        assert(hex_text(bytes)[2 * i + 1] == hex_text(front)[2 * i + 1]);
    } else {
        let d = bytes.last();
        assert(0 <= d as int / 16 < 16);
    }
}

/// A token is made of thirty-two hexadecimal digits in small letters.
pub proof fn tokens_are_thirty_two_digits(s: Seq<char>, i: int)
    requires
        is_token(s),
        0 <= i < s.len(),
    ensures
        s.len() == 32,
        '0' <= s[i] <= '9' || 'a' <= s[i] <= 'f',
{
    let bytes = choose|bytes: Seq<u8>| bytes.len() == 16 && s == #[trigger] hex_text(bytes);
    crate::admin_tools::token_length(bytes);
    hexadecimal_texts_can_be_read_back(bytes, i / 2);
    assert(i == 2 * (i / 2) || i == 2 * (i / 2) + 1);
}

/// Every agent has one of eighteen colours, by its number; the numbers begin
/// again after eighteen.
pub proof fn colours_go_by_number(index: int)
    ensures
        index % 18 == 0 ==> agent_color(index) == "#FF5733"@,
        index % 18 == 1 ==> agent_color(index) == "#33FF57"@,
        index % 18 == 2 ==> agent_color(index) == "#3357FF"@,
        index % 18 == 3 ==> agent_color(index) == "#FF33A1"@,
        index % 18 == 4 ==> agent_color(index) == "#A133FF"@,
        index % 18 == 5 ==> agent_color(index) == "#33FFA1"@,
        index % 18 == 6 ==> agent_color(index) == "#FFBD33"@,
        index % 18 == 7 ==> agent_color(index) == "#33FFBD"@,
        index % 18 == 8 ==> agent_color(index) == "#BD33FF"@,
        index % 18 == 9 ==> agent_color(index) == "#FF3333"@,
        index % 18 == 10 ==> agent_color(index) == "#33FF33"@,
        index % 18 == 11 ==> agent_color(index) == "#3333FF"@,
        index % 18 == 12 ==> agent_color(index) == "#FF8C00"@,
        index % 18 == 13 ==> agent_color(index) == "#00CED1"@,
        index % 18 == 14 ==> agent_color(index) == "#9400D3"@,
        index % 18 == 15 ==> agent_color(index) == "#FF1493"@,
        index % 18 == 16 ==> agent_color(index) == "#7FFF00"@,
        index % 18 == 17 ==> agent_color(index) == "#1E90FF"@,
{
}

} // verus!

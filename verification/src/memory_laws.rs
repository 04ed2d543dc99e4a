//! What is written into the project context, and by whom.

use crate::context_health::{is_config, is_key};
use crate::context_writing::{
    apply_from, authorize_from, batch_key, batch_keys, batch_next,
    bulk_update_project_context_next, create_project_context_next, failure_lines,
    first_shape_problem, item_problem, success_lines, summary_lines,
    update_project_context_next, writer, GateView, OutcomeView,
};
use crate::json::{compact_text, field, int_json, list_field, text_field, JsonView};
use crate::principal::is_operator;
use crate::protocol::{is_failure, ActionView, CallView, ContextRowView, EventView, ResultView};
use crate::text::holds;
use vstd::prelude::*;

verus! {

/// Whether every text goes by the name of the caller: the caller's label, or
/// `unknown` where there is no caller.
pub open spec fn signed(c: CallView, who: Seq<char>) -> bool {
    &&& c.principal is Some ==> who == c.principal->0.actor_label
    &&& c.principal is None ==> who == "unknown"@
}

/// A new entry is stored as the call says: under its key, with its value as
/// JSON text and its description, in the caller's name and at the call's time.
pub proof fn entries_are_created_as_written(c: CallView, h: Seq<EventView>)
    requires
        create_project_context_next(c, h) is CreateContext,
    ensures
        ({
            let n = create_project_context_next(c, h)->CreateContext_0;
            &&& text_field(c.arguments, "context_key"@) == Some(n.context_key)
            &&& field(c.arguments, "context_value"@) is Some
            &&& n.value == compact_text(field(c.arguments, "context_value"@)->0)
            &&& n.description == text_field(c.arguments, "description"@)
            &&& signed(c, n.created_by)
            &&& n.timestamp == c.now
        }),
{
}

/// What follows a new entry: a line of the audit trail in the caller's name,
/// then a wake of those whom the key concerns, then the answer, which names the
/// key. Where an entry stood there already the call ends in a conflict.
pub proof fn created_entries_are_audited_and_wake(
    c: CallView,
    h: Seq<EventView>,
    e: EventView,
    w: EventView,
)
    requires
        create_project_context_next(c, h) is CreateContext,
    ensures
        ({
            let key = text_field(c.arguments, "context_key"@)->0;
            let g = h.push(EventView::Changed(true));
            let line = create_project_context_next(c, g);
            let end = create_project_context_next(c, g.push(e).push(w));
            &&& line is LogAction
            &&& signed(c, line->LogAction_agent_id)
            &&& line->LogAction_action_type == "created_memory"@
            &&& text_field(line->LogAction_details, "context_key"@) == Some(key)
            &&& line->LogAction_timestamp == c.now
            &&& create_project_context_next(c, g.push(e)) == (ActionView::DeliverWakes {
                context_keys: seq![key],
                bulk: false,
            })
            &&& end is Finish && end->Finish_0 is Success && end->Finish_0->Success_data is Some
            &&& text_field(end->Finish_0->Success_data->0, "context_key"@) == Some(key)
            &&& end->Finish_0->Success_message is Some
            &&& holds(end->Finish_0->Success_message->0, key)
            &&& create_project_context_next(c, h.push(EventView::Changed(false))) matches
                ActionView::Finish(ResultView::Conflict { .. })
        }),
{
    reveal_strlit("context_key");
    reveal_strlit("wakes");
    assert("context_key"@.len() == 11);
    assert("wakes"@.len() == 5);
    let key = text_field(c.arguments, "context_key"@)->0;
    let g = h.push(EventView::Changed(true));
    let n = h.len() as int;
    assert(forall|k: int| 0 <= k < n ==> g[k] == h[k]);
    assert(forall|k: int| 0 <= k < n ==> g.push(e)[k] == h[k]);
    assert(forall|k: int| 0 <= k < n ==> g.push(e).push(w)[k] == h[k]);
    assert(g[n] == EventView::Changed(true));
    assert(g.push(e)[n] == EventView::Changed(true));
    assert(g.push(e).push(w)[n] == EventView::Changed(true));
    let f = h.push(EventView::Changed(false));
    assert(forall|k: int| 0 <= k < n ==> f[k] == h[k]);
    assert(f[n] == EventView::Changed(false));
    crate::text_laws::sums_hold_their_parts("Memory '"@, key, "' created successfully"@);
}

/// Whether a call of `create_project_context`, or one update, has what it needs:
/// a key that is neither too long nor one of the settings, and a value.
pub open spec fn writes_properly(c: CallView, key: Seq<char>) -> bool {
    &&& text_field(c.arguments, "context_key"@) == Some(key)
    &&& 0 < key.len() <= 256
    &&& !is_config(key)
    &&& field(c.arguments, "context_value"@) is Some
}

/// An operator creates at once what is proper. Anyone else has the key looked up
/// first, and creates the entry where there is none or its own stands there;
/// it is refused where another's stands there.
pub proof fn proper_entries_are_created(
    c: CallView,
    key: Seq<char>,
    row: ContextRowView,
)
    requires
        writes_properly(c, key),
        is_key(key),
    ensures
        is_operator(c.principal) ==> create_project_context_next(c, Seq::empty()) is CreateContext,
        !is_operator(c.principal) ==> {
            let mine = seq![EventView::Context(Some(row))];
            &&& create_project_context_next(c, Seq::empty()) == (ActionView::GetContext {
                context_key: key,
            })
            &&& create_project_context_next(
                c,
                seq![EventView::Context(None)],
            ) is CreateContext
            &&& (c.principal is Some && row.created_by == Some(c.principal->0.actor_label))
                ==> create_project_context_next(c, mine) is CreateContext
            &&& (c.principal is Some && row.created_by != Some(c.principal->0.actor_label)) ==> (
            create_project_context_next(c, mine) matches ActionView::Finish(
                ResultView::PermissionDenied { .. },
            ))
        },
{
    let a = seq![EventView::Context(None)];
    let b = seq![EventView::Context(Some(row))];
    assert(a[0] == EventView::Context(None) && b[0] == EventView::Context(Some(row)));
}

/// A call that lacks a key or a value, or whose key no entry may have, ends at
/// once, and says which argument is wrong.
pub proof fn improper_entries_are_not_created(c: CallView, h: Seq<EventView>)
    ensures
        ({
            let key = text_field(c.arguments, "context_key"@);
            let r = create_project_context_next(c, h);
            &&& (key is None || key->0.len() == 0 || key->0.len() > 256 && is_key(key->0) && field(
                c.arguments,
                "context_value"@,
            ) is Some || !is_key(key->0)) ==> r is Finish && r->Finish_0 is Invalid
                && r->Finish_0->Invalid_field == Some("context_key"@)
            &&& (key is Some && is_key(key->0) && field(c.arguments, "context_value"@) is None)
                ==> r is Finish && r->Finish_0 is Invalid && r->Finish_0->Invalid_field == Some(
                "context_value"@,
            )
        }),
{
}

/// The keys of the settings are those that begin with `config_`, in capitals or
/// not.
pub proof fn setting_keys_begin_with_config(key: Seq<char>)
    ensures
        is_config(key) <==> {
            &&& key.len() >= 7
            &&& key[0] == 'c' || key[0] == 'C'
            &&& key[1] == 'o' || key[1] == 'O'
            &&& key[2] == 'n' || key[2] == 'N'
            &&& key[3] == 'f' || key[3] == 'F'
            &&& key[4] == 'i' || key[4] == 'I'
            &&& key[5] == 'g' || key[5] == 'G'
            &&& key[6] == '_'
        },
{
    reveal_strlit("config_");
    let low = crate::text::ascii_lower(key);
    let p = "config_"@;
    assert(p.len() == 7 && p[0] == 'c' && p[1] == 'o' && p[2] == 'n' && p[3] == 'f' && p[4] == 'i'
        && p[5] == 'g' && p[6] == '_');
    assert(low.len() == key.len());
    if key.len() >= 7 {
        let s = low.subrange(0, 7);
        assert(s[0] == low[0] && s[1] == low[1] && s[2] == low[2] && s[3] == low[3] && s[4]
            == low[4] && s[5] == low[5] && s[6] == low[6]);
        if is_config(key) {
            assert(s =~= p);
        }
        if low[0] == 'c' && low[1] == 'o' && low[2] == 'n' && low[3] == 'f' && low[4] == 'i'
            && low[5] == 'g' && low[6] == '_' {
            assert(s =~= p);
        }
    }
}

/// One update stores what the call says: its value as JSON text, under its key,
/// in the caller's name; and it touches the description only where the call has
/// one.
pub proof fn entries_are_updated_as_written(c: CallView, h: Seq<EventView>)
    requires
        field(c.arguments, "updates"@) is None,
        update_project_context_next(c, h) is UpsertContext,
    ensures
        ({
            let u = update_project_context_next(c, h);
            &&& text_field(c.arguments, "context_key"@) == Some(u->UpsertContext_context_key)
            &&& field(c.arguments, "context_value"@) is Some
            &&& u->UpsertContext_value == compact_text(field(c.arguments, "context_value"@)->0)
            &&& u->UpsertContext_description == text_field(c.arguments, "description"@)
            &&& u->UpsertContext_description_provided == (text_field(
                c.arguments,
                "description"@,
            ) is Some)
            &&& signed(c, u->UpsertContext_updated_by)
            &&& u->UpsertContext_timestamp == c.now
        }),
{
}

/// An operator updates at once what is proper. Anyone else has the key looked up
/// first, and updates the entry where there is none or its own stands there;
/// it is refused where another's stands there.
pub proof fn proper_updates_are_made(c: CallView, key: Seq<char>, row: ContextRowView)
    requires
        writes_properly(c, key),
        field(c.arguments, "updates"@) is None,
    ensures
        is_operator(c.principal) ==> update_project_context_next(c, Seq::empty()) is UpsertContext,
        !is_operator(c.principal) ==> {
            let mine = seq![EventView::Context(Some(row))];
            &&& update_project_context_next(c, Seq::empty()) == (ActionView::GetContext {
                context_key: key,
            })
            &&& update_project_context_next(
                c,
                seq![EventView::Context(None)],
            ) is UpsertContext
            &&& (c.principal is Some && row.created_by == Some(c.principal->0.actor_label))
                ==> update_project_context_next(c, mine) is UpsertContext
            &&& (c.principal is Some && row.created_by != Some(c.principal->0.actor_label)) ==> (
            update_project_context_next(c, mine) matches ActionView::Finish(
                ResultView::PermissionDenied { .. },
            ))
        },
{
    let a = seq![EventView::Context(None)];
    let b = seq![EventView::Context(Some(row))];
    assert(a[0] == EventView::Context(None) && b[0] == EventView::Context(Some(row)));
}

/// What follows one update: a line of the audit trail in the caller's name, then
/// a wake of those whom the key concerns, then the answer, which names the key.
pub proof fn updates_are_audited_and_wake(
    c: CallView,
    h: Seq<EventView>,
    d: EventView,
    e: EventView,
    w: EventView,
)
    requires
        field(c.arguments, "updates"@) is None,
        update_project_context_next(c, h) is UpsertContext,
        !is_failure(d),
    ensures
        ({
            let key = text_field(c.arguments, "context_key"@)->0;
            let g = h.push(d);
            let line = update_project_context_next(c, g);
            let end = update_project_context_next(c, g.push(e).push(w));
            &&& line is LogAction
            &&& signed(c, line->LogAction_agent_id)
            &&& line->LogAction_action_type == "updated_context"@
            &&& text_field(line->LogAction_details, "context_key"@) == Some(key)
            &&& line->LogAction_timestamp == c.now
            &&& update_project_context_next(c, g.push(e)) == (ActionView::DeliverWakes {
                context_keys: seq![key],
                bulk: false,
            })
            &&& end is Finish && end->Finish_0 is Success && end->Finish_0->Success_data is Some
            &&& text_field(end->Finish_0->Success_data->0, "context_key"@) == Some(key)
            &&& end->Finish_0->Success_message is Some
            &&& holds(end->Finish_0->Success_message->0, key)
        }),
{
    reveal_strlit("context_key");
    reveal_strlit("action");
    reveal_strlit("wakes");
    assert("context_key"@.len() == 11);
    assert("action"@.len() == 6);
    assert("wakes"@.len() == 5);
    let key = text_field(c.arguments, "context_key"@)->0;
    let g = h.push(d);
    let n = h.len() as int;
    assert(forall|k: int| 0 <= k < n ==> g[k] == h[k]);
    assert(forall|k: int| 0 <= k < n ==> g.push(e)[k] == h[k]);
    assert(forall|k: int| 0 <= k < n ==> g.push(e).push(w)[k] == h[k]);
    assert(g[n] == d);
    assert(g.push(e)[n] == d);
    assert(g.push(e).push(w)[n] == d);
    crate::text_laws::sums_hold_their_parts(
        "Project context updated successfully for key '"@,
        key,
        "'."@,
    );
}

// ---------------------------------------------------------------------
// Batches
// ---------------------------------------------------------------------

/// Whether `a` stores what an update of a batch says: its value as JSON text,
/// under its key, in the caller's name, and its description only where it has
/// one, which is none where it is `null`.
pub open spec fn stores(a: ActionView, item: JsonView, c: CallView) -> bool {
    &&& a is UpsertContext
    &&& text_field(item, "context_key"@) == Some(a->UpsertContext_context_key)
    &&& field(item, "context_value"@) is Some
    &&& a->UpsertContext_value == compact_text(field(item, "context_value"@)->0)
    &&& a->UpsertContext_description_provided == (field(item, "description"@) is Some)
    &&& text_field(item, "description"@) is Some ==> a->UpsertContext_description == text_field(
        item,
        "description"@,
    )
    &&& field(item, "description"@) == Some(JsonView::Null) ==> a->UpsertContext_description is None
    &&& signed(c, a->UpsertContext_updated_by)
    &&& a->UpsertContext_timestamp == c.now
}

proof fn lemma_batch_stores(
    c: CallView,
    updates: Seq<JsonView>,
    i: int,
    h: Seq<EventView>,
    at: int,
    so_far: Seq<OutcomeView>,
)
    requires
        0 <= i,
    ensures
        apply_from(c, updates, i, h, at, so_far) is UpsertContext ==> exists|j: int|
            i <= j < updates.len() && stores(
                apply_from(c, updates, i, h, at, so_far),
                #[trigger] updates[j],
                c,
            ),
    decreases updates.len() - i,
{
    if i < updates.len() {
        let key = batch_key(updates[i]);
        match item_problem(updates[i]) {
            Some(reason) => {
                lemma_batch_stores(
                    c,
                    updates,
                    i + 1,
                    h,
                    at,
                    so_far.push(OutcomeView::Failed { context_key: key, reason }),
                );
            },
            None => {
                if h.len() <= at {
                    assert(stores(apply_from(c, updates, i, h, at, so_far), updates[i], c));
                } else {
                    lemma_batch_stores(
                        c,
                        updates,
                        i + 1,
                        h,
                        at + 1,
                        so_far.push(
                            OutcomeView::Failed { context_key: key, reason: "database error"@ },
                        ),
                    );
                    lemma_batch_stores(
                        c,
                        updates,
                        i + 1,
                        h,
                        at + 2,
                        so_far.push(OutcomeView::Updated { context_key: key }),
                    );
                }
            },
        }
    }
}

/// Whatever a batch writes, by either tool, is what one of its updates says.
pub proof fn batches_store_what_their_updates_say(
    c: CallView,
    updates: Seq<JsonView>,
    h: Seq<EventView>,
)
    requires
        list_field(c.arguments, "updates"@) == Some(updates),
    ensures
        update_project_context_next(c, h) is UpsertContext ==> exists|j: int|
            0 <= j < updates.len() && stores(
                update_project_context_next(c, h),
                #[trigger] updates[j],
                c,
            ),
        bulk_update_project_context_next(c, h) is UpsertContext ==> exists|j: int|
            0 <= j < updates.len() && stores(
                bulk_update_project_context_next(c, h),
                #[trigger] updates[j],
                c,
            ),
{
    if batch_next(c, updates, h) is UpsertContext {
        let keys = batch_keys(updates);
        crate::context_writing::lemma_gates_never_write(
            writer(c),
            keys,
            0,
            is_operator(c.principal),
            h,
            0,
        );
        let n = authorize_from(writer(c), keys, 0, is_operator(c.principal), h, 0)->Open_0;
        lemma_batch_stores(c, updates, 0, h, n, Seq::empty());
    }
}

proof fn lemma_gate_shrinks(
    actor: Seq<char>,
    keys: Seq<Seq<char>>,
    i: int,
    admin: bool,
    h: Seq<EventView>,
    at: int,
)
    requires
        0 <= i,
        0 <= at,
        authorize_from(actor, keys, i, admin, h, at) is Open,
    ensures
        ({
            let n = authorize_from(actor, keys, i, admin, h, at)->Open_0;
            &&& at <= n
            &&& n <= h.len() || n == at
            &&& forall|m: int|
                n <= m <= h.len() ==> authorize_from(
                    actor,
                    keys,
                    i,
                    admin,
                    #[trigger] h.subrange(0, m),
                    at,
                ) == GateView::Open(n)
        }),
    decreases keys.len() - i,
{
    if i < keys.len() {
        let first = crate::context_writing::authorize(actor, keys[i], admin, h, at);
        let p = first->Open_0;
        lemma_gate_shrinks(actor, keys, i + 1, admin, h, p);
        let n = authorize_from(actor, keys, i, admin, h, at)->Open_0;
        assert forall|m: int| n <= m <= h.len() implies authorize_from(
            actor,
            keys,
            i,
            admin,
            #[trigger] h.subrange(0, m),
            at,
        ) == GateView::Open(n) by {
            let g = h.subrange(0, m);
            assert(p <= n);
            if at < p {
                assert(g[at] == h[at]);
            }
            assert(crate::context_writing::authorize(actor, keys[i], admin, g, at) == first);
        }
    }
}

/// Where update `k` of a batch was written, and what came of all.
proof fn lemma_batch_reaches(
    c: CallView,
    updates: Seq<JsonView>,
    i: int,
    h: Seq<EventView>,
    at: int,
    so_far: Seq<OutcomeView>,
    k: int,
) -> (r: (int, Seq<OutcomeView>))
    requires
        0 <= i <= k < updates.len(),
        0 <= at,
        so_far.len() == i,
        field(updates[k], "context_value"@) is Some,
        text_field(updates[k], "context_key"@) is Some,
        apply_from(c, updates, i, h, at, so_far) is Finish,
    ensures
        at <= r.0 < h.len(),
        stores(apply_from(c, updates, i, h.subrange(0, r.0), at, so_far), updates[k], c),
        r.1.len() == updates.len(),
        forall|j: int| 0 <= j < i ==> r.1[j] == so_far[j],
        !is_failure(h[r.0]) ==> r.1[k] == (OutcomeView::Updated {
            context_key: text_field(updates[k], "context_key"@)->0,
        }),
        is_failure(h[r.0]) ==> r.1[k] is Failed && r.1[k]->Failed_context_key == text_field(
            updates[k],
            "context_key"@,
        )->0,
        apply_from(c, updates, i, h, at, so_far)->Finish_0->Success_message == Some(
            crate::text::joined(summary_lines(r.1), "\n"@),
        ),
    decreases updates.len() - i,
{
    let key = batch_key(updates[i]);
    match item_problem(updates[i]) {
        Some(reason) => {
            let next = so_far.push(OutcomeView::Failed { context_key: key, reason });
            let r = lemma_batch_reaches(c, updates, i + 1, h, at, next, k);
            assert forall|j: int| 0 <= j < i implies r.1[j] == so_far[j] by {
                assert(next[j] == so_far[j]);
            }
            r
        },
        None => {
            let failed = is_failure(h[at]);
            let next = if failed {
                so_far.push(OutcomeView::Failed { context_key: key, reason: "database error"@ })
            } else {
                so_far.push(OutcomeView::Updated { context_key: key })
            };
            let then = if failed {
                at + 1
            } else {
                at + 2
            };
            if i == k {
                let all = lemma_outcomes(c, updates, i + 1, h, then, next);
                assert(all[i] == next[i]);
                assert forall|j: int| 0 <= j < i implies all[j] == so_far[j] by {
                    assert(next[j] == so_far[j]);
                }
                assert(h.subrange(0, at).len() == at);
                (at, all)
            } else {
                let r = lemma_batch_reaches(c, updates, i + 1, h, then, next, k);
                let g = h.subrange(0, r.0);
                assert(g[at] == h[at]);
                assert forall|j: int| 0 <= j < i implies r.1[j] == so_far[j] by {
                    assert(next[j] == so_far[j]);
                }
                r
            }
        },
    }
}

proof fn lemma_outcomes(
    c: CallView,
    updates: Seq<JsonView>,
    i: int,
    h: Seq<EventView>,
    at: int,
    so_far: Seq<OutcomeView>,
) -> (all: Seq<OutcomeView>)
    requires
        0 <= i <= updates.len(),
        0 <= at,
        so_far.len() == i,
        apply_from(c, updates, i, h, at, so_far) is Finish,
    ensures
        all.len() == updates.len(),
        forall|j: int| 0 <= j < i ==> all[j] == so_far[j],
        apply_from(c, updates, i, h, at, so_far)->Finish_0->Success_message == Some(
            crate::text::joined(summary_lines(all), "\n"@),
        ),
    decreases updates.len() - i,
{
    if i >= updates.len() {
        so_far
    } else {
        let key = batch_key(updates[i]);
        let next = match item_problem(updates[i]) {
            Some(reason) => so_far.push(OutcomeView::Failed { context_key: key, reason }),
            None => if is_failure(h[at]) {
                so_far.push(OutcomeView::Failed { context_key: key, reason: "database error"@ })
            } else {
                so_far.push(OutcomeView::Updated { context_key: key })
            },
        };
        let then = match item_problem(updates[i]) {
            Some(reason) => at,
            None => if is_failure(h[at]) {
                at + 1
            } else {
                at + 2
            },
        };
        let all = lemma_outcomes(c, updates, i + 1, h, then, next);
        assert forall|j: int| 0 <= j < i implies all[j] == so_far[j] by {
            assert(next[j] == so_far[j]);
        }
        all
    }
}

proof fn lemma_success_line(s: Seq<OutcomeView>, k: int)
    requires
        0 <= k < s.len(),
    ensures
        s[k] is Updated ==> success_lines(s).contains(
            "\u{2713} Updated '"@ + s[k]->Updated_context_key + "'"@,
        ),
        s[k] is Failed ==> failure_lines(s).contains(
            "\u{2717} Failed '"@ + s[k]->Failed_context_key + "': "@ + s[k]->Failed_reason,
        ),
    decreases s.len(),
{
    let front = s.drop_last();
    if k < front.len() {
        lemma_success_line(front, k);
        if s[k] is Updated {
            let line = "\u{2713} Updated '"@ + s[k]->Updated_context_key + "'"@;
            let j = choose|j: int|
                0 <= j < success_lines(front).len() && success_lines(front)[j] == line;
            assert(success_lines(s)[j] == line);
        } else {
            let line = "\u{2717} Failed '"@ + s[k]->Failed_context_key + "': "@
                + s[k]->Failed_reason;
            let j = choose|j: int|
                0 <= j < failure_lines(front).len() && failure_lines(front)[j] == line;
            assert(failure_lines(s)[j] == line);
        }
    } else if s[k] is Updated {
        assert(success_lines(s).last() == "\u{2713} Updated '"@ + s[k]->Updated_context_key
            + "'"@);
    } else {
        assert(failure_lines(s).last() == "\u{2717} Failed '"@ + s[k]->Failed_context_key + "': "@
            + s[k]->Failed_reason);
    }
}

proof fn lemma_summary_holds(s: Seq<OutcomeView>, k: int)
    requires
        0 <= k < s.len(),
    ensures
        s[k] is Updated ==> holds(
            crate::text::joined(summary_lines(s), "\n"@),
            "\u{2713} Updated '"@ + s[k]->Updated_context_key + "'"@,
        ),
        s[k] is Failed ==> holds(
            crate::text::joined(summary_lines(s), "\n"@),
            "\u{2717} Failed '"@ + s[k]->Failed_context_key + "': "@,
        ),
{
    lemma_success_line(s, k);
    let lines = summary_lines(s);
    let text = crate::text::joined(lines, "\n"@);
    let good = success_lines(s);
    let bad = failure_lines(s);
    let a = 1 + if good.len() > 0 {
        good.len() + 1
    } else {
        0
    };
    if s[k] is Updated {
        let line = "\u{2713} Updated '"@ + s[k]->Updated_context_key + "'"@;
        let j = choose|j: int| 0 <= j < good.len() && good[j] == line;
        assert(lines[2 + j] == line);
        crate::text_laws::joined_texts_hold_every_part(lines, "\n"@, 2 + j);
    } else {
        let head = "\u{2717} Failed '"@ + s[k]->Failed_context_key + "': "@;
        let line = head + s[k]->Failed_reason;
        let j = choose|j: int| 0 <= j < bad.len() && bad[j] == line;
        assert(lines[a + 1 + j] == line);
        crate::text_laws::joined_texts_hold_every_part(lines, "\n"@, a + 1 + j);
        let none = Seq::<char>::empty();
        crate::text_laws::sums_hold_their_parts(none, head, s[k]->Failed_reason);
        assert(none + head + s[k]->Failed_reason =~= line);
        crate::text_laws::parts_of_parts_are_held(text, line, head);
    }
}

/// No update of a batch is passed over: before the batch ends well, every update
/// that has a key and a value was written, and the answer says of it that it was
/// updated, or that it failed where the store failed.
pub proof fn every_update_of_a_batch_is_written(
    c: CallView,
    updates: Seq<JsonView>,
    h: Seq<EventView>,
    k: int,
) -> (n: int)
    requires
        0 <= k < updates.len(),
        field(updates[k], "context_value"@) is Some,
        text_field(updates[k], "context_key"@) is Some,
        batch_next(c, updates, h) is Finish,
        batch_next(c, updates, h)->Finish_0 is Success,
    ensures
        0 <= n < h.len(),
        stores(batch_next(c, updates, h.subrange(0, n)), updates[k], c),
        batch_next(c, updates, h)->Finish_0->Success_message is Some,
        !is_failure(h[n]) ==> holds(
            batch_next(c, updates, h)->Finish_0->Success_message->0,
            "\u{2713} Updated '"@ + text_field(updates[k], "context_key"@)->0 + "'"@,
        ),
        is_failure(h[n]) ==> holds(
            batch_next(c, updates, h)->Finish_0->Success_message->0,
            "\u{2717} Failed '"@ + text_field(updates[k], "context_key"@)->0 + "': "@,
        ),
{
    let keys = batch_keys(updates);
    let admin = is_operator(c.principal);
    lemma_refusals_are_no_success(writer(c), keys, 0, admin, h, 0);
    let gate = authorize_from(writer(c), keys, 0, admin, h, 0);
    assert(gate is Open);
    let m = gate->Open_0;
    lemma_gate_shrinks(writer(c), keys, 0, admin, h, 0);
    let r = lemma_batch_reaches(c, updates, 0, h, m, Seq::empty(), k);
    lemma_summary_holds(r.1, k);
    assert(authorize_from(writer(c), keys, 0, admin, h.subrange(0, r.0), 0) == GateView::Open(m));
    r.0
}

proof fn lemma_refusals_are_no_success(
    actor: Seq<char>,
    keys: Seq<Seq<char>>,
    i: int,
    admin: bool,
    h: Seq<EventView>,
    at: int,
)
    requires
        0 <= i,
    ensures
        authorize_from(actor, keys, i, admin, h, at) is Refused ==> !(authorize_from(
            actor,
            keys,
            i,
            admin,
            h,
            at,
        )->Refused_0 is Success),
        authorize_from(actor, keys, i, admin, h, at) is Ask ==> authorize_from(
            actor,
            keys,
            i,
            admin,
            h,
            at,
        )->Ask_0 is GetContext,
    decreases keys.len() - i,
{
    if i < keys.len() {
        match crate::context_writing::authorize(actor, keys[i], admin, h, at) {
            GateView::Open(n) => lemma_refusals_are_no_success(actor, keys, i + 1, admin, h, n),
            _ => {},
        }
    }
}

proof fn lemma_batch_wakes(
    c: CallView,
    updates: Seq<JsonView>,
    i: int,
    h: Seq<EventView>,
    at: int,
    so_far: Seq<OutcomeView>,
) -> (n: int)
    requires
        0 <= i <= updates.len(),
        0 <= at,
        apply_from(c, updates, i, h, at, so_far) is Finish,
    ensures
        at <= n < h.len(),
        apply_from(c, updates, i, h.subrange(0, n), at, so_far) == (ActionView::DeliverWakes {
            context_keys: batch_keys(updates),
            bulk: true,
        }),
        ({
            let r = apply_from(c, updates, i, h, at, so_far)->Finish_0;
            let data = r->Success_data->0;
            &&& r is Success && r->Success_data is Some
            &&& field(data, "updates_attempted"@) == Some(int_json(updates.len() as int))
            &&& h[n] matches EventView::Texts(woken) ==> field(data, "wakes"@) == Some(
                crate::json::texts_json(woken),
            )
        }),
    decreases updates.len() - i,
{
    reveal_strlit("updates_attempted");
    reveal_strlit("summary_lines");
    reveal_strlit("wakes");
    assert("updates_attempted"@.len() == 17);
    assert("summary_lines"@.len() == 13);
    assert("wakes"@.len() == 5);
    if i >= updates.len() {
        assert(h.subrange(0, at).len() == at);
        at
    } else {
        let key = batch_key(updates[i]);
        let next = match item_problem(updates[i]) {
            Some(reason) => so_far.push(OutcomeView::Failed { context_key: key, reason }),
            None => if is_failure(h[at]) {
                so_far.push(OutcomeView::Failed { context_key: key, reason: "database error"@ })
            } else {
                so_far.push(OutcomeView::Updated { context_key: key })
            },
        };
        let then = match item_problem(updates[i]) {
            Some(reason) => at,
            None => if is_failure(h[at]) {
                at + 1
            } else {
                at + 2
            },
        };
        let n = lemma_batch_wakes(c, updates, i + 1, h, then, next);
        let g = h.subrange(0, n);
        if item_problem(updates[i]) is None {
            assert(g[at] == h[at]);
        }
        n
    }
}

/// A batch that ends well has woken those whom its keys concern, all at once, and
/// says how many updates it was given and who was woken.
pub proof fn batches_end_with_a_wake(c: CallView, updates: Seq<JsonView>, h: Seq<EventView>) -> (n:
    int)
    requires
        batch_next(c, updates, h) is Finish,
        batch_next(c, updates, h)->Finish_0 is Success,
    ensures
        0 <= n < h.len(),
        batch_next(c, updates, h.subrange(0, n)) == (ActionView::DeliverWakes {
            context_keys: batch_keys(updates),
            bulk: true,
        }),
        ({
            let r = batch_next(c, updates, h)->Finish_0;
            let data = r->Success_data->0;
            &&& r->Success_data is Some
            &&& field(data, "updates_attempted"@) == Some(int_json(updates.len() as int))
            &&& h[n] matches EventView::Texts(woken) ==> field(data, "wakes"@) == Some(
                crate::json::texts_json(woken),
            )
        }),
{
    let keys = batch_keys(updates);
    let admin = is_operator(c.principal);
    lemma_refusals_are_no_success(writer(c), keys, 0, admin, h, 0);
    let m = authorize_from(writer(c), keys, 0, admin, h, 0)->Open_0;
    lemma_gate_shrinks(writer(c), keys, 0, admin, h, 0);
    let n = lemma_batch_wakes(c, updates, 0, h, m, Seq::empty());
    assert(authorize_from(writer(c), keys, 0, admin, h.subrange(0, n), 0) == GateView::Open(m));
    n
}

/// Both tools run the batch that the call lists: `update_project_context` any
/// list that is not empty, `bulk_update_project_context` one whose updates all
/// have a key and a value. An update that lacks one refuses the whole batch
/// there, whatever has happened.
pub proof fn batches_are_run_as_listed(
    c: CallView,
    updates: Seq<JsonView>,
    h: Seq<EventView>,
    k: int,
)
    requires
        list_field(c.arguments, "updates"@) == Some(updates),
        0 <= k < updates.len(),
    ensures
        update_project_context_next(c, h) == batch_next(c, updates, h),
        !(updates[k] is Object) || field(updates[k], "context_key"@) is None || field(
            updates[k],
            "context_value"@,
        ) is None ==> (bulk_update_project_context_next(c, h) matches ActionView::Finish(
            ResultView::Invalid { .. },
        )),
        (forall|i: int|
            0 <= i < updates.len() ==> (#[trigger] updates[i] is Object) && field(
                updates[i],
                "context_key"@,
            ) is Some && field(updates[i], "context_value"@) is Some)
            ==> bulk_update_project_context_next(c, h) == batch_next(c, updates, h),
{
    if !(updates[k] is Object) || field(updates[k], "context_key"@) is None || field(
        updates[k],
        "context_value"@,
    ) is None {
        lemma_bad_shape(updates, updates.len() as int, k);
    }
    if forall|i: int|
        0 <= i < updates.len() ==> (#[trigger] updates[i] is Object) && field(
            updates[i],
            "context_key"@,
        ) is Some && field(updates[i], "context_value"@) is Some {
        lemma_good_shape(updates, updates.len() as int);
    }
}

proof fn lemma_bad_shape(updates: Seq<JsonView>, n: int, k: int)
    requires
        0 <= k < n <= updates.len(),
        !(updates[k] is Object) || field(updates[k], "context_key"@) is None || field(
            updates[k],
            "context_value"@,
        ) is None,
    ensures
        first_shape_problem(updates, n) is Some,
        first_shape_problem(updates, n)->0 is Invalid,
    decreases n,
{
    if k < n - 1 {
        lemma_bad_shape(updates, n - 1, k);
    } else {
        lemma_shape_invalid(updates, n - 1);
    }
}

proof fn lemma_shape_invalid(updates: Seq<JsonView>, n: int)
    ensures
        first_shape_problem(updates, n) is Some ==> first_shape_problem(updates, n)->0 is Invalid,
    decreases n,
{
    if 0 < n <= updates.len() {
        lemma_shape_invalid(updates, n - 1);
    }
}

proof fn lemma_good_shape(updates: Seq<JsonView>, n: int)
    requires
        0 <= n <= updates.len(),
        forall|i: int|
            0 <= i < updates.len() ==> (#[trigger] updates[i] is Object) && field(
                updates[i],
                "context_key"@,
            ) is Some && field(updates[i], "context_value"@) is Some,
    ensures
        first_shape_problem(updates, n) is None,
    decreases n,
{
    if n > 0 {
        lemma_good_shape(updates, n - 1);
        assert(updates[n - 1] is Object);
    }
}

/// A batch asks for and wakes the keys that its updates name, all of them and no
/// others.
pub proof fn batches_name_the_keys_of_their_updates(updates: Seq<JsonView>, key: Seq<char>)
    ensures
        batch_keys(updates).contains(key) <==> exists|i: int|
            0 <= i < updates.len() && text_field(#[trigger] updates[i], "context_key"@) == Some(
                key,
            ),
    decreases updates.len(),
{
    if updates.len() > 0 {
        let front = updates.drop_last();
        let all = batch_keys(updates);
        let some = batch_keys(front);
        batches_name_the_keys_of_their_updates(front, key);
        if all.contains(key) {
            let j = choose|j: int| 0 <= j < all.len() && all[j] == key;
            if j < some.len() {
                assert(some[j] == key);
                let i = choose|i: int|
                    0 <= i < front.len() && text_field(#[trigger] front[i], "context_key"@) == Some(
                        key,
                    );
                assert(updates[i] == front[i]);
            } else {
                assert(updates[updates.len() - 1] == updates.last());
            }
        }
        if exists|i: int|
            0 <= i < updates.len() && text_field(#[trigger] updates[i], "context_key"@) == Some(
                key,
            ) {
            let i = choose|i: int|
                0 <= i < updates.len() && text_field(#[trigger] updates[i], "context_key"@) == Some(
                    key,
                );
            if i < front.len() {
                assert(front[i] == updates[i]);
                let j = choose|j: int| 0 <= j < some.len() && some[j] == key;
                assert(all[j] == key);
            } else {
                assert(all.last() == key);
            }
        }
    }
}

} // verus!

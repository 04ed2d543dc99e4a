//! The tool that deletes entries of the project context.

use crate::admin_tools::{is_true, text_or};
use crate::agent_communication_tools::{nonempty, nonempty_field};
use crate::context_health::{is_config, is_config_key};
use crate::context_writing::{
    allowed_keys_were_looked_up, authorize_from, check_all, config_key_error, config_refusal,
    is_admin, leaves_it_to, lemma_gates_never_write, texts_in, wakes_json, writer, Gate, GateView,
};
use crate::json::{
    bool_field, int_json, jlen, jtexts, lemma_list_view, list_field, list_view, text_in,
    texts_json, Fields, Json, JsonView,
};
use crate::principal::{actor_label, is_operator};
use crate::protocol::{
    context_rows, db_error, db_error_text, done, done_view, events, failed_view, invalid,
    invalid_view, not_found, not_found_view, Action, ActionView, Call, CallView, ContextRow,
    ContextRowView, Event, EventView,
};
use crate::text::{
    add_line, begins_with, cat2, cat3, chars_of, decimal, join, joined, list_has, no_lines, own,
    quote, quoted, same, show_usize, starts_with, text_of, texts,
};
use vstd::prelude::*;

verus! {

// ---------------------------------------------------------------------
// Critical keys
// ---------------------------------------------------------------------

/// What stands in front of the first underscore.
pub open spec fn before_underscore(s: Seq<char>) -> Seq<char>
    decreases s.len(),
{
    if s.len() == 0 || s[0] == '_' {
        Seq::empty()
    } else {
        seq![s[0]] + before_underscore(s.subrange(1, s.len() as int))
    }
}

/// Whether a key falls under a pattern: it is the pattern, or begins as the
/// pattern does up to and with its first underscore.
pub open spec fn falls_under(key: Seq<char>, pattern: Seq<char>) -> bool {
    begins_with(key, before_underscore(pattern) + "_"@) || key == pattern
}

/// Whether `key` falls under `pattern`.
pub fn critical_key_match(key: &str, pattern: &str) -> (r: bool)
    ensures
        r == falls_under(key@, pattern@),
{
    let v: Vec<char> = chars_of(pattern);
    let mut i: usize = 0;
    proof {
        assert(v@.subrange(0, v@.len() as int) =~= v@);
        assert(v@.subrange(0, 0) + before_underscore(v@) =~= before_underscore(v@));
    }
    while i < v.len() && v[i] != '_'
        invariant
            i <= v@.len(),
            before_underscore(v@) == v@.subrange(0, i as int) + before_underscore(
                v@.subrange(i as int, v@.len() as int),
            ),
        decreases v@.len() - i,
    {
        proof {
            let rest = v@.subrange(i as int, v@.len() as int);
            assert(rest.subrange(1, rest.len() as int) =~= v@.subrange(i + 1, v@.len() as int));
            assert(v@.subrange(0, i as int) + (seq![v@[i as int]] + before_underscore(
                v@.subrange(i + 1, v@.len() as int),
            )) =~= v@.subrange(0, i + 1) + before_underscore(
                v@.subrange(i + 1, v@.len() as int),
            ));
        }
        i = i + 1;
    }
    proof {
        assert(v@.subrange(0, i as int) + Seq::<char>::empty() =~= v@.subrange(0, i as int));
    }
    let head: String = text_of(&v, 0, i);
    let prefix: String = cat2(head.as_str(), "_");
    starts_with(key, prefix.as_str()) || same(key, pattern)
}

/// Whether the system depends on an entry.
pub open spec fn is_critical(key: Seq<char>) -> bool {
    falls_under(key, "server_startup"@) || falls_under(key, "database_version"@) || falls_under(
        key,
        "system_config"@,
    ) || falls_under(key, "mcp_server_url"@)
}

/// Whether the system depends on the entry under `key`.
pub fn critical_key(key: &str) -> (r: bool)
    ensures
        r == is_critical(key@),
{
    critical_key_match(key, "server_startup") || critical_key_match(key, "database_version")
        || critical_key_match(key, "system_config") || critical_key_match(key, "mcp_server_url")
}

/// The critical ones among keys.
pub open spec fn critical_among(keys: Seq<Seq<char>>) -> Seq<Seq<char>>
    decreases keys.len(),
{
    if keys.len() == 0 {
        Seq::empty()
    } else if is_critical(keys.last()) {
        critical_among(keys.drop_last()).push(keys.last())
    } else {
        critical_among(keys.drop_last())
    }
}

fn find_critical(keys: &Vec<String>) -> (r: Vec<String>)
    ensures
        texts(r@) == critical_among(texts(keys@)),
{
    let mut out: Vec<String> = no_lines();
    let ghost all = texts(keys@);
    let mut i: usize = 0;
    while i < keys.len()
        invariant
            all == texts(keys@),
            i <= keys@.len(),
            texts(out@) == critical_among(all.subrange(0, i as int)),
        decreases keys@.len() - i,
    {
        proof {
            let here = all.subrange(0, i + 1);
            assert(here.drop_last() =~= all.subrange(0, i as int));
            assert(here.last() == keys@[i as int]@);
        }
        if critical_key(keys[i].as_str()) {
            add_line(&mut out, own(keys[i].as_str()));
        }
        i = i + 1;
    }
    proof {
        assert(all.subrange(0, all.len() as int) =~= all);
    }
    out
}

// ---------------------------------------------------------------------
// Which keys
// ---------------------------------------------------------------------

/// The texts of a list; what is no text is left out.
pub open spec fn texts_among(v: Seq<JsonView>) -> Seq<Seq<char>>
    decreases v.len(),
{
    if v.len() == 0 {
        Seq::empty()
    } else {
        match text_in(Some(v.last())) {
            Some(s) => texts_among(v.drop_last()).push(s),
            None => texts_among(v.drop_last()),
        }
    }
}

/// The keys that a call names: one, and a list of more.
pub open spec fn named_keys(args: JsonView) -> Seq<Seq<char>> {
    (match nonempty_field(args, "context_key"@) {
        Some(k) => seq![k],
        None => Seq::empty(),
    }) + (match list_field(args, "context_keys"@) {
        Some(v) => texts_among(v),
        None => Seq::empty(),
    })
}

fn keys_to_delete(args: &Json) -> (r: Vec<String>)
    ensures
        texts(r@) == named_keys(args@),
{
    let mut out: Vec<String> = no_lines();
    match nonempty(args, "context_key") {
        Some(k) => {
            add_line(&mut out, own(k));
            proof {
                assert(texts(out@) =~= seq![k@]);
            }
        },
        None => {},
    }
    let ghost first = texts(out@);
    match args.list_at("context_keys") {
        Some(v) => {
            let ghost all = list_view(v@);
            proof {
                lemma_list_view(v@);
                assert(texts(out@) =~= first + texts_among(all.subrange(0, 0)));
            }
            let mut i: usize = 0;
            while i < v.len()
                invariant
                    all == list_view(v@),
                    all.len() == v@.len(),
                    forall|k: int| 0 <= k < v@.len() ==> #[trigger] all[k] == v@[k]@,
                    i <= v@.len(),
                    texts(out@) == first + texts_among(all.subrange(0, i as int)),
                decreases v@.len() - i,
            {
                proof {
                    let here = all.subrange(0, i + 1);
                    assert(here.drop_last() =~= all.subrange(0, i as int));
                    assert(here.last() == v@[i as int]@);
                }
                match v[i].as_str() {
                    Some(s) => {
                        add_line(&mut out, own(s));
                        proof {
                            let x = texts_among(all.subrange(0, i as int));
                            assert((first + x).push(s@) =~= first + x.push(s@));
                        }
                    },
                    None => {},
                }
                i = i + 1;
            }
            proof {
                assert(all.subrange(0, all.len() as int) =~= all);
            }
        },
        None => {
            proof {
                assert(texts(out@) =~= first + Seq::<Seq<char>>::empty());
            }
        },
    }
    out
}

/// Whether a key of the settings is among keys.
pub open spec fn any_config(keys: Seq<Seq<char>>) -> bool {
    exists|i: int| 0 <= i < keys.len() && is_config(#[trigger] keys[i])
}

fn has_config(keys: &Vec<String>) -> (r: bool)
    ensures
        r == any_config(texts(keys@)),
{
    let mut i: usize = 0;
    while i < keys.len()
        invariant
            i <= keys@.len(),
            forall|k: int| 0 <= k < i ==> !is_config(#[trigger] texts(keys@)[k]),
        decreases keys@.len() - i,
    {
        if is_config_key(keys[i].as_str()) {
            proof {
                assert(is_config(texts(keys@)[i as int]));
            }
            return true;
        }
        i = i + 1;
    }
    false
}

// ---------------------------------------------------------------------
// The message
// ---------------------------------------------------------------------

/// Keys in the form `["a", "b"]`.
pub open spec fn quoted_list(keys: Seq<Seq<char>>) -> Seq<char> {
    "["@ + joined(keys.map_values(|k: Seq<char>| quoted(k)), ", "@) + "]"@
}

fn quote_list(keys: &Vec<String>) -> (r: String)
    ensures
        r@ == quoted_list(texts(keys@)),
{
    let mut out: Vec<String> = no_lines();
    let ghost all = texts(keys@).map_values(|k: Seq<char>| quoted(k));
    let mut i: usize = 0;
    proof {
        assert(texts(out@) =~= all.subrange(0, 0));
    }
    while i < keys.len()
        invariant
            all == texts(keys@).map_values(|k: Seq<char>| quoted(k)),
            i <= keys@.len(),
            texts(out@) == all.subrange(0, i as int),
        decreases keys@.len() - i,
    {
        add_line(&mut out, quote(keys[i].as_str()));
        i = i + 1;
        proof {
            assert(texts(out@) =~= all.subrange(0, i as int));
        }
    }
    proof {
        assert(all.subrange(0, all.len() as int) =~= all);
    }
    let list: String = join(&out, ", ");
    cat3("[", list.as_str(), "]")
}

/// The line on one deleted entry.
pub open spec fn deleted_line(row: ContextRowView, critical: Seq<Seq<char>>) -> Seq<char> {
    let description = text_or(row.description, ""@);
    "  \u{2022} "@ + row.context_key + (if description.len() > 0 {
        " ("@ + description + ")"@
    } else {
        ""@
    }) + (if critical.contains(row.context_key) {
        " [CRITICAL]"@
    } else {
        ""@
    })
}

/// The lines on deleted entries.
pub open spec fn deleted_lines(
    rows: Seq<ContextRowView>,
    critical: Seq<Seq<char>>,
) -> Seq<Seq<char>> {
    rows.map_values(|r: ContextRowView| deleted_line(r, critical))
}

/// The lines of the message.
pub open spec fn deletion_lines(
    rows: Seq<ContextRowView>,
    critical: Seq<Seq<char>>,
    now: Seq<char>,
) -> Seq<Seq<char>> {
    let a = seq![
        "Deleted "@ + decimal(rows.len()) + " project context entries successfully:"@,
    ] + deleted_lines(rows, critical);
    let b = if critical.len() > 0 {
        a.push(
            "\n\u{26a0}\u{fe0f}  WARNING: "@ + decimal(critical.len())
                + " critical system keys were deleted!"@,
        ).push("System functionality may be affected. Consider backing up before restart."@)
    } else {
        a
    };
    b.push("\nDeletion completed at: "@ + now)
}

fn line_of(row: &ContextRow, critical: &Vec<String>) -> (r: String)
    ensures
        r@ == deleted_line(row@, texts(critical@)),
{
    let start: String = cat2("  \u{2022} ", row.context_key.as_str());
    let middle: String = match &row.description {
        Some(d) => if d.as_str().is_empty() {
            own("")
        } else {
            cat3(" (", d.as_str(), ")")
        },
        None => own(""),
    };
    proof {
        reveal_strlit("");
    }
    if list_has(critical, row.context_key.as_str()) {
        cat3(start.as_str(), middle.as_str(), " [CRITICAL]")
    } else {
        cat3(start.as_str(), middle.as_str(), "")
    }
}

fn deletion_message(rows: &Vec<ContextRow>, critical: &Vec<String>, now: &str) -> (r: String)
    ensures
        r@ == joined(deletion_lines(context_rows(rows@), texts(critical@), now@), "\n"@),
{
    let count: String = show_usize(rows.len());
    let mut parts: Vec<String> = no_lines();
    add_line(
        &mut parts,
        cat3("Deleted ", count.as_str(), " project context entries successfully:"),
    );
    let ghost head = seq![
        "Deleted "@ + decimal(rows@.len()) + " project context entries successfully:"@,
    ];
    let ghost all = deleted_lines(context_rows(rows@), texts(critical@));
    proof {
        assert(texts(parts@) =~= head + all.subrange(0, 0));
    }
    let mut i: usize = 0;
    while i < rows.len()
        invariant
            all == deleted_lines(context_rows(rows@), texts(critical@)),
            i <= rows@.len(),
            texts(parts@) == head + all.subrange(0, i as int),
        decreases rows@.len() - i,
    {
        add_line(&mut parts, line_of(&rows[i], critical));
        i = i + 1;
        proof {
            assert(texts(parts@) =~= head + all.subrange(0, i as int));
        }
    }
    proof {
        assert(all.subrange(0, all.len() as int) =~= all);
        assert(texts(critical@).len() == critical@.len());
    }
    if critical.len() > 0 {
        let n: String = show_usize(critical.len());
        add_line(
            &mut parts,
            cat3(
                "\n\u{26a0}\u{fe0f}  WARNING: ",
                n.as_str(),
                " critical system keys were deleted!",
            ),
        );
        add_line(
            &mut parts,
            own("System functionality may be affected. Consider backing up before restart."),
        );
    }
    add_line(&mut parts, cat2("\nDeletion completed at: ", now));
    join(&parts, "\n")
}

/// The keys of entries.
pub open spec fn row_keys(rows: Seq<ContextRowView>) -> Seq<Seq<char>> {
    rows.map_values(|r: ContextRowView| r.context_key)
}

fn keys_of_rows(rows: &Vec<ContextRow>) -> (r: Vec<String>)
    ensures
        texts(r@) == row_keys(context_rows(rows@)),
{
    let mut out: Vec<String> = no_lines();
    let mut i: usize = 0;
    let ghost all = row_keys(context_rows(rows@));
    proof {
        assert(texts(out@) =~= all.subrange(0, 0));
    }
    while i < rows.len()
        invariant
            all == row_keys(context_rows(rows@)),
            i <= rows@.len(),
            texts(out@) == all.subrange(0, i as int),
        decreases rows@.len() - i,
    {
        add_line(&mut out, own(rows[i].context_key.as_str()));
        i = i + 1;
        proof {
            assert(texts(out@) =~= all.subrange(0, i as int));
        }
    }
    proof {
        assert(all.subrange(0, all.len() as int) =~= all);
    }
    out
}

// ---------------------------------------------------------------------
// delete_project_context
// ---------------------------------------------------------------------

/// Whether critical entries may go.
pub open spec fn forced(args: JsonView) -> bool {
    bool_field(args, "force_delete"@) == Some(true)
}

/// The part of `delete_project_context` that follows the deletion of `rows`,
/// which event `at` answered: write the audit line, drop what was indexed of
/// each entry, wake whom it concerns.
pub open spec fn after_deletion(
    c: CallView,
    rows: Seq<ContextRowView>,
    h: Seq<EventView>,
    at: int,
) -> ActionView {
    let critical = critical_among(named_keys(c.arguments));
    let force = forced(c.arguments);
    let k = h.len() - at - 1;
    let rest = k - 1 - rows.len();
    if k <= 0 {
        ActionView::LogAction {
            agent_id: writer(c),
            action_type: "deleted_context"@,
            task_id: None,
            details: JsonView::Object(
                map![
                "deleted_keys"@ => texts_json(row_keys(rows)),
                "critical_keys_deleted"@ => texts_json(critical),
                "force_delete"@ => JsonView::Bool(force),
                "total_deleted"@ => int_json(rows.len() as int)
            ],
            ),
            timestamp: c.now,
        }
    } else if rest < 0 {
        ActionView::PurgeSource { context_key: rows[k - 1].context_key }
    } else if rest == 0 {
        ActionView::DeliverWakes { context_keys: row_keys(rows), bulk: true }
    } else {
        done_view(
            JsonView::Object(
                map![
                "deleted_count"@ => int_json(rows.len() as int),
                "deleted_keys"@ => texts_json(row_keys(rows)),
                "critical_keys_deleted"@ => texts_json(critical),
                "force_delete"@ => JsonView::Bool(force),
                "wakes"@ => texts_json(texts_in(h[at + 2 + rows.len()]))
            ],
            ),
            joined(deletion_lines(rows, critical, c.now), "\n"@),
        )
    }
}

/// The dialogue of `delete_project_context`: keys of the settings are refused
/// first, then critical ones unless they are forced, then the writer is
/// checked for every key; only then anything is deleted.
pub open spec fn delete_project_context_next(c: CallView, h: Seq<EventView>) -> ActionView {
    let keys = named_keys(c.arguments);
    let critical = critical_among(keys);
    if keys.len() == 0 {
        invalid_view(Some("context_key"@), "No context keys specified for deletion"@)
    } else if any_config(keys) {
        ActionView::Finish(config_refusal())
    } else if critical.len() > 0 && !forced(c.arguments) {
        invalid_view(
            Some("force_delete"@),
            "Cannot delete critical system keys without force_delete=true: "@ + quoted_list(
                critical,
            ),
        )
    } else {
        match authorize_from(writer(c), keys, 0, is_operator(c.principal), h, 0) {
            GateView::Ask(a) => a,
            GateView::Refused(r) => ActionView::Finish(r),
            GateView::Open(n) => if h.len() == n {
                ActionView::DeleteContexts { context_keys: keys }
            } else {
                match h[n] {
                    EventView::Contexts(rows) => if rows.len() == 0 {
                        not_found_view("project_context"@, joined(keys, ", "@))
                    } else {
                        after_deletion(c, rows, h, n)
                    },
                    _ => failed_view(db_error_text()),
                }
            },
        }
    }
}

/// Nothing is deleted unless every key of the call was allowed: none belongs
/// to the settings, none is critical unless the call forces it, and where the
/// caller is no operator, each was looked up in this call, and is gone already
/// or the caller's own.
pub proof fn deletions_are_allowed(c: CallView, h: Seq<EventView>)
    requires
        delete_project_context_next(c, h) is DeleteContexts,
    ensures
        ({
            let keys = named_keys(c.arguments);
            &&& authorize_from(writer(c), keys, 0, is_operator(c.principal), h, 0) is Open
            &&& forall|k: int|
                0 <= k < keys.len() ==> !is_config(#[trigger] keys[k]) && (is_critical(keys[k])
                    ==> forced(c.arguments))
            &&& is_operator(c.principal) || forall|k: int|
                #![trigger keys[k]]
                0 <= k < keys.len() ==> exists|j: int|
                    0 <= j < h.len() && leaves_it_to(h[j], writer(c))
                        && #[trigger] delete_project_context_next(c, h.subrange(0, j)) == (
                    ActionView::GetContext { context_key: keys[k] })
        }),
{
    let keys = named_keys(c.arguments);
    lemma_gates_never_write(
        writer(c),
        keys,
        0,
        is_operator(c.principal),
        h,
        0,
    );
    assert forall|k: int| 0 <= k < keys.len() implies !is_config(#[trigger] keys[k]) && (
    is_critical(keys[k]) ==> forced(c.arguments)) by {
        if is_critical(keys[k]) {
            lemma_critical_found(keys, k);
        }
    }
    if !is_operator(c.principal) {
        assert forall|k: int| #![trigger keys[k]] 0 <= k < keys.len() implies exists|j: int|
            0 <= j < h.len() && leaves_it_to(h[j], writer(c)) && #[trigger] delete_project_context_next(
                c,
                h.subrange(0, j),
            ) == (ActionView::GetContext { context_key: keys[k] }) by {
            let j = allowed_keys_were_looked_up(writer(c), keys, 0, h, 0, k);
            assert(delete_project_context_next(c, h.subrange(0, j)) == (ActionView::GetContext {
                context_key: keys[k],
            }));
        }
    }
}

proof fn lemma_critical_found(keys: Seq<Seq<char>>, k: int)
    requires
        0 <= k < keys.len(),
        is_critical(keys[k]),
    ensures
        critical_among(keys).len() > 0,
    decreases keys.len(),
{
    if k < keys.len() - 1 {
        assert(keys.drop_last()[k] == keys[k]);
        lemma_critical_found(keys.drop_last(), k);
    }
}

/// `delete_project_context`: deletes entries.
pub struct DeleteProjectContextTool;

impl DeleteProjectContextTool {
    fn after(
        call: &Call,
        rows: &Vec<ContextRow>,
        critical: &Vec<String>,
        force: bool,
        history: &Vec<Event>,
        at: usize,
    ) -> (r: Action)
        requires
            at < history@.len(),
            texts(critical@) == critical_among(named_keys(call@.arguments)),
            force == forced(call@.arguments),
        ensures
            r@ == after_deletion(call@, context_rows(rows@), events(history@), at as int),
    {
        let k: usize = history.len() - at - 1;
        let keys: Vec<String> = keys_of_rows(rows);
        if k == 0 {
            let mut f: Fields = Fields::new();
            f.put("deleted_keys", jtexts(&keys));
            f.put("critical_keys_deleted", jtexts(critical));
            f.put("force_delete", Json::Bool(force));
            f.put("total_deleted", jlen(rows.len()));
            return Action::LogAction {
                agent_id: own(actor_label(call.caller(), "unknown")),
                action_type: own("deleted_context"),
                task_id: None,
                details: f.done(),
                timestamp: own(call.now.as_str()),
            };
        }
        if k - 1 < rows.len() {
            return Action::PurgeSource { context_key: own(rows[k - 1].context_key.as_str()) };
        }
        if k - 1 == rows.len() {
            return Action::DeliverWakes { context_keys: keys, bulk: true };
        }
        let mut f: Fields = Fields::new();
        f.put("deleted_count", jlen(rows.len()));
        f.put("deleted_keys", jtexts(&keys));
        f.put("critical_keys_deleted", jtexts(critical));
        f.put("force_delete", Json::Bool(force));
        f.put("wakes", wakes_json(&history[at + 2 + rows.len()]));
        done(f.done(), deletion_message(rows, critical, call.now.as_str()))
    }

    /// What to do after `history`.
    pub fn next(call: &Call, history: &Vec<Event>) -> (r: Action)
        ensures
            r@ == delete_project_context_next(call@, events(history@)),
    {
        let keys: Vec<String> = keys_to_delete(&call.arguments);
        proof {
            assert(texts(keys@).len() == keys@.len());
        }
        if keys.len() == 0 {
            return invalid("context_key", "No context keys specified for deletion");
        }
        let force: bool = is_true(call.arguments.flag_at("force_delete"));
        if has_config(&keys) {
            return Action::Finish(config_key_error());
        }
        let critical: Vec<String> = find_critical(&keys);
        proof {
            assert(texts(critical@).len() == critical@.len());
        }
        if critical.len() > 0 && !force {
            let list: String = quote_list(&critical);
            let m: String = cat2(
                "Cannot delete critical system keys without force_delete=true: ",
                list.as_str(),
            );
            return invalid("force_delete", m.as_str());
        }
        let actor: &str = actor_label(call.caller(), "unknown");
        match check_all(actor, &keys, is_admin(call), history) {
            Gate::Ask(a) => a,
            Gate::Refused(r) => Action::Finish(r),
            Gate::Open(n) => {
                if history.len() == n {
                    return Action::DeleteContexts { context_keys: keys };
                }
                match &history[n] {
                    Event::Contexts(rows) => {
                        if rows.len() == 0 {
                            let list: String = join(&keys, ", ");
                            return not_found("project_context", list.as_str());
                        }
                        DeleteProjectContextTool::after(call, rows, &critical, force, history, n)
                    },
                    _ => db_error(),
                }
            },
        }
    }
}

} // verus!

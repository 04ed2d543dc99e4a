//! What the tools of the project context give back, and what they store.

use crate::context_backup::{backup_project_context_next, inside};
use crate::context_deletion::{
    critical_among, delete_project_context_next, falls_under, is_critical, named_keys,
    texts_among,
};
use crate::context_health::{days_since, is_config, is_large, is_stale, nanos};
use crate::json::{
    bool_field, field, int_field, int_json, json_read, list_field, pretty_text, text_field,
    JsonView,
};
use crate::principal::is_operator;
use crate::project_context_tools::{
    chosen, put_in, shown_rows, shown_rows_are_sorted_and_wanted, stands_before,
    view_project_context_next, view_wish, wanted, well_sorted,
};
use crate::protocol::{ActionView, CallView, ContextRowView, EventView, ResultView, Stamp};
use crate::text::{begins_with, holds, text_before};
use vstd::prelude::*;

verus! {

/// Whether a call of `view_project_context` asks for no entry by its key: it
/// names none, or the empty one.
pub open spec fn names_no_key(args: JsonView) -> bool {
    text_field(args, "context_key"@) is None || text_field(args, "context_key"@)->0.len() == 0
}

/// Whether a call of `view_project_context` searches for nothing.
pub open spec fn searches_nothing(args: JsonView) -> bool {
    text_field(args, "search_query"@) is None || text_field(args, "search_query"@)->0.len() == 0
}

proof fn lemma_chosen_holds(
    rows: Seq<ContextRowView>,
    w: crate::project_context_tools::WishView,
    now: Stamp,
    e: ContextRowView,
)
    ensures
        chosen(rows, w, now).contains(e) <==> rows.contains(e) && wanted(e, w, now),
    decreases rows.len(),
{
    if rows.len() > 0 {
        let front = rows.drop_last();
        lemma_chosen_holds(front, w, now, e);
        let c = chosen(front, w, now);
        if rows.contains(e) {
            let i = choose|i: int| 0 <= i < rows.len() && rows[i] == e;
            if i < front.len() {
                assert(front[i] == e);
            }
        }
        if front.contains(e) {
            let i = choose|i: int| 0 <= i < front.len() && front[i] == e;
            assert(rows[i] == e);
        }
        if wanted(rows.last(), w, now) {
            lemma_put_in_holds(w.sort_by, c, rows.last(), e);
            assert(rows[rows.len() - 1] == rows.last());
        }
    }
}

proof fn lemma_put_in_holds(
    sort: Seq<char>,
    s: Seq<ContextRowView>,
    x: ContextRowView,
    e: ContextRowView,
)
    ensures
        put_in(sort, s, x).contains(e) <==> s.contains(e) || e == x,
    decreases s.len(),
{
    let p = put_in(sort, s, x);
    if s.len() > 0 && stands_before(sort, x, s.last()) {
        let t = s.drop_last();
        lemma_put_in_holds(sort, t, x, e);
        let u = put_in(sort, t, x);
        if p.contains(e) {
            let i = choose|i: int| 0 <= i < p.len() && p[i] == e;
            if i < u.len() {
                assert(u[i] == e);
                if t.contains(e) {
                    let j = choose|j: int| 0 <= j < t.len() && t[j] == e;
                    assert(s[j] == e);
                }
            } else {
                assert(s[s.len() - 1] == e);
            }
        }
        if s.contains(e) {
            let j = choose|j: int| 0 <= j < s.len() && s[j] == e;
            if j < t.len() {
                assert(t[j] == e);
                let i = choose|i: int| 0 <= i < u.len() && u[i] == e;
                assert(p[i] == e);
            } else {
                assert(p[p.len() - 1] == e);
            }
        }
        if e == x {
            let i = choose|i: int| 0 <= i < u.len() && u[i] == e;
            assert(p[i] == e);
        }
    } else {
        if p.contains(e) {
            let i = choose|i: int| 0 <= i < p.len() && p[i] == e;
            if i < s.len() {
                assert(s[i] == e);
            }
        }
        if s.contains(e) {
            let j = choose|j: int| 0 <= j < s.len() && s[j] == e;
            assert(p[j] == e);
        }
        assert(p[s.len() as int] == x);
    }
}

/// A search looks at the key, the description and the value of every entry: an
/// entry of the store is chosen just when the text that is searched for stands
/// in one of the three. So an entry is chosen for its description alone.
pub proof fn searches_look_at_key_description_and_value(
    args: JsonView,
    rows: Seq<ContextRowView>,
    now: Stamp,
    e: ContextRowView,
    q: Seq<char>,
)
    requires
        names_no_key(args),
        text_field(args, "search_query"@) == Some(q),
        q.len() > 0,
        bool_field(args, "show_stale_entries"@) != Some(true),
        rows.contains(e),
    ensures
        chosen(rows, view_wish(args), now).contains(e) <==> {
            ||| holds(e.context_key, q)
            ||| e.description is Some && holds(e.description->0, q)
            ||| holds(e.value, q)
        },
        (e.description is Some && holds(e.description->0, q)) ==> chosen(
            rows,
            view_wish(args),
            now,
        ).contains(e),
{
    lemma_chosen_holds(rows, view_wish(args), now, e);
    reveal_strlit("");
    if e.description is None && holds(""@, q) {
        let i = choose|i: int| #[trigger] crate::text::holds_at(""@, q, i);
        assert(false);
    }
}

/// A call that names a key chooses the entries under that key, and no others;
/// one that neither names a key nor searches chooses every entry.
pub proof fn named_entries_are_chosen(
    args: JsonView,
    rows: Seq<ContextRowView>,
    now: Stamp,
    e: ContextRowView,
)
    requires
        bool_field(args, "show_stale_entries"@) != Some(true),
    ensures
        !names_no_key(args) ==> (chosen(rows, view_wish(args), now).contains(e) <==> rows.contains(
            e,
        ) && Some(e.context_key) == text_field(args, "context_key"@)),
        names_no_key(args) && searches_nothing(args) ==> (chosen(
            rows,
            view_wish(args),
            now,
        ).contains(e) <==> rows.contains(e)),
        chosen(rows, view_wish(args), now).contains(e) ==> rows.contains(e),
{
    lemma_chosen_holds(rows, view_wish(args), now, e);
}

/// Where only stale entries are asked for, those are chosen that were last
/// written more than thirty whole days ago, of what the call would choose
/// without that.
pub proof fn stale_entries_are_chosen_by_their_age(
    args: JsonView,
    rows: Seq<ContextRowView>,
    now: Stamp,
    e: ContextRowView,
)
    requires
        bool_field(args, "show_stale_entries"@) == Some(true),
        names_no_key(args),
        searches_nothing(args),
    ensures
        chosen(rows, view_wish(args), now).contains(e) <==> rows.contains(e) && e.updated is Some
            && (now.secs * 1_000_000_000 + now.nanos) - (e.updated->0.secs * 1_000_000_000
            + e.updated->0.nanos) >= 31 * 86_400_000_000_000,
{
    lemma_chosen_holds(rows, view_wish(args), now, e);
    if e.updated is Some {
        ages_are_whole_days(now, e.updated->0);
    }
}

/// An age in days is the time that has passed in whole days, rounded towards
/// nothing.
pub proof fn ages_are_whole_days(now: Stamp, t: Stamp)
    ensures
        ({
            let passed = (now.secs * 1_000_000_000 + now.nanos) - (t.secs * 1_000_000_000
                + t.nanos);
            let day = 86_400_000_000_000int;
            &&& passed >= 0 ==> day * days_since(now, t) <= passed < day * (days_since(now, t) + 1)
            &&& passed < 0 ==> day * (days_since(now, t) - 1) < passed <= day * days_since(now, t)
        }),
{
}

/// Entries are shown in the order that is asked for: by size the larger first,
/// by key the smaller first, else the later written first. At most as many are
/// shown as are asked for, from one to two hundred, fifty where none is said;
/// and those come first of all that were chosen.
pub proof fn entries_are_shown_in_order(
    args: JsonView,
    rows: Seq<ContextRowView>,
    now: Stamp,
    i: int,
    j: int,
)
    requires
        0 <= i < j < shown_rows(rows, view_wish(args), now).len(),
    ensures
        ({
            let shown = shown_rows(rows, view_wish(args), now);
            let all = chosen(rows, view_wish(args), now);
            let sort = text_field(args, "sort_by"@);
            &&& shown[i] == all[i] && shown[j] == all[j]
            &&& sort == Some("size"@) ==> shown[i].value.len() >= shown[j].value.len()
            &&& sort == Some("key"@) ==> !text_before(shown[j].context_key, shown[i].context_key)
            &&& sort is None || sort == Some("updated_at"@) || sort == Some("last_updated"@)
                ==> !text_before(shown[i].updated_at, shown[j].updated_at)
            &&& int_field(args, "max_results"@) is None ==> shown.len() <= 50
            &&& (int_field(args, "max_results"@) is Some && 1 <= int_field(
                args,
                "max_results"@,
            )->0 <= 200) ==> shown.len() <= int_field(args, "max_results"@)->0
            &&& shown.len() <= 200
        }),
{
    let w = view_wish(args);
    let shown = shown_rows(rows, w, now);
    reveal_strlit("size");
    reveal_strlit("key");
    reveal_strlit("updated_at");
    reveal_strlit("last_updated");
    assert("size"@.len() == 4);
    assert("key"@.len() == 3);
    assert("updated_at"@.len() == 10);
    assert("last_updated"@.len() == 12);
    shown_rows_are_sorted_and_wanted(rows, w, now);
    lemma_sorted_apart(w.sort_by, shown, i, j);
}

/// As many entries are shown as were chosen, up to the limit that is asked for.
pub proof fn as_many_entries_are_shown_as_asked(
    args: JsonView,
    rows: Seq<ContextRowView>,
    now: Stamp,
    limit: int,
)
    requires
        int_field(args, "max_results"@) is None ==> limit == 50,
        int_field(args, "max_results"@) matches Some(n) ==> limit == if n < 1 {
            1
        } else if n > 200 {
            200
        } else {
            n as int
        },
    ensures
        ({
            let all = chosen(rows, view_wish(args), now);
            let shown = shown_rows(rows, view_wish(args), now);
            &&& shown.len() == if all.len() < limit {
                all.len() as int
            } else {
                limit
            }
            &&& forall|i: int| 0 <= i < shown.len() ==> #[trigger] shown[i] == all[i]
        }),
{
}

proof fn lemma_not_before(sort: Seq<char>, a: ContextRowView, b: ContextRowView, c: ContextRowView)
    requires
        !stands_before(sort, b, a),
        !stands_before(sort, c, b),
    ensures
        !stands_before(sort, c, a),
{
    if sort == "size"@ {
    } else if sort == "key"@ {
        lemma_order(a.context_key, b.context_key, c.context_key);
    } else {
        lemma_order(c.updated_at, b.updated_at, a.updated_at);
    }
}

/// The order of texts carries over: what is not before a second, and that not
/// before a third, is not before the third either.
proof fn lemma_order(a: Seq<char>, b: Seq<char>, c: Seq<char>)
    requires
        !text_before(b, a),
        !text_before(c, b),
    ensures
        !text_before(c, a),
    decreases a.len(),
{
    if c.len() > 0 && a.len() > 0 && b.len() > 0 {
        if a[0] == b[0] && b[0] == c[0] {
            lemma_order(
                a.subrange(1, a.len() as int),
                b.subrange(1, b.len() as int),
                c.subrange(1, c.len() as int),
            );
        }
    }
}

proof fn lemma_sorted_apart(sort: Seq<char>, s: Seq<ContextRowView>, i: int, j: int)
    requires
        well_sorted(sort, s),
        0 <= i < j < s.len(),
    ensures
        !stands_before(sort, s[j], s[i]),
    decreases j - i,
{
    assert(!stands_before(sort, s[j - 1 + 1], s[j - 1]));
    if i < j - 1 {
        lemma_sorted_apart(sort, s, i, j - 1);
        lemma_not_before(sort, s[i], s[j - 1], s[j]);
    }
}

/// What is shown of an entry is what is stored: its key, its description, who
/// wrote it and when, its value as JSON where it is some and else as its text,
/// and how large, how old and how sound it is. As many are shown as are counted.
pub proof fn shown_entries_are_as_stored(
    c: CallView,
    rows: Seq<ContextRowView>,
    now: Stamp,
    i: int,
)
    requires
        c.instant == Some(now),
        0 <= i < shown_rows(rows, view_wish(c.arguments), now).len(),
    ensures
        ({
            let r = view_project_context_next(c, seq![EventView::Contexts(rows)]);
            let data = r->Finish_0->Success_data->0;
            let list = list_field(data, "entries"@);
            let shown = shown_rows(rows, view_wish(c.arguments), now);
            let e = shown[i];
            let about = field(list->0[i], "_metadata"@);
            &&& view_project_context_next(c, Seq::empty()) is ListContexts
            &&& r is Finish && r->Finish_0 is Success && r->Finish_0->Success_data is Some
            &&& list is Some && list->0.len() == shown.len()
            &&& field(data, "count"@) == Some(int_json(shown.len() as int))
            &&& text_field(list->0[i], "key"@) == Some(e.context_key)
            &&& text_field(list->0[i], "description"@) == e.description
            &&& text_field(list->0[i], "updated_by"@) == Some(e.updated_by)
            &&& text_field(list->0[i], "updated_at"@) == Some(e.updated_at)
            &&& text_field(list->0[i], "created_by"@) == e.created_by
            &&& text_field(list->0[i], "created_at"@) == e.created_at
            &&& json_read(e.value) is Ok ==> field(list->0[i], "value"@) == Some(
                json_read(e.value)->Ok_0,
            )
            &&& json_read(e.value) is Err ==> text_field(list->0[i], "value"@) == Some(e.value)
            &&& about is Some
            &&& field(about->0, "size_bytes"@) == Some(int_json(e.value.len() as int))
            &&& bool_field(about->0, "json_valid"@) == Some(json_read(e.value) is Ok)
            &&& bool_field(about->0, "is_large"@) == Some(e.value.len() > 10240)
            &&& e.updated is Some ==> field(about->0, "days_old"@) == Some(
                int_json(days_since(now, e.updated->0)),
            )
            &&& bool_field(about->0, "is_stale"@) == Some(
                e.updated is Some && days_since(now, e.updated->0) > 30,
            )
        }),
{
    reveal_strlit("entries");
    reveal_strlit("count");
    reveal_strlit("filters");
    assert("entries"@.len() == 7);
    assert("count"@.len() == 5);
    assert("filters"@.len() == 7);
    assert("entries"@[0] == 'e');
    assert("filters"@[0] == 'f');
    reveal_strlit("key");
    reveal_strlit("value");
    reveal_strlit("description");
    reveal_strlit("updated_by");
    reveal_strlit("updated_at");
    reveal_strlit("created_by");
    reveal_strlit("created_at");
    reveal_strlit("_metadata");
    assert("key"@.len() == 3);
    assert("value"@.len() == 5);
    assert("description"@.len() == 11);
    assert("updated_by"@.len() == 10);
    assert("updated_at"@.len() == 10);
    assert("created_by"@.len() == 10);
    assert("created_at"@.len() == 10);
    assert("_metadata"@.len() == 9);
    assert("created_at"@[0] == 'c');
    assert("created_at"@[8] == 'a');
    assert("created_by"@[0] == 'c');
    assert("created_by"@[8] == 'b');
    assert("updated_at"@[0] == 'u');
    assert("updated_at"@[8] == 'a');
    assert("updated_by"@[0] == 'u');
    assert("updated_by"@[8] == 'b');
    reveal_strlit("size_bytes");
    reveal_strlit("size_kb");
    reveal_strlit("json_valid");
    reveal_strlit("days_old");
    reveal_strlit("is_stale");
    reveal_strlit("is_large");
    assert("size_bytes"@.len() == 10);
    assert("size_kb"@.len() == 7);
    assert("json_valid"@.len() == 10);
    assert("days_old"@.len() == 8);
    assert("is_stale"@.len() == 8);
    assert("is_large"@.len() == 8);
    assert("days_old"@[0] == 'd');
    assert("is_large"@[0] == 'i');
    assert("is_large"@[3] == 'l');
    assert("is_stale"@[0] == 'i');
    assert("is_stale"@[3] == 's');
    assert("json_valid"@[0] == 'j');
    assert("size_bytes"@[0] == 's');
    let h = seq![EventView::Contexts(rows)];
    assert(h[0] == EventView::Contexts(rows));
}

/// A call that chooses nothing says so; any other shows, of each of the first
/// twenty entries, its key and its value, cut after five hundred characters.
pub proof fn shown_texts_name_the_entries(c: CallView, rows: Seq<ContextRowView>, now: Stamp, i: int)
    requires
        c.instant == Some(now),
        0 <= i < 20,
        i < shown_rows(rows, view_wish(c.arguments), now).len(),
    ensures
        ({
            let r = view_project_context_next(c, seq![EventView::Contexts(rows)]);
            let e = shown_rows(rows, view_wish(c.arguments), now)[i];
            let text = r->Finish_0->Success_message->0;
            &&& r->Finish_0->Success_message is Some
            &&& holds(text, e.context_key)
            &&& holds(text, e.updated_at)
            &&& holds(text, e.updated_by)
            &&& e.description is Some ==> holds(text, e.description->0)
            &&& (json_read(e.value) is Err && e.value.len() <= 500) ==> holds(text, e.value)
        }),
{
    let w = view_wish(c.arguments);
    let shown = shown_rows(rows, w, now);
    let h = seq![EventView::Contexts(rows)];
    assert(h[0] == EventView::Contexts(rows));
    let e = shown[i];
    let text = view_project_context_next(c, h)->Finish_0->Success_message->0;
    let mine = crate::project_context_tools::entry_lines(e, now);
    let lines = crate::project_context_tools::view_lines(shown, w, rows, now);
    assert(text == crate::text::joined(lines, "\n"@));
    let n = mine.len() as int;
    assert(n >= 5);
    lemma_entry_line(shown, w, rows, now, i, 0);
    lemma_entry_line(shown, w, rows, now, i, 1);
    lemma_entry_line(shown, w, rows, now, i, 2);
    lemma_entry_line(shown, w, rows, now, i, n - 2);
    lemma_lines_hold_the_entry(e, now);
    crate::text_laws::parts_of_parts_are_held(text, mine[0], e.context_key);
    crate::text_laws::parts_of_parts_are_held(text, mine[2], e.updated_at);
    crate::text_laws::parts_of_parts_are_held(text, mine[2], e.updated_by);
    if e.description is Some {
        crate::text_laws::parts_of_parts_are_held(text, mine[1], e.description->0);
    }
    if json_read(e.value) is Err && e.value.len() <= 500 {
        crate::text_laws::parts_of_parts_are_held(text, mine[n - 2], e.value);
    }
}

proof fn lemma_lines_hold_the_entry(e: ContextRowView, now: Stamp)
    ensures
        ({
            let mine = crate::project_context_tools::entry_lines(e, now);
            &&& mine.len() >= 5
            &&& holds(mine[0], e.context_key)
            &&& e.description is Some ==> holds(mine[1], e.description->0)
            &&& holds(mine[2], e.updated_at)
            &&& holds(mine[2], e.updated_by)
            &&& (json_read(e.value) is Err && e.value.len() <= 500) ==> holds(
                mine[mine.len() - 2],
                e.value,
            )
        }),
{
    let mine = crate::project_context_tools::entry_lines(e, now);
    let signs = crate::project_context_tools::indicators(e, now);
    let none = Seq::<char>::empty();
    let tail = if signs.len() == 0 {
        ""@
    } else {
        " "@ + crate::text::joined(signs, " "@)
    };
    assert(mine[0] == "**"@ + e.context_key + "**"@ + tail);
    assert(mine[0] =~= "**"@ + e.context_key + ("**"@ + tail));
    crate::text_laws::sums_hold_their_parts("**"@, e.context_key, "**"@ + tail);
    if e.description is Some {
        assert(mine[1] == "  Description: "@ + e.description->0);
        assert(mine[1] =~= "  Description: "@ + e.description->0 + none);
        crate::text_laws::sums_hold_their_parts("  Description: "@, e.description->0, none);
    }
    assert(mine[2] == "  Updated: "@ + e.updated_at + " by "@ + e.updated_by);
    assert(mine[2] =~= "  Updated: "@ + e.updated_at + (" by "@ + e.updated_by));
    crate::text_laws::sums_hold_their_parts("  Updated: "@, e.updated_at, " by "@ + e.updated_by);
    assert(mine[2] =~= ("  Updated: "@ + e.updated_at + " by "@) + e.updated_by + none);
    crate::text_laws::sums_hold_their_parts(
        "  Updated: "@ + e.updated_at + " by "@,
        e.updated_by,
        none,
    );
    if json_read(e.value) is Err && e.value.len() <= 500 {
        let line = mine[mine.len() - 2];
        assert(line == "  Value: "@ + e.value);
        assert(line =~= "  Value: "@ + e.value + none);
        crate::text_laws::sums_hold_their_parts("  Value: "@, e.value, none);
    }
}

proof fn lemma_entry_line(
    shown: Seq<ContextRowView>,
    w: crate::project_context_tools::WishView,
    rows: Seq<ContextRowView>,
    now: Stamp,
    i: int,
    k: int,
)
    requires
        0 <= i < 20,
        i < shown.len(),
        0 <= k < crate::project_context_tools::entry_lines(shown[i], now).len(),
    ensures
        holds(
            crate::text::joined(
                crate::project_context_tools::view_lines(shown, w, rows, now),
                "\n"@,
            ),
            crate::project_context_tools::entry_lines(shown[i], now)[k],
        ),
{
    let few = crate::text::first_n(shown, 20);
    assert(few[i] == shown[i]);
    let part = crate::project_context_tools::entries_lines(few, now);
    let line = crate::project_context_tools::entry_lines(shown[i], now)[k];
    lemma_entries_lines(few, now, i, k);
    let at = choose|at: int| 0 <= at < part.len() && part[at] == line;
    let lines = crate::project_context_tools::view_lines(shown, w, rows, now);
    let a = seq![crate::project_context_tools::view_header(shown.len() as int, w)];
    let b = if w.show_health_analysis {
        a + crate::project_context_tools::health_lines(
            crate::context_health::health_of(rows, now),
        )
    } else {
        a
    };
    let c = if w.include_backup_info {
        b.push("\u{1f4be} **Backup Info:** Use bulk_update_project_context for backups"@).push(""@)
    } else {
        b
    };
    let d = c + part;
    assert(d[c.len() + at] == line);
    assert(lines[c.len() + at] == line);
    crate::text_laws::joined_texts_hold_every_part(lines, "\n"@, c.len() + at);
}

proof fn lemma_entries_lines(s: Seq<ContextRowView>, now: Stamp, i: int, k: int)
    requires
        0 <= i < s.len(),
        0 <= k < crate::project_context_tools::entry_lines(s[i], now).len(),
    ensures
        crate::project_context_tools::entries_lines(s, now).contains(
            crate::project_context_tools::entry_lines(s[i], now)[k],
        ),
    decreases s.len(),
{
    let lines = crate::project_context_tools::entries_lines(s, now);
    let front = crate::project_context_tools::entries_lines(s.drop_last(), now);
    let line = crate::project_context_tools::entry_lines(s[i], now)[k];
    if i < s.len() - 1 {
        lemma_entries_lines(s.drop_last(), now, i, k);
        let at = choose|at: int| 0 <= at < front.len() && front[at] == line;
        assert(lines[at] == line);
    } else {
        assert(lines[front.len() + k] == line);
    }
}

/// A size in kilobytes is rounded to the nearest hundredth. Where two are as near,
/// the data say the greater, and the text says the even one.
pub proof fn sizes_are_rounded_to_the_nearest(size: int)
    requires
        0 <= size,
    ensures
        ({
            let k = crate::project_context_tools::kilobytes(size);
            let t = crate::project_context_tools::even_kilobytes(size);
            &&& -512 < 1024 * k - 100 * size <= 512
            &&& -512 <= 1024 * t - 100 * size <= 512
            &&& 1024 * t - 100 * size == 512 || 1024 * t - 100 * size == -512 ==> t % 2 == 0
        }),
{
}

/// A number of hundredths is written with two digits behind the point.
pub proof fn hundredths_have_two_digits(h: int)
    requires
        0 <= h,
    ensures
        exists|a: nat, b: nat, d: nat|
            b < 10 && d < 10 && 100 * a + 10 * b + d == h
                && crate::project_context_tools::hundredths_text(h) == #[trigger] crate::text::decimal(
                a,
            ) + "."@ + #[trigger] crate::text::decimal(b) + #[trigger] crate::text::decimal(d),
{
    let a = (h / 100) as nat;
    let b = (h / 10 % 10) as nat;
    let d = (h % 10) as nat;
    assert(100 * a + 10 * b + d == h);
    assert(crate::project_context_tools::hundredths_text(h) == crate::text::decimal(a) + "."@
        + crate::text::decimal(b) + crate::text::decimal(d));
}

/// An answer says by what it was filtered and sorted, as the call asked.
pub proof fn answers_say_how_they_were_chosen(
    c: CallView,
    rows: Seq<ContextRowView>,
    now: Stamp,
    e: ContextRowView,
)
    requires
        c.instant == Some(now),
    ensures
        ({
            let r = view_project_context_next(c, seq![EventView::Contexts(rows)]);
            let f = field(r->Finish_0->Success_data->0, "filters"@);
            let n = int_field(c.arguments, "max_results"@);
            let sort = text_field(c.arguments, "sort_by"@);
            let about = field(crate::project_context_tools::entry_json(e, now), "_metadata"@);
            &&& f is Some
            &&& !names_no_key(c.arguments) ==> text_field(f->0, "context_key"@) == text_field(
                c.arguments,
                "context_key"@,
            )
            &&& names_no_key(c.arguments) ==> text_field(f->0, "context_key"@) is None
            &&& !searches_nothing(c.arguments) ==> text_field(f->0, "search_query"@) == text_field(
                c.arguments,
                "search_query"@,
            )
            &&& searches_nothing(c.arguments) ==> text_field(f->0, "search_query"@) is None
            &&& bool_field(f->0, "show_stale_entries"@) == Some(
                bool_field(c.arguments, "show_stale_entries"@) == Some(true),
            )
            &&& (sort is Some && sort != Some("last_updated"@)) ==> text_field(f->0, "sort_by"@)
                == sort
            &&& (sort is None || sort == Some("last_updated"@)) ==> text_field(f->0, "sort_by"@)
                == Some("updated_at"@)
            &&& (n is Some && 1 <= n->0 <= 200) ==> field(f->0, "max_results"@) == Some(
                int_json(n->0 as int),
            )
            &&& n is None ==> field(f->0, "max_results"@) == Some(int_json(50))
            &&& about is Some && field(about->0, "size_kb"@) == Some(
                crate::json::decimal_json(
                    crate::project_context_tools::hundredths_text(
                        (100 * e.value.len() as int + 512) / 1024,
                    ),
                ),
            )
        }),
{
    reveal_strlit("entries");
    reveal_strlit("count");
    reveal_strlit("filters");
    assert("entries"@.len() == 7);
    assert("count"@.len() == 5);
    assert("filters"@.len() == 7);
    assert("entries"@[0] == 'e');
    assert("filters"@[0] == 'f');
    reveal_strlit("context_key");
    reveal_strlit("search_query");
    reveal_strlit("show_stale_entries");
    reveal_strlit("sort_by");
    reveal_strlit("max_results");
    assert("context_key"@.len() == 11);
    assert("search_query"@.len() == 12);
    assert("show_stale_entries"@.len() == 18);
    assert("sort_by"@.len() == 7);
    assert("max_results"@.len() == 11);
    assert("context_key"@[0] == 'c');
    assert("max_results"@[0] == 'm');
    reveal_strlit("key");
    reveal_strlit("value");
    reveal_strlit("description");
    reveal_strlit("updated_by");
    reveal_strlit("updated_at");
    reveal_strlit("created_by");
    reveal_strlit("created_at");
    reveal_strlit("_metadata");
    assert("key"@.len() == 3);
    assert("value"@.len() == 5);
    assert("description"@.len() == 11);
    assert("updated_by"@.len() == 10);
    assert("updated_at"@.len() == 10);
    assert("created_by"@.len() == 10);
    assert("created_at"@.len() == 10);
    assert("_metadata"@.len() == 9);
    assert("created_at"@[0] == 'c');
    assert("created_at"@[8] == 'a');
    assert("created_by"@[0] == 'c');
    assert("created_by"@[8] == 'b');
    assert("updated_at"@[0] == 'u');
    assert("updated_at"@[8] == 'a');
    assert("updated_by"@[0] == 'u');
    assert("updated_by"@[8] == 'b');
    reveal_strlit("size_bytes");
    reveal_strlit("size_kb");
    reveal_strlit("json_valid");
    reveal_strlit("days_old");
    reveal_strlit("is_stale");
    reveal_strlit("is_large");
    assert("size_bytes"@.len() == 10);
    assert("size_kb"@.len() == 7);
    assert("json_valid"@.len() == 10);
    assert("days_old"@.len() == 8);
    assert("is_stale"@.len() == 8);
    assert("is_large"@.len() == 8);
    assert("days_old"@[0] == 'd');
    assert("is_large"@[0] == 'i');
    assert("is_large"@[3] == 'l');
    assert("is_stale"@[0] == 'i');
    assert("is_stale"@[3] == 's');
    assert("json_valid"@[0] == 'j');
    assert("size_bytes"@[0] == 's');
    let h = seq![EventView::Contexts(rows)];
    assert(h[0] == EventView::Contexts(rows));
}

/// The head of a text says how many entries it shows, by what they were filtered
/// and how they were sorted.
pub proof fn heads_say_how_entries_were_chosen(args: JsonView, n: nat)
    ensures
        ({
            let w = view_wish(args);
            let words = crate::project_context_tools::filter_words(w);
            let head = crate::project_context_tools::view_header(n as int, w);
            &&& begins_with(head, "Project Context ("@ + crate::text::decimal(n) + " entries"@)
            &&& holds(head, ", sorted by: "@ + w.sort_by + ")"@)
            &&& !names_no_key(args) ==> words.contains(
                "key='"@ + text_field(args, "context_key"@)->0 + "'"@,
            )
            &&& !searches_nothing(args) ==> words.contains(
                "search='"@ + text_field(args, "search_query"@)->0 + "'"@,
            )
            &&& bool_field(args, "show_stale_entries"@) == Some(true) ==> words.contains(
                "stale_only=true"@,
            )
            &&& (names_no_key(args) && searches_nothing(args) && bool_field(
                args,
                "show_stale_entries"@,
            ) != Some(true)) ==> words.len() == 0
            &&& words.len() > 0 ==> holds(
                head,
                ", filtered by: "@ + crate::text::joined(words, ", "@),
            )
        }),
{
    let w = view_wish(args);
    let words = crate::project_context_tools::filter_words(w);
    let head = crate::project_context_tools::view_header(n as int, w);
    let start = "Project Context ("@ + crate::text::decimal(n) + " entries"@;
    let mid = if words.len() == 0 {
        ""@
    } else {
        ", filtered by: "@ + crate::text::joined(words, ", "@)
    };
    let by = ", sorted by: "@ + w.sort_by + ")"@;
    assert(head =~= start + mid + by + "\n"@);
    assert(head.subrange(0, start.len() as int) =~= start);
    crate::text_laws::sums_hold_their_parts(start + mid, by, "\n"@);
    crate::text_laws::sums_hold_their_parts(start, mid, by + "\n"@);
    assert(head =~= start + mid + (by + "\n"@));
    let a: int = if w.context_key is Some {
        1
    } else {
        0
    };
    if w.context_key is Some {
        assert(words[0] == "key='"@ + w.context_key->0 + "'"@);
    }
    if w.search_query is Some {
        assert(words[a] == "search='"@ + w.search_query->0 + "'"@);
    }
    if w.show_stale_entries {
        assert(words.last() == "stale_only=true"@);
    }
}

/// Where a call asks for it, the text tells how the whole context fares: how many
/// entries it has, and how many of them are broken, stale or large. Where nothing
/// was chosen, the text says that.
pub proof fn texts_tell_of_health_where_asked(c: CallView, rows: Seq<ContextRowView>, now: Stamp)
    requires
        c.instant == Some(now),
    ensures
        ({
            let r = view_project_context_next(c, seq![EventView::Contexts(rows)]);
            let text = r->Finish_0->Success_message->0;
            let shown = shown_rows(rows, view_wish(c.arguments), now);
            let report = crate::context_health::health_of(rows, now);
            &&& r is Finish && r->Finish_0 is Success && r->Finish_0->Success_message is Some
            &&& shown.len() == 0 ==> text
                == "No project context entries found matching the criteria."@
            &&& (shown.len() > 0 && bool_field(c.arguments, "show_health_analysis"@) == Some(true))
                ==> {
                &&& holds(text, "   Total: "@ + crate::text::decimal_int(report.total) + " entries"@)
                &&& holds(
                    text,
                    "   Issues: "@ + crate::text::decimal_int(report.json_errors)
                        + " JSON errors, "@ + crate::text::decimal_int(report.stale_entries)
                        + " stale, "@ + crate::text::decimal_int(report.large_entries) + " large"@,
                )
            }
            &&& (shown.len() > 0 && bool_field(c.arguments, "include_backup_info"@) == Some(true))
                ==> holds(
                text,
                "\u{1f4be} **Backup Info:** Use bulk_update_project_context for backups"@,
            )
            &&& shown.len() > 20 ==> holds(
                text,
                "... and "@ + crate::text::decimal((shown.len() - 20) as nat) + " more entries"@,
            )
        }),
{
    let w = view_wish(c.arguments);
    let h = seq![EventView::Contexts(rows)];
    assert(h[0] == EventView::Contexts(rows));
    let shown = shown_rows(rows, w, now);
    let lines = crate::project_context_tools::view_lines(shown, w, rows, now);
    let report = crate::context_health::health_of(rows, now);
    let mine = crate::project_context_tools::health_lines(report);
    let a = seq![crate::project_context_tools::view_header(shown.len() as int, w)];
    let b = if w.show_health_analysis {
        a + mine
    } else {
        a
    };
    let d = if w.include_backup_info {
        b.push("\u{1f4be} **Backup Info:** Use bulk_update_project_context for backups"@).push(""@)
    } else {
        b
    };
    let e = d + crate::project_context_tools::entries_lines(
        crate::text::first_n(shown, 20),
        now,
    );
    if shown.len() > 0 {
        if w.show_health_analysis {
            assert(b[2] == mine[1] && b[3] == mine[2]);
            assert(e[2] == mine[1] && e[3] == mine[2]);
            assert(lines[2] == mine[1] && lines[3] == mine[2]);
            crate::text_laws::joined_texts_hold_every_part(lines, "\n"@, 2);
            crate::text_laws::joined_texts_hold_every_part(lines, "\n"@, 3);
        }
        if w.include_backup_info {
            let n = b.len() as int;
            assert(d[n] == "\u{1f4be} **Backup Info:** Use bulk_update_project_context for backups"@);
            assert(e[n] == d[n]);
            assert(lines[n] == d[n]);
            crate::text_laws::joined_texts_hold_every_part(lines, "\n"@, n);
        }
        if shown.len() > 20 {
            let n = e.len() as int;
            let more = "... and "@ + crate::text::decimal((shown.len() - 20) as nat)
                + " more entries"@;
            assert(lines[n] == more);
            crate::text_laws::joined_texts_hold_every_part(lines, "\n"@, n);
        }
    }
}

/// What the text marks: a value that is no JSON, a stale entry with its age, and
/// a large one.
pub proof fn troubled_entries_are_marked(e: ContextRowView, now: Stamp)
    ensures
        ({
            let signs = crate::project_context_tools::indicators(e, now);
            &&& json_read(e.value) is Err <==> signs.contains("\u{274c} JSON_ERROR"@)
            &&& (e.updated is Some && days_since(now, e.updated->0) > 30) ==> signs.contains(
                "\u{23f0} STALE("@ + crate::text::decimal_int(days_since(now, e.updated->0))
                    + "d)"@,
            )
            &&& e.value.len() > 10240 ==> exists|i: int|
                0 <= i < signs.len() && begins_with(#[trigger] signs[i], "\u{1f4e6} LARGE("@)
            &&& (json_read(e.value) is Ok && (e.updated is None || days_since(now, e.updated->0)
                <= 30) && e.value.len() <= 10240) ==> signs.len() == 0
        }),
{
    let signs = crate::project_context_tools::indicators(e, now);
    let bad = "\u{274c} JSON_ERROR"@;
    reveal_strlit("\u{274c} JSON_ERROR");
    reveal_strlit("\u{23f0} STALE(");
    reveal_strlit("\u{1f4e6} LARGE(");
    let old = "\u{23f0} STALE("@ + crate::text::decimal_int(days_since(now, e.updated->0)) + "d)"@;
    let size = crate::project_context_tools::hundredths_text(
        crate::project_context_tools::even_kilobytes(e.value.len() as int),
    );
    let big = "\u{1f4e6} LARGE("@ + size + "KB)"@;
    assert(bad[0] == '\u{274c}' && old[0] == '\u{23f0}' && big[0] == '\u{1f4e6}');
    let n: int = if json_read(e.value) is Err {
        1
    } else {
        0
    };
    let stale = e.updated is Some && days_since(now, e.updated->0) > 30;
    if n == 1 {
        assert(signs[0] == bad);
    } else {
        assert(forall|i: int| 0 <= i < signs.len() ==> #[trigger] signs[i] != bad);
    }
    if stale {
        assert(signs[n] == old);
    }
    if e.value.len() > 10240 {
        assert(signs.last() == big);
        assert(big.subrange(0, "\u{1f4e6} LARGE("@.len() as int) =~= "\u{1f4e6} LARGE("@);
        assert(begins_with(signs[signs.len() - 1], "\u{1f4e6} LARGE("@));
    }
}

// ---------------------------------------------------------------------
// Backups
// ---------------------------------------------------------------------

/// Whether entry `j` of a backup can be read back into the row `r`: every column
/// of the row stands in it under its own name, and what the row lacks is null.
pub open spec fn reads_back(j: JsonView, r: ContextRowView) -> bool {
    &&& text_field(j, "context_key"@) == Some(r.context_key)
    &&& text_field(j, "value"@) == Some(r.value)
    &&& text_field(j, "updated_at"@) == Some(r.updated_at)
    &&& text_field(j, "updated_by"@) == Some(r.updated_by)
    &&& text_field(j, "description"@) == r.description
    &&& text_field(j, "created_at"@) == r.created_at
    &&& text_field(j, "created_by"@) == r.created_by
    &&& r.description is None ==> field(j, "description"@) == Some(JsonView::Null)
    &&& r.created_at is None ==> field(j, "created_at"@) == Some(JsonView::Null)
    &&& r.created_by is None ==> field(j, "created_by"@) == Some(JsonView::Null)
}

proof fn lemma_row_reads_back(r: ContextRowView)
    ensures
        reads_back(crate::context_backup::row_json(r), r),
{
    reveal_strlit("context_key");
    reveal_strlit("value");
    reveal_strlit("description");
    reveal_strlit("created_at");
    reveal_strlit("created_by");
    reveal_strlit("updated_at");
    reveal_strlit("updated_by");
    assert("context_key"@.len() == 11);
    assert("value"@.len() == 5);
    assert("description"@.len() == 11);
    assert("created_at"@.len() == 10);
    assert("created_by"@.len() == 10);
    assert("updated_at"@.len() == 10);
    assert("updated_by"@.len() == 10);
    assert("context_key"@[0] == 'c');
    assert("created_at"@[0] == 'c');
    assert("created_at"@[8] == 'a');
    assert("created_by"@[0] == 'c');
    assert("created_by"@[8] == 'b');
    assert("description"@[0] == 'd');
    assert("updated_at"@[0] == 'u');
    assert("updated_at"@[8] == 'a');
    assert("updated_by"@[0] == 'u');
    assert("updated_by"@[8] == 'b');
}

/// A backup can be read back: the tree that is written holds as many entries as
/// the context had, and each has every column of the row of its place. It says
/// under which name it was made, and how many entries it has; and it is written
/// into the directory of the backups, under its name.
pub proof fn backups_can_be_read_back(c: CallView, h: Seq<EventView>) -> (tree: JsonView)
    requires
        backup_project_context_next(c, h) is WriteFile,
    ensures
        backup_project_context_next(c, h)->text == pretty_text(tree),
        exists|at: int|
            0 <= at < h.len() && (#[trigger] h[at] matches EventView::Contexts(rows) && {
                &&& list_field(tree, "entries"@) is Some
                &&& list_field(tree, "entries"@)->0.len() == rows.len()
                &&& forall|i: int|
                    0 <= i < rows.len() ==> reads_back(
                        #[trigger] list_field(tree, "entries"@)->0[i],
                        rows[i],
                    )
                &&& field(tree, "total_entries"@) == Some(int_json(rows.len() as int))
            }),
        text_field(c.arguments, "backup_name"@) is Some ==> text_field(tree, "backup_name"@)
            == text_field(c.arguments, "backup_name"@),
        text_field(tree, "backup_name"@) matches Some(name) && exists|base: Seq<char>|
            h.contains(EventView::Text(Some(base))) && backup_project_context_next(c, h)->WriteFile_path
                == #[trigger] inside(base, name + ".json"@),
        field(tree, "health_report"@) is Some <==> bool_field(
            c.arguments,
            "include_health_report"@,
        ) != Some(false),
{
    reveal_strlit("backup_name");
    reveal_strlit("created_at");
    reveal_strlit("total_entries");
    reveal_strlit("entries");
    reveal_strlit("health_report");
    assert("backup_name"@.len() == 11);
    assert("created_at"@.len() == 10);
    assert("total_entries"@.len() == 13);
    assert("entries"@.len() == 7);
    assert("health_report"@.len() == 13);
    assert("health_report"@[0] == 'h');
    assert("total_entries"@[0] == 't');
    reveal_strlit("context_key");
    reveal_strlit("value");
    reveal_strlit("description");
    reveal_strlit("created_by");
    reveal_strlit("updated_at");
    reveal_strlit("updated_by");
    assert("context_key"@.len() == 11);
    assert("value"@.len() == 5);
    assert("description"@.len() == 11);
    assert("created_by"@.len() == 10);
    assert("updated_at"@.len() == 10);
    assert("updated_by"@.len() == 10);
    assert("context_key"@[0] == 'c');
    assert("created_by"@[0] == 'c');
    assert("description"@[0] == 'd');
    assert("updated_at"@[0] == 'u');
    assert("updated_at"@[8] == 'a');
    assert("updated_by"@[0] == 'u');
    assert("updated_by"@[8] == 'b');
    let at: int = match crate::context_backup::read_time(c.now) {
        Some(_) => 0,
        None => 1,
    };
    let now = match crate::context_backup::read_time(c.now) {
        Some(now) => now,
        None => h[0]->Time_0,
    };
    let rows = h[at]->Contexts_0;
    assert(h[at] == EventView::Contexts(rows));
    let tree = crate::context_backup::backup_json(c, rows, now);
    let list = list_field(tree, "entries"@)->0;
    assert forall|i: int| 0 <= i < rows.len() implies reads_back(#[trigger] list[i], rows[i]) by {
        assert(list[i] == crate::context_backup::row_json(rows[i]));
        lemma_row_reads_back(rows[i]);
    }
    let base = h[at + 2]->Text_0->0;
    assert(h[at + 2] == EventView::Text(Some(base)));
    assert(h.contains(EventView::Text(Some(base))));
    let name = text_field(tree, "backup_name"@)->0;
    assert(backup_project_context_next(c, h)->WriteFile_path == inside(base, name + ".json"@));
    tree
}

/// Two rows that differ in any stored column are backed up differently, so no
/// column is lost.
pub proof fn different_rows_are_backed_up_differently(
    j: JsonView,
    a: ContextRowView,
    b: ContextRowView,
)
    requires
        reads_back(j, a),
        reads_back(j, b),
    ensures
        a.context_key == b.context_key && a.value == b.value && a.description == b.description
            && a.created_at == b.created_at && a.created_by == b.created_by && a.updated_at
            == b.updated_at && a.updated_by == b.updated_by,
{
}

/// What the caller reads of a backup: its name, as asked for, where it lies,
/// which is where it was written, and how many entries it has.
pub proof fn backups_are_reported_as_written(c: CallView, h: Seq<EventView>)
    requires
        backup_project_context_next(c, h) matches ActionView::Finish(ResultView::Success { .. }),
    ensures
        ({
            let data = backup_project_context_next(c, h)->Finish_0->Success_data->0;
            &&& backup_project_context_next(c, h)->Finish_0->Success_data is Some
            &&& text_field(c.arguments, "backup_name"@) is Some ==> text_field(data, "backup_name"@)
                == text_field(c.arguments, "backup_name"@)
            &&& exists|n: int, at: int|
                #![trigger h.subrange(0, n), h[at]]
                0 <= at < n < h.len() && backup_project_context_next(c, h.subrange(0, n)) is WriteFile
                    && text_field(data, "backup_path"@) == Some(
                    backup_project_context_next(c, h.subrange(0, n))->WriteFile_path,
                ) && (h[at] matches EventView::Contexts(rows) && field(data, "total_entries"@)
                    == Some(int_json(rows.len() as int)))
        }),
{
    reveal_strlit("backup_name");
    reveal_strlit("backup_path");
    reveal_strlit("total_entries");
    reveal_strlit("created_at");
    reveal_strlit("health_report");
    assert("backup_name"@.len() == 11);
    assert("backup_path"@.len() == 11);
    assert("total_entries"@.len() == 13);
    assert("created_at"@.len() == 10);
    assert("health_report"@.len() == 13);
    assert("backup_name"@[7] == 'n');
    assert("backup_path"@[7] == 'p');
    assert("health_report"@[0] == 'h');
    assert("total_entries"@[0] == 't');
    let at: int = match crate::context_backup::read_time(c.now) {
        Some(_) => 0,
        None => 1,
    };
    let n = at + 3;
    let p = h.subrange(0, n);
    assert(p[0] == h[0] && p[at] == h[at] && p[at + 1] == h[at + 1] && p[at + 2] == h[at + 2]);
    assert(backup_project_context_next(c, p) is WriteFile);
}

/// A backup that was written is entered into the audit trail, under its name and
/// with its path.
pub proof fn backups_are_audited(c: CallView, h: Seq<EventView>)
    requires
        backup_project_context_next(c, h) is LogAction,
    ensures
        ({
            let a = backup_project_context_next(c, h);
            let before = backup_project_context_next(c, h.drop_last());
            &&& before is WriteFile
            &&& a->LogAction_action_type == "backup_project_context"@
            &&& c.principal is Some ==> a->LogAction_agent_id == c.principal->0.actor_label
            &&& text_field(a->LogAction_details, "backup_path"@) == Some(before->WriteFile_path)
            &&& a->LogAction_timestamp == c.now
            &&& text_field(c.arguments, "backup_name"@) is Some ==> a->LogAction_task_id
                == text_field(c.arguments, "backup_name"@)
        }),
{
    reveal_strlit("total_entries");
    reveal_strlit("backup_path");
    assert("total_entries"@.len() == 13);
    assert("backup_path"@.len() == 11);
    let d = h.drop_last();
    assert(forall|k: int| 0 <= k < d.len() ==> d[k] == h[k]);
}

/// A file in a directory: the directory, one slash, and the name.
pub proof fn files_lie_in_their_directory(dir: Seq<char>, name: Seq<char>)
    ensures
        dir.len() == 0 ==> inside(dir, name) == name,
        dir.len() > 0 && dir.last() != '/' ==> inside(dir, name) == dir + seq!['/'] + name,
        dir.len() > 0 && dir.last() == '/' ==> inside(dir, name) == dir + name,
{
    reveal_strlit("/");
    assert("/"@ =~= seq!['/']);
}

// ---------------------------------------------------------------------
// Deletions
// ---------------------------------------------------------------------

proof fn lemma_prefix(key: Seq<char>, pattern: Seq<char>, n: int)
    requires
        0 <= n < pattern.len(),
        pattern[n] == '_',
        forall|i: int| 0 <= i < n ==> #[trigger] pattern[i] != '_',
    ensures
        crate::context_deletion::before_underscore(pattern) == pattern.subrange(0, n),
    decreases n,
{
    if n == 0 {
        assert(pattern.subrange(0, 0) =~= Seq::empty());
    } else {
        let t = pattern.subrange(1, pattern.len() as int);
        assert forall|i: int| 0 <= i < n - 1 implies #[trigger] t[i] != '_' by {
            assert(pattern[i + 1] != '_');
        }
        lemma_prefix(key, t, n - 1);
        assert(seq![pattern[0]] + t.subrange(0, n - 1) =~= pattern.subrange(0, n));
    }
}

/// The system depends on the entries whose keys begin with `server_`,
/// `database_`, `system_` or `mcp_`, and on no others.
pub proof fn critical_keys_have_a_critical_beginning(key: Seq<char>)
    ensures
        is_critical(key) <==> begins_with(key, "server_"@) || begins_with(key, "database_"@)
            || begins_with(key, "system_"@) || begins_with(key, "mcp_"@),
{
    lemma_pattern_server(key);
    lemma_pattern_database(key);
    lemma_pattern_system(key);
    lemma_pattern_mcp(key);
}

proof fn lemma_pattern_server(key: Seq<char>)
    ensures
        falls_under(key, "server_startup"@) <==> begins_with(key, "server_"@),
{
    let pattern = "server_startup"@;
    reveal_strlit("server_startup");
    reveal_strlit("server_");
    reveal_strlit("_");
    lemma_prefix(key, pattern, 6);
    assert(pattern.subrange(0, 6) + "_"@ =~= "server_"@);
    assert(pattern.subrange(0, 7) =~= "server_"@);
}

proof fn lemma_pattern_database(key: Seq<char>)
    ensures
        falls_under(key, "database_version"@) <==> begins_with(key, "database_"@),
{
    let pattern = "database_version"@;
    reveal_strlit("database_version");
    reveal_strlit("database_");
    reveal_strlit("_");
    lemma_prefix(key, pattern, 8);
    assert(pattern.subrange(0, 8) + "_"@ =~= "database_"@);
    assert(pattern.subrange(0, 9) =~= "database_"@);
}

proof fn lemma_pattern_system(key: Seq<char>)
    ensures
        falls_under(key, "system_config"@) <==> begins_with(key, "system_"@),
{
    let pattern = "system_config"@;
    reveal_strlit("system_config");
    reveal_strlit("system_");
    reveal_strlit("_");
    lemma_prefix(key, pattern, 6);
    assert(pattern.subrange(0, 6) + "_"@ =~= "system_"@);
    assert(pattern.subrange(0, 7) =~= "system_"@);
}

proof fn lemma_pattern_mcp(key: Seq<char>)
    ensures
        falls_under(key, "mcp_server_url"@) <==> begins_with(key, "mcp_"@),
{
    let pattern = "mcp_server_url"@;
    reveal_strlit("mcp_server_url");
    reveal_strlit("mcp_");
    reveal_strlit("_");
    lemma_prefix(key, pattern, 3);
    assert(pattern.subrange(0, 3) + "_"@ =~= "mcp_"@);
    assert(pattern.subrange(0, 4) =~= "mcp_"@);
}

proof fn lemma_texts_among(v: Seq<JsonView>, k: Seq<char>)
    ensures
        texts_among(v).contains(k) <==> v.contains(JsonView::Text(k)),
    decreases v.len(),
{
    if v.len() > 0 {
        let front = v.drop_last();
        lemma_texts_among(front, k);
        if v.contains(JsonView::Text(k)) {
            let i = choose|i: int| 0 <= i < v.len() && v[i] == JsonView::Text(k);
            if i < front.len() {
                assert(front[i] == JsonView::Text(k));
                let j = choose|j: int| 0 <= j < texts_among(front).len() && texts_among(front)[j] == k;
                assert(texts_among(v)[j] == k);
            } else {
                assert(texts_among(v).last() == k);
            }
        }
        if texts_among(v).contains(k) {
            let j = choose|j: int| 0 <= j < texts_among(v).len() && texts_among(v)[j] == k;
            if j < texts_among(front).len() {
                assert(texts_among(front)[j] == k);
                let i = choose|i: int| 0 <= i < front.len() && front[i] == JsonView::Text(k);
                assert(v[i] == JsonView::Text(k));
            } else {
                assert(v[v.len() - 1] == JsonView::Text(k));
            }
        }
    }
}

/// The keys that a deletion is asked for are those that the call names: the one
/// under `context_key`, where it says something, and every text in the list
/// under `context_keys`; and these are the ones that are deleted.
pub proof fn the_named_keys_are_deleted(c: CallView, h: Seq<EventView>, k: Seq<char>)
    ensures
        named_keys(c.arguments).contains(k) <==> {
            ||| k.len() > 0 && text_field(c.arguments, "context_key"@) == Some(k)
            ||| list_field(c.arguments, "context_keys"@) is Some && list_field(
                c.arguments,
                "context_keys"@,
            )->0.contains(JsonView::Text(k))
        },
        delete_project_context_next(c, h) is DeleteContexts ==> delete_project_context_next(
            c,
            h,
        )->DeleteContexts_context_keys == named_keys(c.arguments),
{
    let one: Seq<Seq<char>> = match crate::agent_communication_tools::nonempty_field(
        c.arguments,
        "context_key"@,
    ) {
        Some(x) => seq![x],
        None => Seq::empty(),
    };
    let more: Seq<Seq<char>> = match list_field(c.arguments, "context_keys"@) {
        Some(v) => texts_among(v),
        None => Seq::empty(),
    };
    let all = named_keys(c.arguments);
    if list_field(c.arguments, "context_keys"@) is Some {
        lemma_texts_among(list_field(c.arguments, "context_keys"@)->0, k);
    }
    if all.contains(k) {
        let i = choose|i: int| 0 <= i < all.len() && all[i] == k;
        if i < one.len() {
            assert(one[i] == k);
        } else {
            assert(more[i - one.len()] == k);
        }
    }
    if one.contains(k) {
        let i = choose|i: int| 0 <= i < one.len() && one[i] == k;
        assert(all[i] == k);
    }
    if more.contains(k) {
        let i = choose|i: int| 0 <= i < more.len() && more[i] == k;
        assert(all[one.len() + i] == k);
    }
    if k.len() > 0 && text_field(c.arguments, "context_key"@) == Some(k) {
        assert(one[0] == k);
    }
    if delete_project_context_next(c, h) is DeleteContexts {
        crate::context_writing::lemma_gates_never_write(
            crate::context_writing::writer(c),
            all,
            0,
            is_operator(c.principal),
            h,
            0,
        );
    }
}

/// A deletion that names no key, a key of the settings, or a critical key that
/// it does not force, ends at once: nothing is read, nothing is deleted. It says
/// which argument is wrong.
pub proof fn improper_deletions_end_at_once(c: CallView, h: Seq<EventView>, k: Seq<char>)
    requires
        named_keys(c.arguments).contains(k),
    ensures
        is_config(k) ==> (delete_project_context_next(c, h) matches ActionView::Finish(
            ResultView::Invalid { field: f, .. },
        ) && f == Some("context_key"@)),
        is_critical(k) && bool_field(c.arguments, "force_delete"@) != Some(true) ==> (
        delete_project_context_next(c, h) matches ActionView::Finish(ResultView::Invalid { .. })),
{
    let keys = named_keys(c.arguments);
    let i = choose|i: int| 0 <= i < keys.len() && keys[i] == k;
    if is_config(k) {
        assert(is_config(keys[i]));
    }
    if is_critical(k) {
        lemma_critical_holds(keys, i);
    }
}

proof fn lemma_critical_holds(keys: Seq<Seq<char>>, i: int)
    requires
        0 <= i < keys.len(),
        is_critical(keys[i]),
    ensures
        critical_among(keys).contains(keys[i]),
        critical_among(keys).len() > 0,
    decreases keys.len(),
{
    let front = keys.drop_last();
    if i < front.len() {
        lemma_critical_holds(front, i);
        let j = choose|j: int|
            0 <= j < critical_among(front).len() && critical_among(front)[j] == keys[i];
        assert(critical_among(keys)[j] == keys[i]);
    } else {
        assert(critical_among(keys).last() == keys[i]);
    }
}

/// The critical keys of a deletion are those of its keys that are critical.
pub proof fn critical_keys_are_told(keys: Seq<Seq<char>>, k: Seq<char>)
    ensures
        critical_among(keys).contains(k) <==> keys.contains(k) && is_critical(k),
    decreases keys.len(),
{
    if keys.len() > 0 {
        let front = keys.drop_last();
        critical_keys_are_told(front, k);
        if keys.contains(k) && is_critical(k) {
            let i = choose|i: int| 0 <= i < keys.len() && keys[i] == k;
            lemma_critical_holds(keys, i);
        }
        if critical_among(keys).contains(k) {
            let j = choose|j: int| 0 <= j < critical_among(keys).len() && critical_among(keys)[j] == k;
            if j < critical_among(front).len() {
                assert(critical_among(front)[j] == k);
                let i = choose|i: int| 0 <= i < front.len() && front[i] == k;
                assert(keys[i] == k);
            } else {
                assert(keys[keys.len() - 1] == k);
            }
        }
    }
}

/// What was deleted is what the store gave back. It is entered into the audit
/// trail, key by key; what was indexed of every entry is dropped; those whom it
/// concerns are woken; and the answer counts the entries and names each. Where
/// the store gave nothing back, no such entry was found.
pub proof fn deletions_are_carried_through(
    c: CallView,
    h: Seq<EventView>,
    rows: Seq<ContextRowView>,
    i: int,
)
    requires
        delete_project_context_next(c, h) is DeleteContexts,
        0 <= i < rows.len(),
    ensures
        ({
            let g = h.push(EventView::Contexts(rows));
            let line = delete_project_context_next(c, g);
            let keys = list_field(line->LogAction_details, "deleted_keys"@);
            &&& line is LogAction
            &&& line->LogAction_action_type == "deleted_context"@
            &&& c.principal is Some ==> line->LogAction_agent_id == c.principal->0.actor_label
            &&& keys is Some && keys->0.len() == rows.len()
            &&& keys->0[i] == JsonView::Text(rows[i].context_key)
            &&& bool_field(line->LogAction_details, "force_delete"@) == Some(
                bool_field(c.arguments, "force_delete"@) == Some(true),
            )
            &&& field(line->LogAction_details, "total_deleted"@) == Some(
                int_json(rows.len() as int),
            )
            &&& line->LogAction_timestamp == c.now
            &&& forall|f: Seq<EventView>|
                f.len() == rows.len() + 1 ==> {
                    let wake = #[trigger] delete_project_context_next(c, g + f);
                    &&& wake is DeliverWakes && wake->bulk
                    &&& wake->DeliverWakes_context_keys.len() == rows.len()
                    &&& wake->DeliverWakes_context_keys[i] == rows[i].context_key
                }
            &&& forall|f: Seq<EventView>|
                f.len() == i + 1 ==> #[trigger] delete_project_context_next(c, g + f) == (
                ActionView::PurgeSource { context_key: rows[i].context_key })
            &&& forall|f: Seq<EventView>|
                f.len() == rows.len() + 2 ==> {
                    let r = #[trigger] delete_project_context_next(c, g + f);
                    let told = list_field(r->Finish_0->Success_data->0, "deleted_keys"@);
                    &&& r is Finish && r->Finish_0 is Success && r->Finish_0->Success_data is Some
                    &&& field(r->Finish_0->Success_data->0, "deleted_count"@) == Some(
                        int_json(rows.len() as int),
                    )
                    &&& told is Some && told->0.len() == rows.len() && told->0[i] == JsonView::Text(
                        rows[i].context_key,
                    )
                }
        }),
        delete_project_context_next(c, h.push(EventView::Contexts(Seq::empty()))) matches
            ActionView::Finish(ResultView::NotFound { .. }),
{
    reveal_strlit("deleted_keys");
    reveal_strlit("critical_keys_deleted");
    reveal_strlit("force_delete");
    reveal_strlit("total_deleted");
    reveal_strlit("deleted_count");
    reveal_strlit("wakes");
    assert("deleted_keys"@.len() == 12);
    assert("critical_keys_deleted"@.len() == 21);
    assert("force_delete"@.len() == 12);
    assert("total_deleted"@.len() == 13);
    assert("deleted_count"@.len() == 13);
    assert("wakes"@.len() == 5);
    assert("deleted_count"@[0] == 'd');
    assert("deleted_keys"@[0] == 'd');
    assert("force_delete"@[0] == 'f');
    assert("total_deleted"@[0] == 't');
    let keys = named_keys(c.arguments);
    let actor = crate::context_writing::writer(c);
    let admin = is_operator(c.principal);
    let g = h.push(EventView::Contexts(rows));
    let n = lemma_open(c, h);
    assert(h.len() == n);
    lemma_gate_extends(actor, keys, 0, admin, h, 0, g);
    assert(g[n] == EventView::Contexts(rows));
    let e = h.push(EventView::Contexts(Seq::empty()));
    lemma_gate_extends(actor, keys, 0, admin, h, 0, e);
    assert(e[n] == EventView::Contexts(Seq::empty()));
    assert forall|f: Seq<EventView>| f.len() == rows.len() + 1 implies {
        let wake = #[trigger] delete_project_context_next(c, g + f);
        &&& wake is DeliverWakes && wake->bulk
        &&& wake->DeliverWakes_context_keys.len() == rows.len()
        &&& wake->DeliverWakes_context_keys[i] == rows[i].context_key
    } by {
        lemma_gate_extends(actor, keys, 0, admin, h, 0, g + f);
        assert((g + f)[n] == EventView::Contexts(rows));
    }
    assert forall|f: Seq<EventView>| f.len() == i + 1 implies #[trigger] delete_project_context_next(
        c,
        g + f,
    ) == (ActionView::PurgeSource { context_key: rows[i].context_key }) by {
        lemma_gate_extends(actor, keys, 0, admin, h, 0, g + f);
        assert((g + f)[n] == EventView::Contexts(rows));
    }
    assert forall|f: Seq<EventView>| f.len() == rows.len() + 2 implies {
        let r = #[trigger] delete_project_context_next(c, g + f);
        let told = list_field(r->Finish_0->Success_data->0, "deleted_keys"@);
        &&& r is Finish && r->Finish_0 is Success && r->Finish_0->Success_data is Some
        &&& field(r->Finish_0->Success_data->0, "deleted_count"@) == Some(
            int_json(rows.len() as int),
        )
        &&& told is Some && told->0.len() == rows.len() && told->0[i] == JsonView::Text(
            rows[i].context_key,
        )
    } by {
        lemma_gate_extends(actor, keys, 0, admin, h, 0, g + f);
        assert((g + f)[n] == EventView::Contexts(rows));
    }
}

proof fn lemma_open(c: CallView, h: Seq<EventView>) -> (n: int)
    requires
        delete_project_context_next(c, h) is DeleteContexts,
    ensures
        crate::context_writing::authorize_from(
            crate::context_writing::writer(c),
            named_keys(c.arguments),
            0,
            is_operator(c.principal),
            h,
            0,
        ) == crate::context_writing::GateView::Open(n),
        n == h.len(),
{
    crate::context_writing::lemma_gates_never_write(
        crate::context_writing::writer(c),
        named_keys(c.arguments),
        0,
        is_operator(c.principal),
        h,
        0,
    );
    crate::context_writing::authorize_from(
        crate::context_writing::writer(c),
        named_keys(c.arguments),
        0,
        is_operator(c.principal),
        h,
        0,
    )->Open_0
}

/// A gate that is open stays open, at the same event, whatever comes after.
pub(crate) proof fn lemma_gate_extends(
    actor: Seq<char>,
    keys: Seq<Seq<char>>,
    i: int,
    admin: bool,
    h: Seq<EventView>,
    at: int,
    g: Seq<EventView>,
)
    requires
        0 <= i,
        0 <= at,
        g.len() >= h.len(),
        forall|k: int| 0 <= k < h.len() ==> g[k] == h[k],
        crate::context_writing::authorize_from(actor, keys, i, admin, h, at) is Open,
    ensures
        crate::context_writing::authorize_from(actor, keys, i, admin, g, at)
            == crate::context_writing::authorize_from(actor, keys, i, admin, h, at),
        crate::context_writing::authorize_from(actor, keys, i, admin, h, at)->Open_0 >= at,
    decreases keys.len() - i,
{
    if i < keys.len() {
        let first = crate::context_writing::authorize(actor, keys[i], admin, h, at);
        assert(first is Open);
        assert(crate::context_writing::authorize(actor, keys[i], admin, g, at) == first);
        lemma_gate_extends(actor, keys, i + 1, admin, h, first->Open_0, g);
    }
}

} // verus!

//! Tools that read the project context.

use crate::admin_tools::{is_true, str_or, text_or};
use crate::agent_communication_tools::{nonempty, nonempty_field};
use crate::context_health::{
    age, age_of, analyze_context_health, health_of, health_sign, health_status_icon, is_large,
    is_broken, is_stale, short_tenths, show_score, ContextHealthReport, HealthView,
    LARGE_ENTRY_CHARS, STALE_DAYS,
};
use crate::json::{
    json_problem, json_read, read_json,
    bool_field, decimal_json, int_field, int_json, jdecimal, jint, jlen, jopt, jtext, opt_json,
    text_field, Fields, Items, Json, JsonView,
};
use crate::protocol::{
    context_rows, db_error, db_error_text, done, done_view, events, failed, failed_view, Action,
    ActionView, Call, CallView, ContextRow, ContextRowView, Event, EventView, Stamp,
};
use crate::text::{
    add_line, borrow_opt, cat2, cat3, cat4, cat5, cat7, chars_of, comes_before, contains, decimal,
    decimal_int, first_n, holds, join, joined, length, no_lines, opt, own, own_opt, same, show_i64,
    show_u64, show_usize, text_before, text_of, text_order_is_strict, texts, title_case, titled,
};
use vstd::prelude::*;

verus! {

// ---------------------------------------------------------------------
// Which entries
// ---------------------------------------------------------------------

/// What a call of `view_project_context` asks for.
#[derive(Debug)]
pub struct ViewWish {
    pub context_key: Option<String>,
    pub search_query: Option<String>,
    pub show_health_analysis: bool,
    pub show_stale_entries: bool,
    pub include_backup_info: bool,
    pub max_results: usize,
    pub sort_by: String,
}

/// The meaning of what a call asks for.
pub struct WishView {
    pub context_key: Option<Seq<char>>,
    pub search_query: Option<Seq<char>>,
    pub show_health_analysis: bool,
    pub show_stale_entries: bool,
    pub include_backup_info: bool,
    pub max_results: int,
    pub sort_by: Seq<char>,
}

impl View for ViewWish {
    type V = WishView;

    open spec fn view(&self) -> WishView {
        WishView {
            context_key: opt(self.context_key),
            search_query: opt(self.search_query),
            show_health_analysis: self.show_health_analysis,
            show_stale_entries: self.show_stale_entries,
            include_backup_info: self.include_backup_info,
            max_results: self.max_results as int,
            sort_by: self.sort_by@,
        }
    }
}

/// `n` where it lies from 1 to 200, else the nearer end; fifty where none is
/// given.
pub open spec fn result_limit(n: Option<i64>) -> int {
    match n {
        Some(x) => if x < 1 {
            1
        } else if x > 200 {
            200
        } else {
            x as int
        },
        None => 50,
    }
}

/// What a call asks for. Entries are sorted by their time unless it says
/// otherwise; `last_updated` means `updated_at`.
pub open spec fn view_wish(args: JsonView) -> WishView {
    let sort = text_or(text_field(args, "sort_by"@), "updated_at"@);
    WishView {
        context_key: nonempty_field(args, "context_key"@),
        search_query: nonempty_field(args, "search_query"@),
        show_health_analysis: bool_field(args, "show_health_analysis"@) == Some(true),
        show_stale_entries: bool_field(args, "show_stale_entries"@) == Some(true),
        include_backup_info: bool_field(args, "include_backup_info"@) == Some(true),
        max_results: result_limit(int_field(args, "max_results"@)),
        sort_by: if sort == "last_updated"@ {
            "updated_at"@
        } else {
            sort
        },
    }
}

fn read_wish(args: &Json) -> (r: ViewWish)
    ensures
        r@ == view_wish(args@),
        1 <= r.max_results <= 200,
{
    let sort: &str = str_or(args.text_at("sort_by"), "updated_at");
    let max_results: usize = match args.int_at("max_results") {
        Some(x) => if x < 1 {
            1
        } else if x > 200 {
            200
        } else {
            x as usize
        },
        None => 50,
    };
    ViewWish {
        context_key: own_opt(nonempty(args, "context_key")),
        search_query: own_opt(nonempty(args, "search_query")),
        show_health_analysis: is_true(args.flag_at("show_health_analysis")),
        show_stale_entries: is_true(args.flag_at("show_stale_entries")),
        include_backup_info: is_true(args.flag_at("include_backup_info")),
        max_results,
        sort_by: if same(sort, "last_updated") {
            own("updated_at")
        } else {
            own(sort)
        },
    }
}

/// Whether an entry is one that is asked for: by its key where one is given,
/// else by a text that its key, description or value holds; and only stale
/// ones where those are asked for.
pub open spec fn wanted(e: ContextRowView, w: WishView, now: Stamp) -> bool {
    (match w.context_key {
        Some(k) => e.context_key == k,
        None => match w.search_query {
            Some(q) => holds(e.context_key, q) || holds(text_or(e.description, ""@), q) || holds(
                e.value,
                q,
            ),
            None => true,
        },
    }) && (!w.show_stale_entries || is_stale(e, now))
}

fn is_older_than_days(e: &ContextRow, now: Stamp, days: i64) -> (r: bool)
    ensures
        r == (age(e@, now) is Some && age(e@, now)->0 > days),
{
    match age_of(e, now) {
        Some(d) => d > days,
        None => false,
    }
}

fn is_wanted(e: &ContextRow, w: &ViewWish, now: Stamp) -> (r: bool)
    ensures
        r == wanted(e@, w@, now),
{
    let found: bool = match &w.context_key {
        Some(k) => same(e.context_key.as_str(), k.as_str()),
        None => match &w.search_query {
            Some(q) => contains(e.context_key.as_str(), q.as_str()) || contains(
                str_or(borrow_opt(&e.description), ""),
                q.as_str(),
            ) || contains(e.value.as_str(), q.as_str()),
            None => true,
        },
    };
    found && (!w.show_stale_entries || is_older_than_days(e, now, STALE_DAYS))
}

/// Whether `a` is to stand before `b`: by `size` the larger, by `key` the
/// smaller key, else the later.
pub open spec fn stands_before(sort: Seq<char>, a: ContextRowView, b: ContextRowView) -> bool {
    if sort == "size"@ {
        a.value.len() > b.value.len()
    } else if sort == "key"@ {
        text_before(a.context_key, b.context_key)
    } else {
        text_before(b.updated_at, a.updated_at)
    }
}

fn goes_before(sort: &str, a: &ContextRow, b: &ContextRow) -> (r: bool)
    ensures
        r == stands_before(sort@, a@, b@),
{
    if same(sort, "size") {
        length(a.value.as_str()) > length(b.value.as_str())
    } else if same(sort, "key") {
        comes_before(a.context_key.as_str(), b.context_key.as_str())
    } else {
        comes_before(b.updated_at.as_str(), a.updated_at.as_str())
    }
}

/// `x` put into a sorted list, behind every entry that it is not to stand
/// before.
pub open spec fn put_in(
    sort: Seq<char>,
    s: Seq<ContextRowView>,
    x: ContextRowView,
) -> Seq<ContextRowView>
    decreases s.len(),
{
    if s.len() > 0 && stands_before(sort, x, s.last()) {
        put_in(sort, s.drop_last(), x).push(s.last())
    } else {
        s.push(x)
    }
}

/// The entries that are asked for, sorted; entries between which the order
/// does not decide stand as they were found.
pub open spec fn chosen(
    rows: Seq<ContextRowView>,
    w: WishView,
    now: Stamp,
) -> Seq<ContextRowView>
    decreases rows.len(),
{
    if rows.len() == 0 {
        Seq::empty()
    } else if wanted(rows.last(), w, now) {
        put_in(w.sort_by, chosen(rows.drop_last(), w, now), rows.last())
    } else {
        chosen(rows.drop_last(), w, now)
    }
}

/// The entries that a call gets to see.
pub open spec fn shown_rows(
    rows: Seq<ContextRowView>,
    w: WishView,
    now: Stamp,
) -> Seq<ContextRowView> {
    first_n(chosen(rows, w, now), w.max_results)
}

/// Whether no entry of a list is to stand before the one in front of it.
pub open spec fn well_sorted(sort: Seq<char>, s: Seq<ContextRowView>) -> bool {
    forall|i: int|
        0 <= i < s.len() - 1 ==> !stands_before(sort, #[trigger] s[i + 1], s[i])
}

proof fn lemma_put_in(sort: Seq<char>, s: Seq<ContextRowView>, x: ContextRowView)
    requires
        well_sorted(sort, s),
    ensures
        well_sorted(sort, put_in(sort, s, x)),
        put_in(sort, s, x).len() == s.len() + 1,
        put_in(sort, s, x).last() == x || (s.len() > 0 && put_in(sort, s, x).last() == s.last()),
        put_in(sort, s, x).to_multiset() == s.to_multiset().insert(x),
    decreases s.len(),
{
    broadcast use vstd::seq_lib::group_to_multiset_ensures;

    if s.len() > 0 && stands_before(sort, x, s.last()) {
        let t = s.drop_last();
        assert(well_sorted(sort, t)) by {
            assert forall|i: int| 0 <= i < t.len() - 1 implies !stands_before(
                sort,
                #[trigger] t[i + 1],
                t[i],
            ) by {
                assert(t[i + 1] == s[i + 1]);
                assert(t[i] == s[i]);
            }
        }
        lemma_put_in(sort, t, x);
        let u = put_in(sort, t, x);
        text_order_is_strict(x.context_key, s.last().context_key);
        text_order_is_strict(x.updated_at, s.last().updated_at);
        assert(!stands_before(sort, s.last(), x));
        if t.len() > 0 {
            assert(!stands_before(sort, s[t.len() - 1 + 1], s[t.len() - 1]));
            assert(t.last() == s[t.len() - 1]);
        }
        let w = u.push(s.last());
        assert forall|i: int| 0 <= i < w.len() - 1 implies !stands_before(
            sort,
            #[trigger] w[i + 1],
            w[i],
        ) by {
            if i < u.len() - 1 {
                assert(w[i + 1] == u[i + 1]);
            } else {
                assert(w[i] == u.last());
            }
        }
        assert(s =~= t.push(s.last()));
    } else {
        let w = s.push(x);
        assert forall|i: int| 0 <= i < w.len() - 1 implies !stands_before(
            sort,
            #[trigger] w[i + 1],
            w[i],
        ) by {
            if i < s.len() - 1 {
                assert(w[i + 1] == s[i + 1]);
            } else {
                assert(w[i] == s.last());
            }
        }
    }
}

/// The entries that are shown are sorted as asked, are no more than asked for,
/// and are all entries that are asked for. Sorting loses no entry that is asked
/// for and shows none twice.
pub proof fn shown_rows_are_sorted_and_wanted(rows: Seq<ContextRowView>, w: WishView, now: Stamp)
    requires
        w.max_results >= 0,
    ensures
        chosen(rows, w, now).to_multiset() == rows.filter(
            |e: ContextRowView| wanted(e, w, now),
        ).to_multiset(),
        well_sorted(w.sort_by, shown_rows(rows, w, now)),
        shown_rows(rows, w, now).len() <= w.max_results,
        forall|i: int|
            0 <= i < shown_rows(rows, w, now).len() ==> wanted(
                #[trigger] shown_rows(rows, w, now)[i],
                w,
                now,
            ),
{
    lemma_chosen(rows, w, now);
    let c = chosen(rows, w, now);
    let s = shown_rows(rows, w, now);
    assert forall|i: int| 0 <= i < s.len() - 1 implies !stands_before(
        w.sort_by,
        #[trigger] s[i + 1],
        s[i],
    ) by {
        assert(s[i + 1] == c[i + 1]);
        assert(s[i] == c[i]);
    }
    assert forall|i: int| 0 <= i < s.len() implies wanted(#[trigger] s[i], w, now) by {
        assert(s[i] == c[i]);
    }
}

proof fn lemma_chosen(rows: Seq<ContextRowView>, w: WishView, now: Stamp)
    ensures
        well_sorted(w.sort_by, chosen(rows, w, now)),
        chosen(rows, w, now).to_multiset() == rows.filter(
            |e: ContextRowView| wanted(e, w, now),
        ).to_multiset(),
        forall|i: int|
            0 <= i < chosen(rows, w, now).len() ==> wanted(
                #[trigger] chosen(rows, w, now)[i],
                w,
                now,
            ),
    decreases rows.len(),
{
    broadcast use vstd::seq_lib::group_to_multiset_ensures;

    reveal(Seq::filter);
    if rows.len() > 0 {
        lemma_chosen(rows.drop_last(), w, now);
        let s = chosen(rows.drop_last(), w, now);
        if wanted(rows.last(), w, now) {
            lemma_put_in(w.sort_by, s, rows.last());
            lemma_put_in_wanted(w.sort_by, s, rows.last(), w, now);
        }
    }
}

proof fn lemma_put_in_wanted(
    sort: Seq<char>,
    s: Seq<ContextRowView>,
    x: ContextRowView,
    w: WishView,
    now: Stamp,
)
    requires
        wanted(x, w, now),
        forall|i: int| 0 <= i < s.len() ==> wanted(#[trigger] s[i], w, now),
    ensures
        forall|i: int|
            0 <= i < put_in(sort, s, x).len() ==> wanted(#[trigger] put_in(sort, s, x)[i], w, now),
    decreases s.len(),
{
    if s.len() > 0 && stands_before(sort, x, s.last()) {
        let t = s.drop_last();
        assert forall|i: int| 0 <= i < t.len() implies wanted(#[trigger] t[i], w, now) by {
            assert(t[i] == s[i]);
        }
        lemma_put_in_wanted(sort, t, x, w, now);
        let u = put_in(sort, t, x);
        assert(wanted(s[s.len() - 1], w, now));
        assert forall|i: int| 0 <= i < put_in(sort, s, x).len() implies wanted(
            #[trigger] put_in(sort, s, x)[i],
            w,
            now,
        ) by {
            if i < u.len() {
                assert(put_in(sort, s, x)[i] == u[i]);
            }
        }
    } else {
        assert forall|i: int| 0 <= i < put_in(sort, s, x).len() implies wanted(
            #[trigger] put_in(sort, s, x)[i],
            w,
            now,
        ) by {
            if i < s.len() {
                assert(put_in(sort, s, x)[i] == s[i]);
            }
        }
    }
}

/// The rows at the given positions.
pub open spec fn rows_at(rows: Seq<ContextRow>, order: Seq<usize>) -> Seq<ContextRowView> {
    order.map_values(|i: usize| rows[i as int]@)
}

fn sort_in(rows: &Vec<ContextRow>, sort: &str, order: &mut Vec<usize>, x: usize)
    requires
        x < rows@.len(),
        forall|i: int| 0 <= i < old(order)@.len() ==> #[trigger] old(order)@[i] < rows@.len(),
    ensures
        rows_at(rows@, final(order)@) == put_in(
            sort@,
            rows_at(rows@, old(order)@),
            rows@[x as int]@,
        ),
        forall|i: int| 0 <= i < final(order)@.len() ==> #[trigger] final(order)@[i] < rows@.len(),
{
    let ghost before = rows_at(rows@, order@);
    let ghost row = rows@[x as int]@;
    let mut j: usize = order.len();
    proof {
        assert(before.subrange(0, before.len() as int) =~= before);
        assert(put_in(sort@, before, row) =~= put_in(sort@, before, row) + before.subrange(
            before.len() as int,
            before.len() as int,
        ));
    }
    while j > 0 && goes_before(sort, &rows[x], &rows[order[j - 1]])
        invariant
            j <= order@.len(),
            x < rows@.len(),
            before == rows_at(rows@, order@),
            row == rows@[x as int]@,
            forall|i: int| 0 <= i < order@.len() ==> #[trigger] order@[i] < rows@.len(),
            put_in(sort@, before, row) == put_in(sort@, before.subrange(0, j as int), row)
                + before.subrange(j as int, before.len() as int),
        decreases j,
    {
        proof {
            let s = before.subrange(0, j as int);
            assert(s.drop_last() =~= before.subrange(0, j - 1));
            assert(s.last() == before[j - 1]);
            assert(put_in(sort@, s.drop_last(), row).push(s.last()) + before.subrange(
                j as int,
                before.len() as int,
            ) =~= put_in(sort@, s.drop_last(), row) + before.subrange(
                j - 1,
                before.len() as int,
            ));
        }
        j = j - 1;
    }
    let ghost old_order = order@;
    order.insert(j, x);
    proof {
        let s = before.subrange(0, j as int);
        assert(put_in(sort@, s, row) == s.push(row));
        assert(order@ =~= old_order.insert(j as int, x));
        assert(rows_at(rows@, order@) =~= s.push(row) + before.subrange(
            j as int,
            before.len() as int,
        ));
    }
}

fn choose_rows(rows: &Vec<ContextRow>, w: &ViewWish, now: Stamp) -> (r: Vec<usize>)
    ensures
        rows_at(rows@, r@) == shown_rows(context_rows(rows@), w@, now),
        forall|i: int| 0 <= i < r@.len() ==> #[trigger] r@[i] < rows@.len(),
{
    let mut order: Vec<usize> = Vec::new();
    let mut i: usize = 0;
    let ghost all = context_rows(rows@);
    proof {
        assert(rows_at(rows@, order@) =~= Seq::empty());
    }
    while i < rows.len()
        invariant
            all == context_rows(rows@),
            i <= rows@.len(),
            rows_at(rows@, order@) == chosen(all.subrange(0, i as int), w@, now),
            forall|k: int| 0 <= k < order@.len() ==> #[trigger] order@[k] < rows@.len(),
        decreases rows@.len() - i,
    {
        proof {
            let here = all.subrange(0, i + 1);
            assert(here.drop_last() =~= all.subrange(0, i as int));
            assert(here.last() == rows@[i as int]@);
        }
        if is_wanted(&rows[i], w, now) {
            sort_in(rows, w.sort_by.as_str(), &mut order, i);
        }
        i = i + 1;
    }
    proof {
        assert(all.subrange(0, all.len() as int) =~= all);
    }
    let ghost full = order@;
    order.truncate(w.max_results);
    proof {
        assert(rows_at(rows@, order@) =~= first_n(rows_at(rows@, full), w.max_results as int));
    }
    order
}

// ---------------------------------------------------------------------
// How an entry is shown
// ---------------------------------------------------------------------

/// What the value of an entry says; its text where it is no JSON.
pub open spec fn value_of(e: ContextRowView) -> JsonView {
    match json_read(e.value) {
        Ok(j) => j,
        Err(_) => JsonView::Text(e.value),
    }
}

/// A number of hundredths with two decimal places.
pub open spec fn hundredths_text(h: int) -> Seq<char> {
    decimal((h / 100) as nat) + "."@ + decimal((h / 10 % 10) as nat) + decimal((h % 10) as nat)
}

/// Kilobytes in hundredths; a half is rounded up.
pub open spec fn kilobytes(size: int) -> int {
    (size * 100 + 512) / 1024
}

/// Kilobytes in hundredths; a half is rounded to the even neighbour.
pub open spec fn even_kilobytes(size: int) -> int {
    let q = size * 100 / 1024;
    let r = size * 100 % 1024;
    if r > 512 || (r == 512 && q % 2 == 1) {
        q + 1
    } else {
        q
    }
}

fn show_hundredths(h: u64) -> (r: String)
    ensures
        r@ == hundredths_text(h as int),
{
    let a: String = show_u64(h / 100);
    let b: String = show_u64(h / 10 % 10);
    let c: String = show_u64(h % 10);
    cat4(a.as_str(), ".", b.as_str(), c.as_str())
}

fn kilobytes_of(size: usize) -> (r: u64)
    ensures
        r == kilobytes(size as int),
{
    let h: u128 = (size as u128 * 100 + 512) / 1024;
    h as u64
}

fn even_kilobytes_of(size: usize) -> (r: u64)
    ensures
        r == even_kilobytes(size as int),
{
    let n: u128 = size as u128 * 100;
    let q: u128 = n / 1024;
    let rest: u128 = n % 1024;
    if rest > 512 || (rest == 512 && q % 2 == 1) {
        (q + 1) as u64
    } else {
        q as u64
    }
}

/// The JSON form of an optional number.
pub open spec fn opt_int_json(n: Option<int>) -> JsonView {
    match n {
        Some(x) => int_json(x),
        None => JsonView::Null,
    }
}

/// An entry as a JSON object.
pub open spec fn entry_json(e: ContextRowView, now: Stamp) -> JsonView {
    JsonView::Object(
        map![
        "key"@ => JsonView::Text(e.context_key),
        "value"@ => value_of(e),
        "description"@ => opt_json(e.description),
        "updated_by"@ => JsonView::Text(e.updated_by),
        "updated_at"@ => JsonView::Text(e.updated_at),
        "created_by"@ => opt_json(e.created_by),
        "created_at"@ => opt_json(e.created_at),
        "_metadata"@ => JsonView::Object(map![
            "size_bytes"@ => int_json(e.value.len() as int),
            "size_kb"@ => decimal_json(hundredths_text(kilobytes(e.value.len() as int))),
            "json_valid"@ => JsonView::Bool(!is_broken(e)),
            "days_old"@ => opt_int_json(age(e, now)),
            "is_stale"@ => JsonView::Bool(is_stale(e, now)),
            "is_large"@ => JsonView::Bool(is_large(e))
        ])
    ],
    )
}

fn value_tree(e: &ContextRow) -> (r: Json)
    ensures
        r@ == value_of(e@),
{
    match read_json(e.value.as_str()) {
        Some(j) => j,
        None => jtext(e.value.as_str()),
    }
}

/// An entry as a JSON object.
pub fn view_entry_json(e: &ContextRow, now: Stamp) -> (r: Json)
    ensures
        r@ == entry_json(e@, now),
{
    let size: usize = length(e.value.as_str());
    let kb: String = show_hundredths(kilobytes_of(size));
    let days: Option<i64> = age_of(e, now);
    let mut m: Fields = Fields::new();
    m.put("size_bytes", jlen(size));
    m.put("size_kb", jdecimal(kb.as_str()));
    m.put("json_valid", Json::Bool(json_problem(e.value.as_str()).is_none()));
    match days {
        Some(d) => {
            m.put("days_old", jint(d));
        },
        None => {
            m.put("days_old", Json::Null);
        },
    }
    m.put("is_stale", Json::Bool(is_older_than_days(e, now, STALE_DAYS)));
    m.put("is_large", Json::Bool(size > LARGE_ENTRY_CHARS));
    let mut f: Fields = Fields::new();
    f.put("key", jtext(e.context_key.as_str()));
    f.put("value", value_tree(e));
    f.put("description", jopt(borrow_opt(&e.description)));
    f.put("updated_by", jtext(e.updated_by.as_str()));
    f.put("updated_at", jtext(e.updated_at.as_str()));
    f.put("created_by", jopt(borrow_opt(&e.created_by)));
    f.put("created_at", jopt(borrow_opt(&e.created_at)));
    f.put("_metadata", m.done());
    f.done()
}

/// What is remarkable about an entry.
pub open spec fn indicators(e: ContextRowView, now: Stamp) -> Seq<Seq<char>> {
    let a = if is_broken(e) {
        seq!["\u{274c} JSON_ERROR"@]
    } else {
        Seq::empty()
    };
    let b = if is_stale(e, now) {
        a.push("\u{23f0} STALE("@ + decimal_int(age(e, now)->0) + "d)"@)
    } else {
        a
    };
    if is_large(e) {
        b.push(
            "\u{1f4e6} LARGE("@ + hundredths_text(even_kilobytes(e.value.len() as int)) + "KB)"@,
        )
    } else {
        b
    }
}

fn indicator_list(e: &ContextRow, now: Stamp) -> (r: Vec<String>)
    ensures
        texts(r@) == indicators(e@, now),
{
    let mut out: Vec<String> = no_lines();
    if json_problem(e.value.as_str()).is_some() {
        add_line(&mut out, own("\u{274c} JSON_ERROR"));
        proof {
            assert(texts(out@) =~= seq!["\u{274c} JSON_ERROR"@]);
        }
    }
    match age_of(e, now) {
        Some(days) => {
            if days > STALE_DAYS {
                let n: String = show_i64(days);
                add_line(&mut out, cat3("\u{23f0} STALE(", n.as_str(), "d)"));
            }
        },
        None => {},
    }
    let size: usize = length(e.value.as_str());
    if size > LARGE_ENTRY_CHARS {
        let kb: String = show_hundredths(even_kilobytes_of(size));
        add_line(&mut out, cat3("\u{1f4e6} LARGE(", kb.as_str(), "KB)"));
    }
    out
}

/// The value of an entry as it is shown, before it is cut.
pub open spec fn whole_value(e: ContextRowView) -> Seq<char> {
    match json_read(e.value) {
        Ok(j) => if j is Object || j is List {
            crate::json::pretty_text(j)
        } else {
            e.scalar_text
        },
        Err(_) => e.value,
    }
}

/// The value of an entry as it is shown: at most five hundred characters.
pub open spec fn shown_value(e: ContextRowView) -> Seq<char> {
    let v = whole_value(e);
    if v.len() > 500 {
        v.subrange(0, 500) + "... [TRUNCATED]"@
    } else {
        v
    }
}

fn show_value(e: &ContextRow) -> (r: String)
    ensures
        r@ == shown_value(e@),
{
    let whole: String = match read_json(e.value.as_str()) {
        Some(j) => match &j {
            Json::Object(_) => j.pretty(),
            Json::List(_) => j.pretty(),
            _ => own(e.scalar_text.as_str()),
        },
        None => own(e.value.as_str()),
    };
    let v: Vec<char> = chars_of(whole.as_str());
    if v.len() > 500 {
        let head: String = text_of(&v, 0, 500);
        cat2(head.as_str(), "... [TRUNCATED]")
    } else {
        whole
    }
}

/// The lines that show an entry.
pub open spec fn entry_lines(e: ContextRowView, now: Stamp) -> Seq<Seq<char>> {
    let signs = indicators(e, now);
    let a = seq![
        "**"@ + e.context_key + "**"@ + (if signs.len() == 0 {
            ""@
        } else {
            " "@ + joined(signs, " "@)
        }),
        "  Description: "@ + text_or(e.description, "No description"@),
        "  Updated: "@ + e.updated_at + " by "@ + e.updated_by,
    ];
    let b = match e.created_by {
        Some(who) => a.push(
            "  Created: "@ + text_or(e.created_at, "Unknown"@) + " by "@ + who,
        ),
        None => a,
    };
    b.push("  Value: "@ + shown_value(e)).push(""@)
}

fn entry_text(e: &ContextRow, now: Stamp, out: &mut Vec<String>)
    ensures
        texts(final(out)@) == texts(old(out)@) + entry_lines(e@, now),
{
    let ghost before = texts(out@);
    let signs: Vec<String> = indicator_list(e, now);
    proof {
        assert(texts(signs@).len() == signs@.len());
    }
    let tail: String = if signs.len() == 0 {
        own("")
    } else {
        let list: String = join(&signs, " ");
        cat2(" ", list.as_str())
    };
    add_line(out, cat4("**", e.context_key.as_str(), "**", tail.as_str()));
    add_line(out, cat2("  Description: ", str_or(borrow_opt(&e.description), "No description")));
    add_line(out, cat4("  Updated: ", e.updated_at.as_str(), " by ", e.updated_by.as_str()));
    match &e.created_by {
        Some(who) => {
            add_line(
                out,
                cat4(
                    "  Created: ",
                    str_or(borrow_opt(&e.created_at), "Unknown"),
                    " by ",
                    who.as_str(),
                ),
            );
        },
        None => {},
    }
    let value: String = show_value(e);
    add_line(out, cat2("  Value: ", value.as_str()));
    add_line(out, own(""));
    proof {
        assert(texts(out@) =~= before + entry_lines(e@, now));
    }
}

/// The lines that show entries, one after the other.
pub open spec fn entries_lines(s: Seq<ContextRowView>, now: Stamp) -> Seq<Seq<char>>
    decreases s.len(),
{
    if s.len() == 0 {
        Seq::empty()
    } else {
        entries_lines(s.drop_last(), now) + entry_lines(s.last(), now)
    }
}

// ---------------------------------------------------------------------
// The message
// ---------------------------------------------------------------------

/// The filters of a call in words.
pub open spec fn filter_words(w: WishView) -> Seq<Seq<char>> {
    let a = match w.context_key {
        Some(k) => seq!["key='"@ + k + "'"@],
        None => Seq::empty(),
    };
    let b = match w.search_query {
        Some(q) => a.push("search='"@ + q + "'"@),
        None => a,
    };
    if w.show_stale_entries {
        b.push("stale_only=true"@)
    } else {
        b
    }
}

/// The head of the message.
pub open spec fn view_header(n: int, w: WishView) -> Seq<char> {
    let words = filter_words(w);
    "Project Context ("@ + decimal(n as nat) + " entries"@ + (if words.len() == 0 {
        ""@
    } else {
        ", filtered by: "@ + joined(words, ", "@)
    }) + ", sorted by: "@ + w.sort_by + ")"@ + "\n"@
}

fn header(n: usize, w: &ViewWish) -> (r: String)
    ensures
        r@ == view_header(n as int, w@),
{
    let mut words: Vec<String> = no_lines();
    match &w.context_key {
        Some(k) => {
            add_line(&mut words, cat3("key='", k.as_str(), "'"));
            proof {
                assert(texts(words@) =~= seq!["key='"@ + k@ + "'"@]);
            }
        },
        None => {},
    }
    match &w.search_query {
        Some(q) => {
            add_line(&mut words, cat3("search='", q.as_str(), "'"));
        },
        None => {},
    }
    if w.show_stale_entries {
        add_line(&mut words, own("stale_only=true"));
    }
    proof {
        assert(texts(words@) =~= filter_words(w@));
        assert(texts(words@).len() == words@.len());
    }
    let filters: String = if words.len() == 0 {
        own("")
    } else {
        let list: String = join(&words, ", ");
        cat2(", filtered by: ", list.as_str())
    };
    let count: String = show_usize(n);
    let start: String = cat4("Project Context (", count.as_str(), " entries", filters.as_str());
    cat5(start.as_str(), ", sorted by: ", w.sort_by.as_str(), ")", "\n")
}

/// The lines on the health of the context.
pub open spec fn health_lines(h: HealthView) -> Seq<Seq<char>> {
    let a = seq![
        "\u{1f4ca} **Context Health:** "@ + health_sign(h.status) + " "@ + titled(h.status) + " ("@
            + short_tenths(h.health_score) + "/100)"@,
        "   Total: "@ + decimal_int(h.total) + " entries"@,
        "   Issues: "@ + decimal_int(h.json_errors) + " JSON errors, "@ + decimal_int(
            h.stale_entries,
        ) + " stale, "@ + decimal_int(h.large_entries) + " large"@,
    ];
    let b = if h.recommendations.len() > 0 {
        a.push("   \u{1f4a1} "@ + h.recommendations[0])
    } else {
        a
    };
    b.push(""@)
}

fn health_text(h: &ContextHealthReport, out: &mut Vec<String>)
    ensures
        texts(final(out)@) == texts(old(out)@) + health_lines(h@),
{
    let ghost before = texts(out@);
    let title: String = title_case(h.status.as_str());
    let score: String = show_score(h.health_score);
    let total: String = show_usize(h.total);
    let errors: String = show_usize(h.json_errors);
    let stale: String = show_usize(h.stale_entries);
    let large: String = show_usize(h.large_entries);
    let start: String = cat4(
        "\u{1f4ca} **Context Health:** ",
        health_status_icon(h.status.as_str()),
        " ",
        title.as_str(),
    );
    add_line(out, cat4(start.as_str(), " (", score.as_str(), "/100)"));
    add_line(out, cat3("   Total: ", total.as_str(), " entries"));
    add_line(
        out,
        cat7(
            "   Issues: ",
            errors.as_str(),
            " JSON errors, ",
            stale.as_str(),
            " stale, ",
            large.as_str(),
            " large",
        ),
    );
    if h.recommendations.len() > 0 {
        add_line(out, cat2("   \u{1f4a1} ", h.recommendations[0].as_str()));
    }
    add_line(out, own(""));
    proof {
        assert(texts(h.recommendations@).len() == h.recommendations@.len());
        assert(texts(out@) =~= before + health_lines(h@));
    }
}

/// The lines of the message: its head, the health of the whole context and a
/// word on backups where they are asked for, the first twenty entries, and
/// tips.
pub open spec fn view_lines(
    shown: Seq<ContextRowView>,
    w: WishView,
    all: Seq<ContextRowView>,
    now: Stamp,
) -> Seq<Seq<char>> {
    let a = seq![view_header(shown.len() as int, w)];
    let b = if w.show_health_analysis {
        a + health_lines(health_of(all, now))
    } else {
        a
    };
    let c = if w.include_backup_info {
        b.push(
            "\u{1f4be} **Backup Info:** Use bulk_update_project_context for backups"@,
        ).push(""@)
    } else {
        b
    };
    let d = c + entries_lines(first_n(shown, 20), now);
    let e = if shown.len() > 20 {
        d.push("... and "@ + decimal((shown.len() - 20) as nat) + " more entries"@).push(
            "Use max_results parameter to see more, or add filters to narrow results"@,
        )
    } else {
        d
    };
    let f = e.push("\n\u{1f4a1} Smart Tips:"@);
    let g = if !w.show_health_analysis {
        f.push("\u{2022} Add show_health_analysis=true for context health metrics"@)
    } else {
        f
    };
    let h = if !w.show_stale_entries {
        g.push("\u{2022} Add show_stale_entries=true to see entries needing updates"@)
    } else {
        g
    };
    h.push("\u{2022} Use sort_by=[key|size|updated_at] for different sorting"@).push(
        "\u{2022} Use validate_context_consistency to fix JSON errors"@,
    )
}

/// The message of `view_project_context`.
pub open spec fn view_message(
    shown: Seq<ContextRowView>,
    w: WishView,
    all: Seq<ContextRowView>,
    now: Stamp,
) -> Seq<char> {
    if shown.len() == 0 {
        "No project context entries found matching the criteria."@
    } else {
        joined(view_lines(shown, w, all, now), "\n"@)
    }
}

/// The message of `view_project_context`, on the rows at the positions of
/// `order`.
pub fn render_view_message(
    rows: &Vec<ContextRow>,
    order: &Vec<usize>,
    w: &ViewWish,
    now: Stamp,
) -> (r: String)
    requires
        forall|i: int| 0 <= i < order@.len() ==> #[trigger] order@[i] < rows@.len(),
    ensures
        r@ == view_message(rows_at(rows@, order@), w@, context_rows(rows@), now),
{
    let ghost shown = rows_at(rows@, order@);
    if order.len() == 0 {
        return own("No project context entries found matching the criteria.");
    }
    let mut parts: Vec<String> = no_lines();
    add_line(&mut parts, header(order.len(), w));
    proof {
        assert(texts(parts@) =~= seq![view_header(shown.len() as int, w@)]);
    }
    if w.show_health_analysis {
        let health: ContextHealthReport = analyze_context_health(rows, now);
        health_text(&health, &mut parts);
    }
    if w.include_backup_info {
        add_line(
            &mut parts,
            own("\u{1f4be} **Backup Info:** Use bulk_update_project_context for backups"),
        );
        add_line(&mut parts, own(""));
    }
    let ghost before = texts(parts@);
    let count: usize = if order.len() > 20 {
        20
    } else {
        order.len()
    };
    let mut i: usize = 0;
    proof {
        assert(texts(parts@) =~= before + entries_lines(shown.subrange(0, 0), now));
    }
    while i < count
        invariant
            i <= count <= order@.len(),
            shown == rows_at(rows@, order@),
            forall|k: int| 0 <= k < order@.len() ==> #[trigger] order@[k] < rows@.len(),
            texts(parts@) == before + entries_lines(shown.subrange(0, i as int), now),
        decreases count - i,
    {
        proof {
            let here = shown.subrange(0, i + 1);
            assert(here.drop_last() =~= shown.subrange(0, i as int));
            assert(here.last() == rows@[order@[i as int] as int]@);
            let x = entries_lines(here.drop_last(), now);
            let y = entry_lines(here.last(), now);
            assert(before + (x + y) =~= before + x + y);
        }
        entry_text(&rows[order[i]], now, &mut parts);
        i = i + 1;
    }
    proof {
        assert(shown.subrange(0, count as int) =~= first_n(shown, 20));
    }
    if order.len() > 20 {
        let rest: String = show_usize(order.len() - 20);
        add_line(&mut parts, cat3("... and ", rest.as_str(), " more entries"));
        add_line(
            &mut parts,
            own("Use max_results parameter to see more, or add filters to narrow results"),
        );
    }
    add_line(&mut parts, own("\n\u{1f4a1} Smart Tips:"));
    if !w.show_health_analysis {
        add_line(
            &mut parts,
            own("\u{2022} Add show_health_analysis=true for context health metrics"),
        );
    }
    if !w.show_stale_entries {
        add_line(
            &mut parts,
            own("\u{2022} Add show_stale_entries=true to see entries needing updates"),
        );
    }
    add_line(
        &mut parts,
        own("\u{2022} Use sort_by=[key|size|updated_at] for different sorting"),
    );
    add_line(
        &mut parts,
        own("\u{2022} Use validate_context_consistency to fix JSON errors"),
    );
    join(&parts, "\n")
}

// ---------------------------------------------------------------------
// view_project_context
// ---------------------------------------------------------------------

/// The outcome of `view_project_context`.
pub open spec fn view_outcome(rows: Seq<ContextRowView>, w: WishView, now: Stamp) -> ActionView {
    let shown = shown_rows(rows, w, now);
    done_view(
        JsonView::Object(
            map![
            "entries"@ => JsonView::List(
                shown.map_values(|e: ContextRowView| entry_json(e, now)),
            ),
            "count"@ => int_json(shown.len() as int),
            "filters"@ => JsonView::Object(map![
                "context_key"@ => opt_json(w.context_key),
                "search_query"@ => opt_json(w.search_query),
                "show_stale_entries"@ => JsonView::Bool(w.show_stale_entries),
                "sort_by"@ => JsonView::Text(w.sort_by),
                "max_results"@ => int_json(w.max_results)
            ])
        ],
        ),
        view_message(shown, w, rows, now),
    )
}

/// The dialogue of `view_project_context`.
pub open spec fn view_project_context_next(c: CallView, h: Seq<EventView>) -> ActionView {
    if h.len() == 0 {
        ActionView::ListContexts
    } else {
        match h[0] {
            EventView::Contexts(rows) => match c.instant {
                Some(now) => view_outcome(rows, view_wish(c.arguments), now),
                None => failed_view("Internal clock error"@),
            },
            _ => failed_view(db_error_text()),
        }
    }
}

/// `view_project_context`: entries of the project context.
pub struct ViewProjectContextTool;

impl ViewProjectContextTool {
    fn outcome(rows: &Vec<ContextRow>, w: &ViewWish, now: Stamp) -> (r: Action)
        ensures
            r@ == view_outcome(context_rows(rows@), w@, now),
    {
        let order: Vec<usize> = choose_rows(rows, w, now);
        let ghost shown = rows_at(rows@, order@);
        let mut items: Items = Items::new();
        let mut i: usize = 0;
        while i < order.len()
            invariant
                i <= order@.len(),
                shown == rows_at(rows@, order@),
                forall|k: int| 0 <= k < order@.len() ==> #[trigger] order@[k] < rows@.len(),
                items@.len() == i,
                forall|k: int| 0 <= k < i ==> #[trigger] items@[k] == entry_json(shown[k], now),
            decreases order@.len() - i,
        {
            items.push(view_entry_json(&rows[order[i]], now));
            i = i + 1;
        }
        proof {
            assert(items@ =~= shown.map_values(|e: ContextRowView| entry_json(e, now)));
        }
        let message: String = render_view_message(rows, &order, w, now);
        let mut filters: Fields = Fields::new();
        filters.put("context_key", jopt(borrow_opt(&w.context_key)));
        filters.put("search_query", jopt(borrow_opt(&w.search_query)));
        filters.put("show_stale_entries", Json::Bool(w.show_stale_entries));
        filters.put("sort_by", jtext(w.sort_by.as_str()));
        filters.put("max_results", jlen(w.max_results));
        let mut f: Fields = Fields::new();
        f.put("entries", items.done());
        f.put("count", jlen(order.len()));
        f.put("filters", filters.done());
        done(f.done(), message)
    }

    /// What to do after `history`.
    pub fn next(call: &Call, history: &Vec<Event>) -> (r: Action)
        ensures
            r@ == view_project_context_next(call@, events(history@)),
    {
        if history.len() == 0 {
            return Action::ListContexts;
        }
        match &history[0] {
            Event::Contexts(rows) => match call.instant {
                Some(now) => {
                    let w: ViewWish = read_wish(&call.arguments);
                    ViewProjectContextTool::outcome(rows, &w, now)
                },
                None => failed("Internal clock error"),
            },
            _ => db_error(),
        }
    }
}

} // verus!

//! How JSON is read and written, and what events and endings say.

use crate::json::{
    bool_field, decimal_json, field, int_field, int_json, int_of_number, json_view, list_field,
    number_of_int, number_of_text, object_view, opt_json, text_field, texts_json, Field, JsonView,
};
use crate::protocol::{
    action_rows, agent_rows, conflict_view, context_rows, denied_view, done_view, events,
    failed_view, first_failed, invalid_view, is_failure, message_rows, not_found_view, task_rows,
    ActionRow, ActionView, AgentRow, ContextRow, Event, EventView, MessageRow, ResultView, TaskRow,
};
use vstd::prelude::*;

verus! {

/// A field of an object is what the object has under that name, and each sort of
/// value is read as that sort alone; what is no object has no fields.
pub proof fn fields_are_read_by_name(m: Map<Seq<char>, JsonView>, k: Seq<char>, j: JsonView)
    ensures
        ({
            let o = JsonView::Object(m);
            let there = m.dom().contains(k);
            &&& there ==> field(o, k) == Some(m[k])
            &&& !there ==> field(o, k) is None
            &&& (there && m[k] is Text) ==> text_field(o, k) == Some(m[k]->Text_0)
            &&& !(there && m[k] is Text) ==> text_field(o, k) is None
            &&& (there && m[k] is Bool) ==> bool_field(o, k) == Some(m[k]->Bool_0)
            &&& !(there && m[k] is Bool) ==> bool_field(o, k) is None
            &&& (there && m[k] is List) ==> list_field(o, k) == Some(m[k]->List_0)
            &&& !(there && m[k] is List) ==> list_field(o, k) is None
            &&& (there && m[k] is Num) ==> int_field(o, k) == int_of_number(m[k]->Num_0)
            &&& !(there && m[k] is Num) ==> int_field(o, k) is None
            &&& !(j is Object) ==> field(j, k) is None
        }),
{
}

/// Values are written as what they are: numbers as numbers, texts as texts,
/// nothing as null, and lists of texts text by text.
pub proof fn values_are_written_as_they_are(
    n: int,
    s: Seq<char>,
    v: Seq<Seq<char>>,
    i: int,
)
    ensures
        int_json(n) == JsonView::Num(number_of_int(n)),
        opt_json(Some(s)) == JsonView::Text(s),
        opt_json(None) == JsonView::Null,
        number_of_text(s) is Some ==> decimal_json(s) == JsonView::Num(number_of_text(s)->0),
        texts_json(v) is List,
        texts_json(v)->List_0.len() == v.len(),
        0 <= i < v.len() ==> texts_json(v)->List_0[i] == JsonView::Text(v[i]),
{
}

/// An object holds each of its fields under the name of the field; of two with
/// one name the later counts.
pub proof fn objects_hold_their_fields(s: Seq<Field>, i: int)
    requires
        0 <= i < s.len(),
        forall|k: int| i < k < s.len() ==> (#[trigger] s[k]).key@ != s[i].key@,
    ensures
        object_view(s).dom().contains(s[i].key@),
        object_view(s)[s[i].key@] == json_view(s[i].value),
    decreases s.len(),
{
    let t = s.subrange(0, s.len() - 1);
    if i < s.len() - 1 {
        assert forall|k: int| i < k < t.len() implies (#[trigger] t[k]).key@ != t[i].key@ by {
            assert(t[k] == s[k]);
        }
        objects_hold_their_fields(t, i);
        assert(s[s.len() - 1].key@ != s[i].key@);
    }
}

/// An object has no field but those that were put into it.
pub proof fn objects_hold_no_other_fields(s: Seq<Field>, k: Seq<char>)
    requires
        object_view(s).dom().contains(k),
    ensures
        exists|i: int| 0 <= i < s.len() && (#[trigger] s[i]).key@ == k,
    decreases s.len(),
{
    if s.len() > 0 {
        let t = s.subrange(0, s.len() - 1);
        if s[s.len() - 1].key@ != k {
            objects_hold_no_other_fields(t, k);
            let i = choose|i: int| 0 <= i < t.len() && (#[trigger] t[i]).key@ == k;
            assert(s[i].key@ == k);
        }
    }
}

/// The first failure among some events is one of them, and none before it is
/// one; where there is none, none of them is.
pub proof fn the_first_failure_is_found(h: Seq<EventView>, from: int, n: int, k: int)
    requires
        0 <= from,
        0 <= k < n,
        from + k < h.len(),
    ensures
        first_failed(h, from, n) matches Some(i) ==> {
            &&& 0 <= i < n
            &&& h[from + i] is Failed || h[from + i] is Error
            &&& k < i ==> !(h[from + k] is Failed) && !(h[from + k] is Error)
        },
        first_failed(h, from, n) is None ==> !(h[from + k] is Failed) && !(h[from + k] is Error),
    decreases n,
{
    if k < n - 1 {
        the_first_failure_is_found(h, from, n - 1, k);
    } else {
        lemma_found(h, from, n - 1);
    }
}

proof fn lemma_found(h: Seq<EventView>, from: int, n: int)
    requires
        0 <= from,
    ensures
        first_failed(h, from, n) matches Some(i) ==> 0 <= i < n && from + i < h.len() && (
        h[from + i] is Failed || h[from + i] is Error),
    decreases n,
{
    if n > 0 {
        lemma_found(h, from, n - 1);
    }
}

/// An event is a failure where it says so, with or without a reason, and is none
/// otherwise.
pub proof fn failures_say_so(e: EventView)
    ensures
        is_failure(e) <==> e is Failed || e is Error,
{
}

/// Each ending of a call is of its own sort, and carries what it was given.
pub proof fn endings_carry_what_they_are_given(
    data: JsonView,
    a: Seq<char>,
    b: Seq<char>,
    at: Option<Seq<char>>,
)
    ensures
        done_view(data, a) == ActionView::Finish(
            ResultView::Success { data: Some(data), message: Some(a) },
        ),
        invalid_view(at, a) == ActionView::Finish(ResultView::Invalid { field: at, message: a }),
        not_found_view(a, b) == ActionView::Finish(
            ResultView::NotFound { resource: a, identifier: b, hint: None },
        ),
        conflict_view(a) == ActionView::Finish(ResultView::Conflict { reason: a }),
        denied_view(a) == ActionView::Finish(ResultView::PermissionDenied { reason: a }),
        failed_view(a) == ActionView::Finish(ResultView::Failed { message: a }),
{
}

/// Lists are seen item by item, in their order.
pub proof fn lists_are_seen_item_by_item(
    a: Seq<AgentRow>,
    b: Seq<ActionRow>,
    c: Seq<TaskRow>,
    d: Seq<MessageRow>,
    e: Seq<ContextRow>,
    f: Seq<Event>,
    i: int,
)
    ensures
        agent_rows(a).len() == a.len(),
        0 <= i < a.len() ==> agent_rows(a)[i] == a[i]@,
        action_rows(b).len() == b.len(),
        0 <= i < b.len() ==> action_rows(b)[i] == b[i]@,
        task_rows(c).len() == c.len(),
        0 <= i < c.len() ==> task_rows(c)[i] == c[i]@,
        message_rows(d).len() == d.len(),
        0 <= i < d.len() ==> message_rows(d)[i] == d[i]@,
        context_rows(e).len() == e.len(),
        0 <= i < e.len() ==> context_rows(e)[i] == e[i]@,
        events(f).len() == f.len(),
        0 <= i < f.len() ==> events(f)[i] == f[i]@,
{
}

} // verus!

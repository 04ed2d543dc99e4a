//! What becomes of messages: what is stored, what is read, and who is told.

use crate::agent_communication_tools::{
    all_lines, broadcast_admin_message_next, broadcast_from, broadcast_recipients,
    fetch_events_since_next, gets_broadcasts, get_agent_messages_next, is_reply_subject,
    message_lines, send_agent_message_next, send_step, unread_ids, SendingView,
};
use crate::json::{bool_field, field, int_field, int_json, list_field, text_field, JsonView};
use crate::principal::{caller_agent, caller_has, Capability};
use crate::protocol::{
    ActionView, AgentRowView, CallView, EventView, MessageRowView, OutgoingMessageView, ResultView,
};
use crate::text::{holds, is_space, joined, trim_front};
use crate::text_laws::{joined_texts_hold_every_part, parts_of_parts_are_held, sums_hold_their_parts};
use vstd::prelude::*;

verus! {

/// The text of an argument that must not be empty.
pub open spec fn says(args: JsonView, key: Seq<char>) -> bool {
    text_field(args, key) is Some && text_field(args, key)->0.len() > 0
}

/// A message is stored as its sender wrote it. Whenever a call asks to store
/// one, its text, recipient, subject and parent are those of the call's
/// arguments; so are its type and priority, or `text` and `normal` where the
/// call names none. Whether workers may write to workers is what the switch
/// said, and it is on where that could not be read.
pub proof fn messages_are_stored_as_written(c: CallView, h: Seq<EventView>)
    requires
        send_agent_message_next(c, h) is SendMessage,
    ensures
        ({
            let m = send_agent_message_next(c, h)->SendMessage_0;
            &&& text_field(c.arguments, "message"@) == Some(m.message_content)
            &&& text_field(c.arguments, "recipient_id"@) == Some(m.recipient_id)
            &&& m.message_content.len() > 0 && m.recipient_id.len() > 0
            &&& m.subject == text_field(c.arguments, "subject"@)
            &&& m.parent_message_id == text_field(c.arguments, "parent_message_id"@)
            &&& text_field(c.arguments, "message_type"@) is Some ==> Some(m.message_type)
                == text_field(c.arguments, "message_type"@)
            &&& text_field(c.arguments, "message_type"@) is None ==> m.message_type == "text"@
            &&& text_field(c.arguments, "priority"@) is Some ==> Some(m.priority) == text_field(
                c.arguments,
                "priority"@,
            )
            &&& text_field(c.arguments, "priority"@) is None ==> m.priority == "normal"@
            &&& m.now == c.now
            &&& h.len() == 1
            &&& m.allow_worker_to_worker <==> h[0] != EventView::Changed(false)
        }),
{
}

/// A call with a sender, a recipient and a text goes through: the switch is
/// read, and then the message is stored. Without a recipient or a text the call
/// ends at once, and says which is missing; without a sender it is refused.
pub proof fn proper_messages_are_sent(c: CallView, e: EventView, h: Seq<EventView>)
    ensures
        c.principal is Some && says(c.arguments, "recipient_id"@) && says(c.arguments, "message"@)
            ==> send_agent_message_next(c, Seq::empty()) == (ActionView::GetSwitch {
            key: "config_allow_worker_to_worker"@,
            default_on: true,
        }) && send_agent_message_next(c, seq![e]) is SendMessage,
        c.principal is Some && !says(c.arguments, "recipient_id"@) ==> (send_agent_message_next(
            c,
            h,
        ) matches ActionView::Finish(ResultView::Invalid { field: f, .. }) && f == Some(
            "recipient_id"@,
        )),
        c.principal is Some && says(c.arguments, "recipient_id"@) && !says(
            c.arguments,
            "message"@,
        ) ==> (send_agent_message_next(c, h) matches ActionView::Finish(
            ResultView::Invalid { field: f, .. },
        ) && f == Some("message"@)),
        c.principal is None ==> (send_agent_message_next(c, h) matches ActionView::Finish(
            ResultView::PermissionDenied { .. },
        )),
{
}

/// A message that was stored is entered into the audit trail in the sender's
/// name, with its recipient, type, priority and id; then its recipient is woken,
/// and nobody else.
pub proof fn stored_messages_are_audited_and_wake_their_recipient(
    c: CallView,
    h: Seq<EventView>,
    message_id: Seq<char>,
)
    requires
        c.principal is Some,
        says(c.arguments, "recipient_id"@),
        says(c.arguments, "message"@),
        h.len() == 2,
        h[1] == (EventView::MessageSent { message_id }),
    ensures
        ({
            let line = send_agent_message_next(c, h);
            let to = text_field(c.arguments, "recipient_id"@);
            &&& line is LogAction
            &&& line->LogAction_agent_id == c.principal->0.sender_label
            &&& line->LogAction_action_type == "send_message"@
            &&& line->LogAction_timestamp == c.now
            &&& text_field(line->LogAction_details, "recipient"@) == to
            &&& text_field(line->LogAction_details, "message_id"@) == Some(message_id)
            &&& text_field(c.arguments, "message_type"@) is Some ==> text_field(
                line->LogAction_details,
                "message_type"@,
            ) == text_field(c.arguments, "message_type"@)
            &&& text_field(c.arguments, "priority"@) is Some ==> text_field(
                line->LogAction_details,
                "priority"@,
            ) == text_field(c.arguments, "priority"@)
            &&& forall|e: EventView| Some((#[trigger] send_agent_message_next(c, h.push(e)))->Notify_agent_id) == to
            &&& forall|e: EventView| (#[trigger] send_agent_message_next(c, h.push(e))) is Notify
        }),
{
    reveal_strlit("recipient");
    reveal_strlit("message_type");
    reveal_strlit("priority");
    reveal_strlit("delivery_status");
    reveal_strlit("message_id");
    assert("recipient"@.len() == 9);
    assert("message_type"@.len() == 12);
    assert("priority"@.len() == 8);
    assert("delivery_status"@.len() == 15);
    assert("message_id"@.len() == 10);
    assert forall|e: EventView| (#[trigger] send_agent_message_next(c, h.push(e))) is Notify && Some(
        send_agent_message_next(c, h.push(e))->Notify_agent_id,
    ) == text_field(c.arguments, "recipient_id"@) by {
        assert(h.push(e)[1] == h[1]);
    }
}

/// What the sender reads of a message that was sent: its id as it was stored,
/// the sender, and the recipient, type, priority and parent of the call. A reply
/// has no title of its own; a message that begins a thread has the one that was
/// worked out for it from its own subject and text. The hint on how to reply is
/// there just where the subject begins like a reply and the message is none.
pub proof fn senders_read_what_was_sent(c: CallView, h: Seq<EventView>)
    requires
        send_agent_message_next(c, h) matches ActionView::Finish(ResultView::Success { .. }),
        h.len() > 1,
        !(h[1] is SendDenied),
    ensures
        h[1] is MessageSent,
        ({
            let data = send_agent_message_next(c, h)->Finish_0->Success_data;
            let reply = text_field(c.arguments, "parent_message_id"@) is Some;
            &&& data is Some
            &&& text_field(data->0, "message_id"@) == Some(h[1]->MessageSent_message_id)
            &&& text_field(data->0, "sender"@) == Some(c.principal->0.sender_label)
            &&& text_field(data->0, "recipient_id"@) == text_field(c.arguments, "recipient_id"@)
            &&& text_field(c.arguments, "message_type"@) is Some ==> text_field(
                data->0,
                "message_type"@,
            ) == text_field(c.arguments, "message_type"@)
            &&& text_field(c.arguments, "priority"@) is Some ==> text_field(data->0, "priority"@)
                == text_field(c.arguments, "priority"@)
            &&& text_field(data->0, "parent_message_id"@) == text_field(
                c.arguments,
                "parent_message_id"@,
            )
            &&& reply ==> text_field(data->0, "subject"@) is None
            &&& !reply ==> h.len() > 4 && send_agent_message_next(c, h.subrange(0, 4)) == (
            ActionView::SubjectFor {
                subject: text_field(c.arguments, "subject"@),
                message_content: text_field(c.arguments, "message"@)->0,
            })
            &&& (!reply && h[4] is Subject) ==> text_field(data->0, "subject"@)
                == h[4]->Subject_shown && bool_field(data->0, "subject_is_placeholder"@) == Some(
                h[4]->Subject_placeholder,
            )
            &&& field(data->0, "reply_hint"@) is Some <==> !reply && text_field(
                c.arguments,
                "subject"@,
            ) is Some && is_reply_subject(text_field(c.arguments, "subject"@)->0)
        }),
{
    reveal_strlit("message_id");
    reveal_strlit("sender");
    reveal_strlit("recipient_id");
    reveal_strlit("message_type");
    reveal_strlit("priority");
    reveal_strlit("delivery_status");
    reveal_strlit("subject");
    reveal_strlit("subject_is_placeholder");
    reveal_strlit("parent_message_id");
    reveal_strlit("reply_hint");
    assert("message_id"@.len() == 10);
    assert("sender"@.len() == 6);
    assert("recipient_id"@.len() == 12);
    assert("message_type"@.len() == 12);
    assert("priority"@.len() == 8);
    assert("delivery_status"@.len() == 15);
    assert("subject"@.len() == 7);
    assert("subject_is_placeholder"@.len() == 22);
    assert("parent_message_id"@.len() == 17);
    assert("reply_hint"@.len() == 10);
    assert("message_id"@[0] == 'm');
    assert("message_type"@[0] == 'm');
    assert("recipient_id"@[0] == 'r');
    assert("reply_hint"@[0] == 'r');
    if text_field(c.arguments, "parent_message_id"@) is None {
        let p = h.subrange(0, 4);
        assert(p[1] == h[1]);
    }
}

/// A message that was not stored says why: the refusal of the team's rules as it
/// stands, the recipient or the parent that is not there, or the failure. Such a
/// call ends there: nothing is audited, and nobody is woken.
pub proof fn unsent_messages_say_why(c: CallView, h: Seq<EventView>)
    requires
        c.principal is Some,
        says(c.arguments, "recipient_id"@),
        says(c.arguments, "message"@),
        h.len() == 2,
        !(h[1] is MessageSent),
    ensures
        send_agent_message_next(c, h) is Finish,
        h[1] matches EventView::SendDenied(refusal) ==> send_agent_message_next(c, h)
            == ActionView::Finish(refusal),
        h[1] is RecipientUnknown ==> (send_agent_message_next(c, h) matches ActionView::Finish(
            ResultView::NotFound { resource, identifier, .. },
        ) && resource == "agent"@ && Some(identifier) == text_field(
            c.arguments,
            "recipient_id"@,
        )),
        h[1] is ParentUnknown ==> (send_agent_message_next(c, h) matches ActionView::Finish(
            ResultView::NotFound { resource, identifier, .. },
        ) && resource == "parent message"@ && identifier == h[1]->ParentUnknown_message_id),
        !(h[1] is SendDenied) && !(h[1] is RecipientUnknown) && !(h[1] is ParentUnknown) ==> (
        send_agent_message_next(c, h) matches ActionView::Finish(ResultView::Failed { .. })),
{
}

/// A subject begins like a reply just when it is whitespace, `re` in any letter
/// case, whitespace and a colon, whatever follows.
pub proof fn reply_subjects_begin_with_re(
    before: Seq<char>,
    r: char,
    e: char,
    between: Seq<char>,
    after: Seq<char>,
)
    requires
        forall|i: int| 0 <= i < before.len() ==> is_space(#[trigger] before[i]),
        forall|i: int| 0 <= i < between.len() ==> is_space(#[trigger] between[i]),
        !is_space(r) && !is_space(e),
    ensures
        is_reply_subject(before + seq![r, e] + between + seq![':'] + after) <==> (r == 'r' || r
            == 'R') && (e == 'e' || e == 'E'),
{
    let tail = between + seq![':'] + after;
    let core = seq![r, e] + tail;
    assert(before + seq![r, e] + between + seq![':'] + after =~= before + core);
    lemma_trim_front(before, core);
    assert(core[0] == r && core[1] == e);
    assert(core.subrange(2, core.len() as int) =~= tail);
    assert(tail =~= between + (seq![':'] + after));
    let colon = seq![':'] + after;
    assert(colon[0] == ':');
    lemma_trim_front(between, colon);
    assert(tail == between + colon);
    assert(trim_front(tail) == colon);
    lemma_ascii_letters(r);
    lemma_ascii_letters(e);
}

proof fn lemma_ascii_letters(c: char)
    ensures
        crate::text::ascii_lower_char(c) == 'r' <==> c == 'r' || c == 'R',
        crate::text::ascii_lower_char(c) == 'e' <==> c == 'e' || c == 'E',
{
    if 'A' <= c <= 'Z' {
        assert((c as u32 + 32) as u8 == c as u32 + 32) by {
            assert(c as u32 + 32 < 256);
        }
    }
}

proof fn lemma_trim_front(before: Seq<char>, rest: Seq<char>)
    requires
        forall|i: int| 0 <= i < before.len() ==> is_space(#[trigger] before[i]),
        rest.len() > 0,
        !is_space(rest[0]),
    ensures
        trim_front(before + rest) == rest,
    decreases before.len(),
{
    let s = before + rest;
    if before.len() == 0 {
        assert(s =~= rest);
    } else {
        let b = before.subrange(1, before.len() as int);
        assert(s[0] == before[0]);
        assert(s.subrange(1, s.len() as int) =~= b + rest);
        assert forall|i: int| 0 <= i < b.len() implies is_space(#[trigger] b[i]) by {
            assert(is_space(before[i + 1]));
        }
        lemma_trim_front(b, rest);
    }
}

/// A broadcast goes to every agent in service but system entries and the
/// administrator, in their order, and to nobody else.
pub proof fn broadcasts_go_to_everyone_else(rows: Seq<AgentRowView>)
    ensures
        broadcast_recipients(rows) == rows.filter(
            |r: AgentRowView| r.status != "system"@ && r.agent_id != "admin"@,
        ).map_values(|r: AgentRowView| r.agent_id),
    decreases rows.len(),
{
    reveal(Seq::filter);
    let keep = |r: AgentRowView| r.status != "system"@ && r.agent_id != "admin"@;
    let name = |r: AgentRowView| r.agent_id;
    if rows.len() == 0 {
        assert(rows.filter(keep).map_values(name) =~= Seq::empty());
    } else {
        broadcasts_go_to_everyone_else(rows.drop_last());
        let front = rows.drop_last().filter(keep);
        if keep(rows.last()) {
            assert(rows.filter(keep) == front.push(rows.last()));
            assert(front.push(rows.last()).map_values(name) =~= front.map_values(name).push(
                rows.last().agent_id,
            ));
        }
    }
}

/// Whether a message is the broadcast that a call asks for: the call's text and
/// subject, its type and priority or `broadcast` and `high` where it names none,
/// and no reply.
pub open spec fn carries_the_broadcast(c: CallView, m: OutgoingMessageView) -> bool {
    &&& text_field(c.arguments, "message"@) == Some(m.message_content)
    &&& m.message_content.len() > 0
    &&& m.subject == text_field(c.arguments, "subject"@)
    &&& m.parent_message_id is None
    &&& text_field(c.arguments, "message_type"@) is Some ==> Some(m.message_type) == text_field(
        c.arguments,
        "message_type"@,
    )
    &&& text_field(c.arguments, "message_type"@) is None ==> m.message_type == "broadcast"@
    &&& text_field(c.arguments, "priority"@) is Some ==> Some(m.priority) == text_field(
        c.arguments,
        "priority"@,
    )
    &&& text_field(c.arguments, "priority"@) is None ==> m.priority == "high"@
    &&& m.now == c.now
}

/// Every message that a broadcast stores carries what the call says, to an agent
/// in service that is neither a system entry nor the administrator.
pub proof fn broadcasts_are_stored_as_written(c: CallView, h: Seq<EventView>)
    requires
        broadcast_admin_message_next(c, h) is SendMessage,
    ensures
        carries_the_broadcast(c, broadcast_admin_message_next(c, h)->SendMessage_0),
        h[0] is Agents,
        exists|i: int|
            0 <= i < h[0]->Agents_0.len() && (#[trigger] h[0]->Agents_0[i]).agent_id
                == broadcast_admin_message_next(c, h)->SendMessage_0.recipient_id
                && h[0]->Agents_0[i].status != "system"@ && h[0]->Agents_0[i].agent_id != "admin"@,
{
    let rows = h[0]->Agents_0;
    let ids = broadcast_recipients(rows);
    lemma_broadcast_message(c, c.principal->0.sender_label, ids, 0, 1, h, Seq::empty());
    let to = broadcast_admin_message_next(c, h)->SendMessage_0.recipient_id;
    let k = choose|k: int| 0 <= k < ids.len() && ids[k] == to;
    crate::agent_communication_tools::broadcasts_reach_agents_only(rows, k);
    let i = choose|i: int|
        0 <= i < rows.len() && gets_broadcasts(#[trigger] rows[i]) && rows[i].agent_id == ids[k];
    assert(rows[i].agent_id == to);
}

proof fn lemma_broadcast_message(
    c: CallView,
    sender: Seq<char>,
    ids: Seq<Seq<char>>,
    i: int,
    at: int,
    h: Seq<EventView>,
    sent: Seq<Seq<char>>,
)
    requires
        says(c.arguments, "message"@),
        0 <= i,
    ensures
        broadcast_from(c, sender, ids, i, at, h, sent) matches ActionView::SendMessage(m)
            ==> carries_the_broadcast(c, m) && ids.contains(m.recipient_id),
    decreases ids.len() - i,
{
    if i < ids.len() {
        let step = send_step(
            sender,
            crate::agent_communication_tools::broadcast_draft(c, ids[i]),
            h,
            at,
        );
        match step {
            SendingView::Ask(a) => {},
            SendingView::Settled(n) => {
                lemma_broadcast_message(
                    c,
                    sender,
                    ids,
                    i + 1,
                    n,
                    h,
                    if h[at + 1] is MessageSent {
                        sent.push(ids[i])
                    } else {
                        sent
                    },
                );
            },
        }
    }
}

/// A broadcast that ends well has asked to store the message for every one of
/// its recipients: recipient `k` at the event that is returned.
pub proof fn broadcasts_reach_every_recipient(c: CallView, h: Seq<EventView>, k: int) -> (n: int)
    requires
        h.len() > 0,
        h[0] is Agents,
        broadcast_admin_message_next(c, h) matches ActionView::Finish(ResultView::Success { .. }),
        0 <= k < broadcast_recipients(h[0]->Agents_0).len(),
    ensures
        0 < n < h.len(),
        broadcast_admin_message_next(c, h.subrange(0, n)) is SendMessage,
        broadcast_admin_message_next(c, h.subrange(0, n))->SendMessage_0.recipient_id
            == broadcast_recipients(h[0]->Agents_0)[k],
{
    let ids = broadcast_recipients(h[0]->Agents_0);
    let n = lemma_broadcast_reaches(
        c,
        c.principal->0.sender_label,
        ids,
        0,
        1,
        h,
        Seq::empty(),
        k,
    );
    assert(h.subrange(0, n)[0] == h[0]);
    n
}

proof fn lemma_broadcast_reaches(
    c: CallView,
    sender: Seq<char>,
    ids: Seq<Seq<char>>,
    i: int,
    at: int,
    h: Seq<EventView>,
    sent: Seq<Seq<char>>,
    k: int,
) -> (n: int)
    requires
        0 <= i <= k < ids.len(),
        0 < at,
        broadcast_from(c, sender, ids, i, at, h, sent) is Finish,
    ensures
        at < n < h.len(),
        broadcast_from(c, sender, ids, i, at, h.subrange(0, n), sent) is SendMessage,
        broadcast_from(c, sender, ids, i, at, h.subrange(0, n), sent)->SendMessage_0.recipient_id
            == ids[k],
    decreases ids.len() - i,
{
    let draft = crate::agent_communication_tools::broadcast_draft(c, ids[i]);
    let step = send_step(sender, draft, h, at);
    assert(step is Settled);
    let next = step->Settled_0;
    let on = if h[at + 1] is MessageSent {
        sent.push(ids[i])
    } else {
        sent
    };
    if i == k {
        let p = h.subrange(0, at + 1);
        assert(p.len() == at + 1);
        assert(send_step(sender, draft, p, at) is Ask);
        at + 1
    } else {
        let n = lemma_broadcast_reaches(c, sender, ids, i + 1, next, h, on, k);
        let p = h.subrange(0, n);
        assert(p[at + 1] == h[at + 1] && p[at] == h[at]);
        assert(send_step(sender, draft, p, at) == SendingView::Settled(next));
        n
    }
}

/// What a broadcast reports adds up: it was sent to some of its recipients and
/// failed for the others, and it names those it was sent to, each a recipient.
pub proof fn broadcast_reports_add_up(c: CallView, h: Seq<EventView>)
    requires
        h.len() > 0,
        h[0] is Agents,
        broadcast_admin_message_next(c, h) matches ActionView::Finish(ResultView::Success { .. }),
    ensures
        ({
            let data = broadcast_admin_message_next(c, h)->Finish_0->Success_data->0;
            let ids = broadcast_recipients(h[0]->Agents_0);
            let told = list_field(data, "recipients"@);
            &&& told is Some && told->0.len() <= ids.len()
            &&& field(data, "sent_count"@) == Some(int_json(told->0.len() as int))
            &&& field(data, "failed_count"@) == Some(int_json(ids.len() - told->0.len()))
            &&& forall|k: int|
                0 <= k < told->0.len() ==> #[trigger] told->0[k] is Text && ids.contains(
                    told->0[k]->Text_0,
                )
        }),
{
    reveal_strlit("sent_count");
    reveal_strlit("failed_count");
    reveal_strlit("recipients");
    reveal_strlit("message_type");
    reveal_strlit("priority");
    assert("sent_count"@.len() == 10);
    assert("failed_count"@.len() == 12);
    assert("recipients"@.len() == 10);
    assert("message_type"@.len() == 12);
    assert("priority"@.len() == 8);
    assert("failed_count"@[0] == 'f');
    assert("message_type"@[0] == 'm');
    assert("recipients"@[0] == 'r');
    assert("sent_count"@[0] == 's');
    let ids = broadcast_recipients(h[0]->Agents_0);
    if ids.len() > 0 {
        lemma_broadcast_report(c, c.principal->0.sender_label, ids, 0, 1, h, Seq::empty());
    }
}

proof fn lemma_broadcast_report(
    c: CallView,
    sender: Seq<char>,
    ids: Seq<Seq<char>>,
    i: int,
    at: int,
    h: Seq<EventView>,
    sent: Seq<Seq<char>>,
)
    requires
        0 <= i <= ids.len(),
        sent.len() <= i,
        forall|k: int| 0 <= k < sent.len() ==> ids.contains(#[trigger] sent[k]),
        broadcast_from(c, sender, ids, i, at, h, sent) matches ActionView::Finish(
            ResultView::Success { .. },
        ),
    ensures
        ({
            let r = broadcast_from(c, sender, ids, i, at, h, sent);
            let data = r->Finish_0->Success_data->0;
            let told = list_field(data, "recipients"@);
            &&& r->Finish_0->Success_data is Some
            &&& told is Some && told->0.len() <= ids.len()
            &&& field(data, "sent_count"@) == Some(int_json(told->0.len() as int))
            &&& field(data, "failed_count"@) == Some(int_json(ids.len() - told->0.len()))
            &&& forall|k: int|
                0 <= k < told->0.len() ==> #[trigger] told->0[k] is Text && ids.contains(
                    told->0[k]->Text_0,
                )
        }),
    decreases ids.len() - i,
{
    reveal_strlit("sent_count");
    reveal_strlit("failed_count");
    reveal_strlit("recipients");
    reveal_strlit("message_type");
    reveal_strlit("priority");
    assert("sent_count"@.len() == 10);
    assert("failed_count"@.len() == 12);
    assert("recipients"@.len() == 10);
    assert("message_type"@.len() == 12);
    assert("priority"@.len() == 8);
    assert("failed_count"@[0] == 'f');
    assert("message_type"@[0] == 'm');
    assert("recipients"@[0] == 'r');
    assert("sent_count"@[0] == 's');
    if i < ids.len() {
        let draft = crate::agent_communication_tools::broadcast_draft(c, ids[i]);
        let step = send_step(sender, draft, h, at);
        assert(step is Settled);
        assert(ids.contains(ids[i]));
        lemma_broadcast_report(
            c,
            sender,
            ids,
            i + 1,
            step->Settled_0,
            h,
            if h[at + 1] is MessageSent {
                sent.push(ids[i])
            } else {
                sent
            },
        );
    }
}

/// Only an operator broadcasts, and only a text that says something.
pub proof fn broadcasts_need_an_operator_and_a_text(c: CallView, h: Seq<EventView>)
    ensures
        !(c.principal is Some && c.principal->0.operator_tier) ==> (broadcast_admin_message_next(
            c,
            h,
        ) matches ActionView::Finish(ResultView::PermissionDenied { .. })),
        (c.principal is Some && c.principal->0.operator_tier) && !says(c.arguments, "message"@) ==> (
        broadcast_admin_message_next(c, h) matches ActionView::Finish(
            ResultView::Invalid { field: f, .. },
        ) && f == Some("message"@)),
        (c.principal is Some && c.principal->0.operator_tier) && says(c.arguments, "message"@)
            ==> broadcast_admin_message_next(c, Seq::empty()) is ListActiveAgents,
{
}

/// Messages are read for the calling agent, under the filters of the call:
/// received ones unless it says otherwise, sent ones and unread ones only where
/// it says so, at most as many as it asks for, or twenty.
pub proof fn messages_are_read_as_asked(c: CallView)
    requires
        caller_agent(c.principal) is Some,
        caller_agent(c.principal)->0.len() > 0,
        caller_has(c.principal, Capability::MessagesView),
        bool_field(c.arguments, "include_received"@) != Some(false) || bool_field(
            c.arguments,
            "include_sent"@,
        ) == Some(true),
    ensures
        ({
            let a = get_agent_messages_next(c, Seq::empty());
            &&& a is ListMessages
            &&& Some(a->ListMessages_agent_id) == caller_agent(c.principal)
            &&& a->include_received <==> bool_field(c.arguments, "include_received"@) != Some(false)
            &&& a->include_sent <==> bool_field(c.arguments, "include_sent"@) == Some(true)
            &&& a->unread_only <==> bool_field(c.arguments, "unread_only"@) == Some(true)
            &&& a->ListMessages_message_type == text_field(c.arguments, "message_type"@)
            &&& (int_field(c.arguments, "limit"@) is Some && 1 <= int_field(
                c.arguments,
                "limit"@,
            )->0 <= 100) ==> Some(a->ListMessages_limit) == int_field(c.arguments, "limit"@)
            &&& !(int_field(c.arguments, "limit"@) is Some && 1 <= int_field(
                c.arguments,
                "limit"@,
            )->0 <= 100) ==> a->ListMessages_limit == 20
        }),
{
}

/// Whoever is no agent with the permission to read messages is refused, and a
/// call for neither received nor sent messages is told so.
pub proof fn messages_are_read_by_their_agent_only(c: CallView, h: Seq<EventView>)
    ensures
        caller_agent(c.principal) is None || caller_agent(c.principal)->0.len() == 0 || !caller_has(
            c.principal,
            Capability::MessagesView,
        ) ==> (get_agent_messages_next(c, h) matches ActionView::Finish(
            ResultView::PermissionDenied { .. },
        )),
        bool_field(c.arguments, "include_received"@) == Some(false) && bool_field(
            c.arguments,
            "include_sent"@,
        ) != Some(true) ==> get_agent_messages_next(c, h) is Finish && !(
        get_agent_messages_next(c, h)->Finish_0 is Success),
{
}

/// What was read is what is answered: as many messages as were read, and in
/// each place the message of that place, column by column. In the text, every
/// message shows its content, its time and the other agent.
pub proof fn messages_are_shown_as_stored(c: CallView, h: Seq<EventView>, i: int)
    requires
        get_agent_messages_next(c, h) matches ActionView::Finish(ResultView::Success { .. }),
        h.len() > 0,
        h[0] is Messages,
        0 <= i < h[0]->Messages_0.len(),
    ensures
        ({
            let r = get_agent_messages_next(c, h)->Finish_0;
            let list = list_field(r->Success_data->0, "messages"@);
            let rows = h[0]->Messages_0;
            &&& r->Success_data is Some && r->Success_message is Some
            &&& list is Some && list->0.len() == rows.len()
            &&& field(r->Success_data->0, "count"@) == Some(int_json(rows.len() as int))
            &&& text_field(r->Success_data->0, "agent_id"@) == caller_agent(c.principal)
            &&& text_field(list->0[i], "message_id"@) == Some(rows[i].message_id)
            &&& text_field(list->0[i], "sender_id"@) == Some(rows[i].sender_id)
            &&& text_field(list->0[i], "recipient_id"@) == Some(rows[i].recipient_id)
            &&& text_field(list->0[i], "message_content"@) == Some(rows[i].message_content)
            &&& text_field(list->0[i], "message_type"@) == Some(rows[i].message_type)
            &&& text_field(list->0[i], "priority"@) == Some(rows[i].priority)
            &&& text_field(list->0[i], "timestamp"@) == Some(rows[i].timestamp)
            &&& bool_field(list->0[i], "delivered"@) == Some(rows[i].delivered)
            &&& bool_field(list->0[i], "read"@) == Some(rows[i].read)
            &&& text_field(list->0[i], "parent_message_id"@) == rows[i].parent_message_id
            &&& rows[i].parent_message_id is None ==> text_field(list->0[i], "subject"@)
                == rows[i].shown_subject && bool_field(list->0[i], "subject_is_placeholder"@)
                == Some(rows[i].subject_is_placeholder)
            &&& rows[i].parent_message_id is Some ==> text_field(list->0[i], "subject"@) is None
            &&& holds(r->Success_message->0, rows[i].message_content)
            &&& holds(r->Success_message->0, rows[i].timestamp)
            &&& Some(rows[i].sender_id) != caller_agent(c.principal) ==> holds(
                r->Success_message->0,
                rows[i].sender_id,
            )
            &&& Some(rows[i].sender_id) == caller_agent(c.principal) ==> holds(
                r->Success_message->0,
                rows[i].recipient_id,
            )
        }),
{
    reveal_strlit("agent_id");
    reveal_strlit("messages");
    reveal_strlit("count");
    reveal_strlit("message_id");
    reveal_strlit("sender_id");
    reveal_strlit("recipient_id");
    reveal_strlit("message_content");
    reveal_strlit("message_type");
    reveal_strlit("priority");
    reveal_strlit("timestamp");
    reveal_strlit("delivered");
    reveal_strlit("read");
    reveal_strlit("subject");
    reveal_strlit("subject_is_placeholder");
    reveal_strlit("parent_message_id");
    assert("agent_id"@.len() == 8);
    assert("messages"@.len() == 8);
    assert("count"@.len() == 5);
    assert("message_id"@.len() == 10);
    assert("sender_id"@.len() == 9);
    assert("recipient_id"@.len() == 12);
    assert("message_content"@.len() == 15);
    assert("message_type"@.len() == 12);
    assert("priority"@.len() == 8);
    assert("timestamp"@.len() == 9);
    assert("delivered"@.len() == 9);
    assert("read"@.len() == 4);
    assert("subject"@.len() == 7);
    assert("subject_is_placeholder"@.len() == 22);
    assert("parent_message_id"@.len() == 17);
    assert("agent_id"@[0] == 'a');
    assert("delivered"@[0] == 'd');
    assert("message_type"@[0] == 'm');
    assert("messages"@[0] == 'm');
    assert("priority"@[0] == 'p');
    assert("recipient_id"@[0] == 'r');
    assert("sender_id"@[0] == 's');
    assert("timestamp"@[0] == 't');
    let rows = h[0]->Messages_0;
    let id = caller_agent(c.principal)->0;
    let m = rows[i];
    let shown = get_agent_messages_next(c, h)->Finish_0->Success_message->0;
    let mine = message_lines(m, id);
    let lines = all_lines(rows, id);
    let head = mine[0];
    let n = mine.len() as int;
    assert(mine[1] == "   "@ + m.timestamp);
    assert(mine[n - 2] == "   "@ + m.message_content);
    lemma_lines_hold(rows, id, i, 0);
    lemma_lines_hold(rows, id, i, 1);
    lemma_lines_hold(rows, id, i, n - 2);
    lemma_shown(c, h, i, 0);
    lemma_shown(c, h, i, 1);
    lemma_shown(c, h, i, n - 2);
    let e = Seq::<char>::empty();
    sums_hold_their_parts("   "@, m.timestamp, e);
    assert("   "@ + m.timestamp + e =~= mine[1]);
    parts_of_parts_are_held(shown, mine[1], m.timestamp);
    sums_hold_their_parts("   "@, m.message_content, e);
    assert("   "@ + m.message_content + e =~= mine[n - 2]);
    parts_of_parts_are_held(shown, mine[n - 2], m.message_content);
    let other = if m.sender_id == id {
        m.recipient_id
    } else {
        m.sender_id
    };
    let front = head.subrange(0, head.len() - other.len());
    sums_hold_their_parts(front, other, e);
    assert(head =~= front + other + e);
    parts_of_parts_are_held(shown, head, other);
}

proof fn lemma_shown(c: CallView, h: Seq<EventView>, i: int, k: int)
    requires
        get_agent_messages_next(c, h) matches ActionView::Finish(ResultView::Success { .. }),
        h.len() > 0,
        h[0] is Messages,
        0 <= i < h[0]->Messages_0.len(),
        0 <= k < message_lines(h[0]->Messages_0[i], caller_agent(c.principal)->0).len(),
    ensures
        holds(
            get_agent_messages_next(c, h)->Finish_0->Success_message->0,
            message_lines(h[0]->Messages_0[i], caller_agent(c.principal)->0)[k],
        ),
{
    let rows = h[0]->Messages_0;
    let id = caller_agent(c.principal)->0;
    let line = message_lines(rows[i], id)[k];
    let lines = all_lines(rows, id);
    lemma_lines_hold(rows, id, i, k);
    let at = choose|at: int| 0 <= at < lines.len() && lines[at] == line;
    let shown = get_agent_messages_next(c, h)->Finish_0->Success_message->0;
    let limit = crate::agent_communication_tools::message_wish(c.arguments).limit;
    let all = seq![
        "Messages for "@ + id + " (showing "@ + crate::text::decimal(rows.len()) + " of max "@
            + crate::text::decimal_int(limit as int) + "):"@,
        ""@,
    ] + lines;
    assert(shown == joined(all, "\n"@));
    assert(all[at + 2] == lines[at]);
    joined_texts_hold_every_part(all, "\n"@, at + 2);
}

/// Every message is headed by its signs: which way it went, whether it was read,
/// how urgent it is, its type, and who is at the other end. A subject, or the
/// message that it replies to, follows.
pub proof fn messages_are_headed_by_their_signs(c: CallView, h: Seq<EventView>, i: int)
    requires
        get_agent_messages_next(c, h) matches ActionView::Finish(ResultView::Success { .. }),
        h.len() > 0,
        h[0] is Messages,
        0 <= i < h[0]->Messages_0.len(),
    ensures
        ({
            let text = get_agent_messages_next(c, h)->Finish_0->Success_message->0;
            let m = h[0]->Messages_0[i];
            let mine = Some(m.sender_id) == caller_agent(c.principal);
            let way = if mine {
                "\u{27a1}\u{fe0f}"@
            } else {
                "\u{2b05}\u{fe0f}"@
            };
            let seen = if m.read {
                "\u{1f4d6}"@
            } else {
                "\u{1f4e9}"@
            };
            let sign = if m.priority == "low"@ {
                "\u{1f535}"@
            } else if m.priority == "high"@ {
                "\u{1f7e1}"@
            } else if m.priority == "urgent"@ {
                "\u{1f534}"@
            } else {
                "\u{26aa}"@
            };
            let other = if mine {
                m.recipient_id
            } else {
                m.sender_id
            };
            &&& holds(text, way + " "@ + seen + " "@ + sign + " ["@ + m.message_type + "] "@ + other)
            &&& (m.parent_message_id is None && m.shown_subject is Some
                && !m.subject_is_placeholder) ==> holds(
                text,
                "   Subject: "@ + m.shown_subject->0,
            )
            &&& (m.parent_message_id is None && m.shown_subject is Some
                && m.subject_is_placeholder) ==> holds(
                text,
                "   Subject (auto): "@ + m.shown_subject->0,
            )
            &&& m.parent_message_id is Some ==> holds(
                text,
                "   \u{21b3} reply to: "@ + m.parent_message_id->0,
            )
        }),
{
    let rows = h[0]->Messages_0;
    let id = caller_agent(c.principal)->0;
    let m = rows[i];
    let mine = message_lines(m, id);
    lemma_shown(c, h, i, 0);
    assert(mine[0] == crate::agent_communication_tools::head_line(m, id));
    if m.parent_message_id is Some || m.shown_subject is Some {
        assert(mine[2] == crate::agent_communication_tools::title_lines(m)[0]);
        lemma_shown(c, h, i, 2);
    }
}

proof fn lemma_lines_hold(rows: Seq<MessageRowView>, id: Seq<char>, i: int, k: int)
    requires
        0 <= i < rows.len(),
        0 <= k < message_lines(rows[i], id).len(),
    ensures
        all_lines(rows, id).contains(message_lines(rows[i], id)[k]),
    decreases rows.len(),
{
    let lines = all_lines(rows, id);
    let front = all_lines(rows.drop_last(), id);
    if i < rows.len() - 1 {
        lemma_lines_hold(rows.drop_last(), id, i, k);
        let at = choose|at: int|
            0 <= at < front.len() && front[at] == message_lines(rows[i], id)[k];
        assert(lines[at] == front[at]);
    } else {
        assert(lines[front.len() + k] == message_lines(rows[i], id)[k]);
    }
}

/// Every message that waited for the reading agent is marked as read, unless
/// the call forbids it or asks for sent messages only; and only such messages
/// are.
pub proof fn waiting_messages_are_marked(c: CallView, h: Seq<EventView>, i: int)
    requires
        caller_agent(c.principal) is Some,
        caller_agent(c.principal)->0.len() > 0,
        caller_has(c.principal, Capability::MessagesView),
        bool_field(c.arguments, "include_received"@) != Some(false),
        h.len() == 1,
        h[0] is Messages,
        0 <= i < h[0]->Messages_0.len(),
    ensures
        ({
            let a = get_agent_messages_next(c, h);
            let m = h[0]->Messages_0[i];
            let waits = Some(m.recipient_id) == caller_agent(c.principal) && !m.read;
            &&& waits && bool_field(c.arguments, "mark_as_read"@) != Some(false) ==> a is MarkRead
                && a->message_ids.contains(m.message_id) && Some(a->recipient) == caller_agent(
                c.principal,
            )
            &&& bool_field(c.arguments, "mark_as_read"@) == Some(false) ==> a is Finish
        }),
{
    let rows = h[0]->Messages_0;
    let id = caller_agent(c.principal)->0;
    if rows[i].recipient_id == id && !rows[i].read {
        lemma_unread_complete(rows, id, i);
    }
}

proof fn lemma_unread_complete(rows: Seq<MessageRowView>, id: Seq<char>, i: int)
    requires
        0 <= i < rows.len(),
        rows[i].recipient_id == id,
        !rows[i].read,
    ensures
        unread_ids(rows, id).contains(rows[i].message_id),
    decreases rows.len(),
{
    let ids = unread_ids(rows, id);
    let front = unread_ids(rows.drop_last(), id);
    if i < rows.len() - 1 {
        lemma_unread_complete(rows.drop_last(), id, i);
        let k = choose|k: int| 0 <= k < front.len() && front[k] == rows[i].message_id;
        assert(ids[k] == front[k]);
    } else {
        assert(ids[front.len() as int] == rows[i].message_id);
    }
}

/// Only messages that the read brought, to the reading agent and unread, are
/// marked.
pub proof fn no_other_message_is_marked(c: CallView, h: Seq<EventView>, k: int)
    requires
        get_agent_messages_next(c, h) is MarkRead,
        0 <= k < get_agent_messages_next(c, h)->message_ids.len(),
    ensures
        h.len() == 1 && h[0] is Messages,
        exists|i: int|
            0 <= i < h[0]->Messages_0.len() && (#[trigger] h[0]->Messages_0[i]).message_id
                == get_agent_messages_next(c, h)->message_ids[k] && !h[0]->Messages_0[i].read
                && Some(h[0]->Messages_0[i].recipient_id) == caller_agent(c.principal),
{
    crate::agent_communication_tools::only_returned_messages_are_marked(c, h, k);
    let rows = h[0]->Messages_0;
    let i = choose|i: int|
        0 <= i < rows.len() && crate::agent_communication_tools::waits_for(
            #[trigger] rows[i],
            caller_agent(c.principal)->0,
        ) && rows[i].message_id == get_agent_messages_next(c, h)->message_ids[k];
    assert(rows[i].message_id == get_agent_messages_next(c, h)->message_ids[k]);
}

/// Events are fetched for the calling agent, from the point in time that the
/// call names, or from where the agent stands, which is looked up first.
pub proof fn events_are_fetched_from_where_the_agent_stands(c: CallView, h: Seq<EventView>)
    requires
        fetch_events_since_next(c, h) is AssembleFeed,
    ensures
        ({
            let a = fetch_events_since_next(c, h);
            &&& Some(a->AssembleFeed_agent_id) == caller_agent(c.principal)
            &&& a->AssembleFeed_now == c.now
            &&& text_field(c.arguments, "cursor"@) is Some ==> a->since == text_field(
                c.arguments,
                "cursor"@,
            )
            &&& text_field(c.arguments, "cursor"@) is None ==> {
                &&& h.len() == 1
                &&& fetch_events_since_next(c, Seq::empty()) == (ActionView::GetAgent {
                    agent_id: a->AssembleFeed_agent_id,
                })
                &&& h[0] matches EventView::Agent(Some(row)) ==> a->since == row.last_event_seen_at
            }
        }),
{
}

/// The events that were gathered are the answer, all of them and as they are,
/// with the point in time that they reach. Where there are any, the agent's own
/// point in time is moved there first; where there are none, it stays.
pub proof fn fetched_events_are_the_answer(
    c: CallView,
    h: Seq<EventView>,
    events: Seq<JsonView>,
    next_cursor: Seq<char>,
    e: EventView,
)
    requires
        fetch_events_since_next(c, h) is AssembleFeed,
    ensures
        ({
            let g = h.push(EventView::Feed { events, next_cursor });
            let first = fetch_events_since_next(c, g);
            let last = if events.len() > 0 {
                fetch_events_since_next(c, g.push(e))
            } else {
                first
            };
            let data = last->Finish_0->Success_data->0;
            &&& events.len() > 0 ==> first == ActionView::AdvanceCursor {
                agent_id: caller_agent(c.principal)->0,
                cursor: next_cursor,
                timestamp: c.now,
            }
            &&& last is Finish && last->Finish_0 is Success && last->Finish_0->Success_data is Some
            &&& list_field(data, "events"@) == Some(events)
            &&& text_field(data, "cursor"@) == Some(next_cursor)
        }),
{
    reveal_strlit("events");
    reveal_strlit("cursor");
    assert("events"@.len() == 6);
    assert("cursor"@.len() == 6);
    assert("cursor"@[0] == 'c');
    assert("events"@[0] == 'e');
    let g = h.push(EventView::Feed { events, next_cursor });
    let f = g.push(e);
    assert(forall|k: int| 0 <= k < h.len() ==> g[k] == h[k] && f[k] == h[k]);
    assert(g[h.len() as int] == (EventView::Feed { events, next_cursor }));
    assert(f[h.len() as int] == (EventView::Feed { events, next_cursor }));
}

proof fn lemma_switch_then_message(
    c: CallView,
    sender: Seq<char>,
    ids: Seq<Seq<char>>,
    i: int,
    at: int,
    h: Seq<EventView>,
    sent: Seq<Seq<char>>,
    e: EventView,
)
    requires
        0 <= i,
        0 <= at <= h.len(),
        broadcast_from(
            c,
            sender,
            ids,
            i,
            at,
            h,
            sent,
        ) is GetSwitch,
    ensures
        ({
            let a = broadcast_from(
                c,
                sender,
                ids,
                i,
                at,
                h.push(e),
                sent,
            );
            &&& a is SendMessage
            &&& e matches EventView::Changed(b) ==> a->SendMessage_0.allow_worker_to_worker == b
        }),
    decreases ids.len() - i,
{
    let g = h.push(e);
    if i < ids.len() && h.len() - at >= 2 {
        assert(g[at] == h[at] && g[at + 1] == h[at + 1]);
        let draft = crate::agent_communication_tools::broadcast_draft(c, ids[i]);
        match send_step(sender, draft, h, at) {
            SendingView::Settled(next) => {
                lemma_switch_then_message(
                    c,
                    sender,
                    ids,
                    i + 1,
                    next,
                    h,
                    if h[at + 1] is MessageSent {
                        sent.push(ids[i])
                    } else {
                        sent
                    },
                    e,
                );
            },
            _ => {},
        }
    }
}

/// Before each message of a broadcast the switch between workers is asked for,
/// once; what it says goes into the message.
pub proof fn broadcasts_heed_the_switch(
    c: CallView,
    h: Seq<EventView>,
    rows: Seq<AgentRowView>,
    e: EventView,
)
    requires
        broadcast_admin_message_next(c, h) is GetSwitch,
        h.len() > 0,
        h[0] == EventView::Agents(rows),
    ensures
        broadcast_admin_message_next(c, h.push(e)) is SendMessage,
        e matches EventView::Changed(b) ==> broadcast_admin_message_next(
            c,
            h.push(e),
        )->SendMessage_0.allow_worker_to_worker == b,
{
    let ids = broadcast_recipients(rows);
    assert(h.push(e)[0] == h[0]);
    lemma_switch_then_message(
        c,
        c.principal->0.sender_label,
        ids,
        0,
        1,
        h,
        Seq::empty(),
        e,
    );
}

} // verus!

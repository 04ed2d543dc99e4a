//! Tools by which agents exchange messages and catch up on events.

use crate::admin_tools::{str_or, text_or};
use crate::json::{
    bool_field, field, int_field, int_json, jint, jlen, jopt, jtext, jtexts, opt_json, text_field,
    texts_json, Fields, Items, Json, JsonView,
};
use crate::principal::{
    agent_of, caller_agent, caller_has, caller_view, has_capability, is_operator, Capability,
    Principal, PrincipalView,
};
use crate::protocol::{
    agent_rows, denied, denied_view, done, done_view, events, failed, failed_view, invalid,
    invalid_view, message_rows, not_found, not_found_view, Action, ActionView, AgentRow,
    AgentRowView, Call, CallView, Event, EventView, MessageRow, MessageRowView, OutgoingMessage,
    OutgoingMessageView, ToolResult,
};
use crate::text::{
    ascii_lower_char, borrow_opt, cat2, cat3, cat4, cat5, cat6, cat7, chars_of, decimal,
    decimal_int, join, joined, opt, opt_str, own, own_opt, same, show_i64, show_usize, texts,
    trim_front,
};
use vstd::prelude::*;

verus! {

/// Whether the caller names an agent.
pub open spec fn identified(p: Option<PrincipalView>) -> bool {
    caller_agent(p) is Some && caller_agent(p)->0.len() > 0
}

/// Whether the caller names an agent: events belong to agents.
pub fn is_identified_agent(principal: Option<&Principal>) -> (r: bool)
    ensures
        r == identified(caller_view(principal)),
{
    match agent_of(principal) {
        Some(id) => !id.is_empty(),
        None => false,
    }
}

/// Whether there is a caller at all.
pub fn is_authenticated_caller(principal: Option<&Principal>) -> (r: bool)
    ensures
        r == (caller_view(principal) is Some),
{
    match principal {
        Some(_) => true,
        None => false,
    }
}

/// Whether the caller acts with an operator's authority.
pub fn is_operator_tier_caller(principal: Option<&Principal>) -> (r: bool)
    ensures
        r == is_operator(caller_view(principal)),
{
    match principal {
        Some(p) => p.operator_tier,
        None => false,
    }
}

/// Whether the caller names an agent and may view messages.
pub fn can_read_own_messages(principal: Option<&Principal>) -> (r: bool)
    ensures
        r == (identified(caller_view(principal)) && caller_has(
            caller_view(principal),
            Capability::MessagesView,
        )),
{
    is_identified_agent(principal) && has_capability(principal, Capability::MessagesView)
}

// ---------------------------------------------------------------------
// fetch_events_since
// ---------------------------------------------------------------------

/// What a caller without an agent reads.
pub const FETCH_DENIED: &'static str = "Unauthorized: Valid agent token required to fetch events";

/// A point in time that a caller may give: absent or `null` is none.
pub enum CursorView {
    Absent,
    At(Seq<char>),
    Bad,
}

/// The point in time under `key`.
pub open spec fn cursor_in(args: JsonView, key: Seq<char>) -> CursorView {
    match field(args, key) {
        None => CursorView::Absent,
        Some(JsonView::Null) => CursorView::Absent,
        Some(JsonView::Text(s)) => CursorView::At(s),
        Some(_) => CursorView::Bad,
    }
}

/// A point in time that a caller gave.
#[derive(Debug)]
pub enum Cursor<'a> {
    Absent,
    At(&'a str),
    Bad,
}

impl<'a> View for Cursor<'a> {
    type V = CursorView;

    open spec fn view(&self) -> CursorView {
        match *self {
            Cursor::Absent => CursorView::Absent,
            Cursor::At(s) => CursorView::At(s@),
            Cursor::Bad => CursorView::Bad,
        }
    }
}

/// The point in time under `key`.
pub fn read_cursor<'a>(args: &'a Json, key: &str) -> (r: Cursor<'a>)
    ensures
        r@ == cursor_in(args@, key@),
{
    match args.get(key) {
        None => Cursor::Absent,
        Some(Json::Null) => Cursor::Absent,
        Some(Json::Text(s)) => Cursor::At(s.as_str()),
        Some(_) => Cursor::Bad,
    }
}

/// How far an agent has read, by the answer to the lookup of its row.
pub open spec fn stored_cursor(e: EventView) -> Option<Seq<char>> {
    match e {
        EventView::Agent(Some(row)) => row.last_event_seen_at,
        _ => None,
    }
}

/// How far an agent has read.
pub fn cursor_of(e: &Event) -> (r: Option<String>)
    ensures
        opt(r) == stored_cursor(e@),
{
    match e {
        Event::Agent(Some(row)) => crate::text::copy_opt(&row.last_event_seen_at),
        _ => None,
    }
}

/// The dialogue of `fetch_events_since`: find where the agent stands, gather
/// the events since then, and store the new position where there are any.
pub open spec fn fetch_events_since_next(c: CallView, h: Seq<EventView>) -> ActionView {
    let cursor = cursor_in(c.arguments, "cursor"@);
    if !identified(c.principal) {
        denied_view(FETCH_DENIED@)
    } else if cursor is Bad {
        invalid_view(Some("cursor"@), "cursor must be an ISO-UTC timestamp string or null"@)
    } else {
        let agent_id = caller_agent(c.principal)->0;
        if cursor is Absent && h.len() == 0 {
            ActionView::GetAgent { agent_id }
        } else if cursor is Absent {
            fetch_from(c, agent_id, stored_cursor(h[0]), h, 1)
        } else {
            fetch_from(c, agent_id, Some(cursor->At_0), h, 0)
        }
    }
}

/// The part of `fetch_events_since` from the gathering of events on, which is
/// answered by event `at`.
pub open spec fn fetch_from(
    c: CallView,
    agent_id: Seq<char>,
    since: Option<Seq<char>>,
    h: Seq<EventView>,
    at: int,
) -> ActionView {
    if h.len() <= at {
        ActionView::AssembleFeed { agent_id, since, now: c.now }
    } else {
        match h[at] {
            EventView::Feed { events, next_cursor } => if events.len() > 0 && h.len() == at + 1 {
                ActionView::AdvanceCursor { agent_id, cursor: next_cursor, timestamp: c.now }
            } else {
                let body = JsonView::Object(
                    map![
                    "events"@ => JsonView::List(events),
                    "cursor"@ => JsonView::Text(next_cursor)
                ],
                );
                done_view(body, crate::json::compact_text(body))
            },
            _ => failed_view("fetch_events_since: event assembly failed"@),
        }
    }
}

/// `fetch_events_since` never makes its agent wait and never registers it as
/// waiting: it only looks up, gathers, and moves the position.
pub proof fn fetching_never_waits(c: CallView, h: Seq<EventView>)
    ensures
        match fetch_events_since_next(c, h) {
            ActionView::GetAgent { .. } => true,
            ActionView::AssembleFeed { .. } => true,
            ActionView::AdvanceCursor { .. } => true,
            ActionView::Finish(_) => true,
            _ => false,
        },
{
}

/// `fetch_events_since`: the events since a point in time.
pub struct FetchEventsSinceTool;

impl FetchEventsSinceTool {
    fn from(
        call: &Call,
        agent_id: &str,
        since: Option<String>,
        history: &Vec<Event>,
        at: usize,
    ) -> (r: Action)
        requires
            at <= 1,
        ensures
            r@ == fetch_from(call@, agent_id@, opt(since), events(history@), at as int),
    {
        if history.len() <= at {
            return Action::AssembleFeed {
                agent_id: own(agent_id),
                since,
                now: own(call.now.as_str()),
            };
        }
        match &history[at] {
            Event::Feed { events, next_cursor } => {
                proof {
                    crate::json::lemma_list_view(events@);
                }
                if events.len() > 0 && history.len() == at + 1 {
                    return Action::AdvanceCursor {
                        agent_id: own(agent_id),
                        cursor: own(next_cursor.as_str()),
                        timestamp: own(call.now.as_str()),
                    };
                }
                let mut f: Fields = Fields::new();
                f.put("events", Json::List(crate::json::copy_list(events)));
                f.put("cursor", jtext(next_cursor.as_str()));
                let body: Json = f.done();
                let text: String = body.compact();
                done(body, text)
            },
            _ => failed("fetch_events_since: event assembly failed"),
        }
    }

    /// What to do after `history`.
    pub fn next(call: &Call, history: &Vec<Event>) -> (r: Action)
        ensures
            r@ == fetch_events_since_next(call@, events(history@)),
    {
        if !is_identified_agent(call.caller()) {
            return denied(FETCH_DENIED);
        }
        let agent_id: &str = match agent_of(call.caller()) {
            Some(id) => id,
            None => "",
        };
        match read_cursor(&call.arguments, "cursor") {
            Cursor::Bad => invalid(
                "cursor",
                "cursor must be an ISO-UTC timestamp string or null",
            ),
            Cursor::At(s) => FetchEventsSinceTool::from(
                call,
                agent_id,
                Some(own(s)),
                history,
                0,
            ),
            Cursor::Absent => {
                if history.len() == 0 {
                    return Action::GetAgent { agent_id: own(agent_id) };
                }
                let since: Option<String> = cursor_of(&history[0]);
                FetchEventsSinceTool::from(call, agent_id, since, history, 1)
            },
        }
    }
}

// ---------------------------------------------------------------------
// Sending one message
// ---------------------------------------------------------------------

/// Where the sending of one message stands.
pub enum SendingView {
    /// This is to be done next.
    Ask(ActionView),
    /// The sending is over; its part of the dialogue ends here.
    Settled(int),
}

/// Where the sending of one message stands.
#[derive(Debug)]
pub enum Sending {
    Ask(Action),
    Settled(usize),
}

impl View for Sending {
    type V = SendingView;

    open spec fn view(&self) -> SendingView {
        match *self {
            Sending::Ask(a) => SendingView::Ask(a@),
            Sending::Settled(n) => SendingView::Settled(n as int),
        }
    }
}

/// A message before the rules of the team are known.
#[derive(Debug)]
pub struct Draft<'a> {
    pub recipient_id: &'a str,
    pub message_content: &'a str,
    pub message_type: &'a str,
    pub priority: &'a str,
    pub subject: Option<&'a str>,
    pub parent_message_id: Option<&'a str>,
    pub now: &'a str,
}

impl<'a> View for Draft<'a> {
    type V = OutgoingMessageView;

    open spec fn view(&self) -> OutgoingMessageView {
        OutgoingMessageView {
            recipient_id: self.recipient_id@,
            message_content: self.message_content@,
            message_type: self.message_type@,
            priority: self.priority@,
            subject: opt_str(self.subject),
            parent_message_id: opt_str(self.parent_message_id),
            allow_worker_to_worker: true,
            now: self.now@,
        }
    }
}

/// The part of a dialogue, from event `at` on, that sends one message: read
/// whether workers may write to workers, store the message, and where it was
/// stored write the audit line and wake the recipient.
pub open spec fn send_step(
    sender: Seq<char>,
    draft: OutgoingMessageView,
    h: Seq<EventView>,
    at: int,
) -> SendingView {
    let k = h.len() - at;
    if k <= 0 {
        SendingView::Ask(
            ActionView::GetSwitch { key: "config_allow_worker_to_worker"@, default_on: true },
        )
    } else if k == 1 {
        SendingView::Ask(
            ActionView::SendMessage(
                OutgoingMessageView {
                    allow_worker_to_worker: match h[at] {
                        EventView::Changed(b) => b,
                        _ => true,
                    },
                    ..draft
                },
            ),
        )
    } else {
        match h[at + 1] {
            EventView::MessageSent { message_id } => if k == 2 {
                SendingView::Ask(
                    ActionView::LogAction {
                        agent_id: sender,
                        action_type: "send_message"@,
                        task_id: None,
                        details: JsonView::Object(
                            map![
                            "recipient"@ => JsonView::Text(draft.recipient_id),
                            "message_type"@ => JsonView::Text(draft.message_type),
                            "priority"@ => JsonView::Text(draft.priority),
                            "delivery_status"@ => JsonView::Text("stored"@),
                            "message_id"@ => JsonView::Text(message_id)
                        ],
                        ),
                        timestamp: draft.now,
                    },
                )
            } else if k == 3 {
                SendingView::Ask(ActionView::Notify { agent_id: draft.recipient_id })
            } else {
                SendingView::Settled(at + 4)
            },
            _ => SendingView::Settled(at + 2),
        }
    }
}

/// Sends one message; its part of the dialogue begins at event `at`.
fn send_with_side_effects(
    principal: &Principal,
    draft: &Draft,
    history: &Vec<Event>,
    at: usize,
) -> (r: Sending)
    requires
        at <= history@.len(),
    ensures
        r@ == send_step(principal@.sender_label, draft@, events(history@), at as int),
        r matches Sending::Settled(n) ==> at + 2 <= n <= history@.len(),
{
    let k: usize = history.len() - at;
    if k == 0 {
        return Sending::Ask(
            Action::GetSwitch { key: own("config_allow_worker_to_worker"), default_on: true },
        );
    }
    if k == 1 {
        let allow: bool = match &history[at] {
            Event::Changed(b) => *b,
            _ => true,
        };
        return Sending::Ask(
            Action::SendMessage(
                OutgoingMessage {
                    recipient_id: own(draft.recipient_id),
                    message_content: own(draft.message_content),
                    message_type: own(draft.message_type),
                    priority: own(draft.priority),
                    subject: own_opt(draft.subject),
                    parent_message_id: own_opt(draft.parent_message_id),
                    allow_worker_to_worker: allow,
                    now: own(draft.now),
                },
            ),
        );
    }
    match &history[at + 1] {
        Event::MessageSent { message_id } => {
            if k == 2 {
                let mut f: Fields = Fields::new();
                f.put("recipient", jtext(draft.recipient_id));
                f.put("message_type", jtext(draft.message_type));
                f.put("priority", jtext(draft.priority));
                f.put("delivery_status", jtext("stored"));
                f.put("message_id", jtext(message_id.as_str()));
                return Sending::Ask(
                    Action::LogAction {
                        agent_id: own(principal.sender_label.as_str()),
                        action_type: own("send_message"),
                        task_id: None,
                        details: f.done(),
                        timestamp: own(draft.now),
                    },
                );
            }
            if k == 3 {
                return Sending::Ask(Action::Notify { agent_id: own(draft.recipient_id) });
            }
            Sending::Settled(at + 4)
        },
        _ => Sending::Settled(at + 2),
    }
}

/// Only a message that was stored leaves an audit line or wakes anyone.
pub proof fn unsent_messages_leave_no_trace(
    sender: Seq<char>,
    draft: OutgoingMessageView,
    h: Seq<EventView>,
    at: int,
)
    requires
        0 <= at,
        at + 1 < h.len(),
        !(h[at + 1] is MessageSent),
    ensures
        send_step(sender, draft, h, at) == SendingView::Settled(at + 2),
{
}

// ---------------------------------------------------------------------
// send_agent_message
// ---------------------------------------------------------------------

/// What a caller without an identity reads.
pub const SEND_DENIED: &'static str = "Unauthorized: Valid token or operator session required";

/// What a sender reads whose subject looks like a reply.
pub const REPLY_HINT_TEXT: &'static str = "This looks like a reply — to thread it correctly, use the reply function by passing `parent_message_id` (the message you're replying to) instead of putting 'RE:' in the subject.";

/// Whether a subject begins like a reply: `re`, in any letter case, then a
/// colon, with whitespace allowed before each.
pub open spec fn is_reply_subject(s: Seq<char>) -> bool {
    let t = trim_front(s);
    t.len() >= 2 && ascii_lower_char(t[0]) == 'r' && ascii_lower_char(t[1]) == 'e' && {
        let u = trim_front(t.subrange(2, t.len() as int));
        u.len() > 0 && u[0] == ':'
    }
}

fn skip_space(v: &Vec<char>, from: usize) -> (r: usize)
    requires
        from <= v@.len(),
    ensures
        from <= r <= v@.len(),
        trim_front(v@.subrange(from as int, v@.len() as int)) == v@.subrange(
            r as int,
            v@.len() as int,
        ),
{
    let mut i: usize = from;
    while i < v.len() && v[i].is_whitespace()
        invariant
            from <= i <= v@.len(),
            trim_front(v@.subrange(from as int, v@.len() as int)) == trim_front(
                v@.subrange(i as int, v@.len() as int),
            ),
        decreases v@.len() - i,
    {
        proof {
            let rest = v@.subrange(i as int, v@.len() as int);
            assert(rest.subrange(1, rest.len() as int) =~= v@.subrange(i + 1, v@.len() as int));
        }
        i = i + 1;
    }
    i
}

/// Whether `subject` begins like a reply.
pub fn looks_like_reply(subject: &str) -> (r: bool)
    ensures
        r == is_reply_subject(subject@),
{
    let v: Vec<char> = chars_of(subject);
    proof {
        assert(v@.subrange(0, v@.len() as int) =~= v@);
    }
    let i: usize = skip_space(&v, 0);
    if v.len() - i < 2 {
        return false;
    }
    if v[i] != 'r' && v[i] != 'R' {
        return false;
    }
    if v[i + 1] != 'e' && v[i + 1] != 'E' {
        return false;
    }
    proof {
        let t = v@.subrange(i as int, v@.len() as int);
        assert(t.subrange(2, t.len() as int) =~= v@.subrange(i + 2, v@.len() as int));
    }
    let j: usize = skip_space(&v, i + 2);
    j < v.len() && v[j] == ':'
}

/// The text under `key`, where there is one and it is not empty.
pub open spec fn nonempty_field(args: JsonView, key: Seq<char>) -> Option<Seq<char>> {
    match text_field(args, key) {
        Some(s) => if s.len() > 0 {
            Some(s)
        } else {
            None
        },
        None => None,
    }
}

/// The text under `key`, where there is one and it is not empty.
pub fn nonempty<'a>(args: &'a Json, key: &str) -> (r: Option<&'a str>)
    ensures
        opt_str(r) == nonempty_field(args@, key@),
{
    match args.text_at(key) {
        Some(s) => if s.is_empty() {
            None
        } else {
            Some(s)
        },
        None => None,
    }
}

/// The message that a call of `send_agent_message` asks for.
pub open spec fn draft_of(c: CallView) -> OutgoingMessageView {
    OutgoingMessageView {
        recipient_id: text_or(nonempty_field(c.arguments, "recipient_id"@), ""@),
        message_content: text_or(nonempty_field(c.arguments, "message"@), ""@),
        message_type: text_or(text_field(c.arguments, "message_type"@), "text"@),
        priority: text_or(text_field(c.arguments, "priority"@), "normal"@),
        subject: text_field(c.arguments, "subject"@),
        parent_message_id: text_field(c.arguments, "parent_message_id"@),
        allow_worker_to_worker: true,
        now: c.now,
    }
}

/// Whether the sender is told how to reply: the subject begins like a reply,
/// and the message is none.
pub open spec fn hint_due(draft: OutgoingMessageView) -> bool {
    draft.parent_message_id is None && draft.subject is Some && is_reply_subject(draft.subject->0)
}

/// The outcome of a message that was sent.
pub open spec fn message_sent_view(
    sender: Seq<char>,
    draft: OutgoingMessageView,
    message_id: Seq<char>,
    shown: Option<Seq<char>>,
    placeholder: bool,
) -> ActionView {
    let data = map![
        "message_id"@ => JsonView::Text(message_id),
        "sender"@ => JsonView::Text(sender),
        "recipient_id"@ => JsonView::Text(draft.recipient_id),
        "message_type"@ => JsonView::Text(draft.message_type),
        "priority"@ => JsonView::Text(draft.priority),
        "delivery_status"@ => JsonView::Text("stored"@),
        "subject"@ => opt_json(shown),
        "subject_is_placeholder"@ => JsonView::Bool(placeholder),
        "parent_message_id"@ => opt_json(draft.parent_message_id)
    ];
    let text = "Message sent to "@ + draft.recipient_id
        + ". Message stored for recipient (Message ID: "@ + message_id + ")"@;
    if hint_due(draft) {
        done_view(
            JsonView::Object(data.insert("reply_hint"@, JsonView::Text(REPLY_HINT_TEXT@))),
            text + " "@ + REPLY_HINT_TEXT@,
        )
    } else {
        done_view(JsonView::Object(data), text)
    }
}

/// The dialogue of `send_agent_message`: send the message, and where it is no
/// reply work out its title.
pub open spec fn send_agent_message_next(c: CallView, h: Seq<EventView>) -> ActionView {
    let draft = draft_of(c);
    match c.principal {
        None => denied_view(SEND_DENIED@),
        Some(p) => if nonempty_field(c.arguments, "recipient_id"@) is None {
            invalid_view(Some("recipient_id"@), "recipient_id is required"@)
        } else if nonempty_field(c.arguments, "message"@) is None {
            invalid_view(Some("message"@), "message is required"@)
        } else {
            match send_step(p.sender_label, draft, h, 0) {
                SendingView::Ask(a) => a,
                SendingView::Settled(_) => match h[1] {
                    EventView::MessageSent { message_id } => if draft.parent_message_id is Some {
                        message_sent_view(p.sender_label, draft, message_id, None, false)
                    } else if h.len() == 4 {
                        ActionView::SubjectFor {
                            subject: draft.subject,
                            message_content: draft.message_content,
                        }
                    } else {
                        match h[4] {
                            EventView::Subject { shown, placeholder } => message_sent_view(
                                p.sender_label,
                                draft,
                                message_id,
                                shown,
                                placeholder,
                            ),
                            _ => message_sent_view(p.sender_label, draft, message_id, None, false),
                        }
                    },
                    EventView::SendDenied(refusal) => ActionView::Finish(refusal),
                    EventView::RecipientUnknown => not_found_view("agent"@, draft.recipient_id),
                    EventView::ParentUnknown { message_id } => not_found_view(
                        "parent message"@,
                        message_id,
                    ),
                    EventView::Error(e) => failed_view("Database error sending message: "@ + e),
                    _ => failed_view("Database error sending message: "@),
                },
            }
        },
    }
}

/// A reply is never given the hint, whatever its subject.
pub proof fn replies_get_no_hint(c: CallView)
    requires
        text_field(c.arguments, "parent_message_id"@) is Some,
    ensures
        !hint_due(draft_of(c)),
{
}

/// `send_agent_message`: a message from one agent to another.
pub struct SendAgentMessageTool;

impl SendAgentMessageTool {
    fn sent(
        principal: &Principal,
        draft: &Draft,
        message_id: &str,
        shown: Option<&str>,
        placeholder: bool,
    ) -> (r: Action)
        ensures
            r@ == message_sent_view(
                principal@.sender_label,
                draft@,
                message_id@,
                opt_str(shown),
                placeholder,
            ),
    {
        let mut f: Fields = Fields::new();
        f.put("message_id", jtext(message_id));
        f.put("sender", jtext(principal.sender_label.as_str()));
        f.put("recipient_id", jtext(draft.recipient_id));
        f.put("message_type", jtext(draft.message_type));
        f.put("priority", jtext(draft.priority));
        f.put("delivery_status", jtext("stored"));
        f.put("subject", jopt(shown));
        f.put("subject_is_placeholder", Json::Bool(placeholder));
        f.put("parent_message_id", jopt(draft.parent_message_id));
        let text: String = cat5(
            "Message sent to ",
            draft.recipient_id,
            ". Message stored for recipient (Message ID: ",
            message_id,
            ")",
        );
        let hint: bool = match (draft.parent_message_id, draft.subject) {
            (None, Some(s)) => looks_like_reply(s),
            _ => false,
        };
        if hint {
            f.put("reply_hint", jtext(REPLY_HINT_TEXT));
            done(f.done(), cat3(text.as_str(), " ", REPLY_HINT_TEXT))
        } else {
            done(f.done(), text)
        }
    }

    /// What to do after `history`.
    pub fn next(call: &Call, history: &Vec<Event>) -> (r: Action)
        ensures
            r@ == send_agent_message_next(call@, events(history@)),
    {
        let principal: &Principal = match call.caller() {
            Some(p) => p,
            None => {
                return denied(SEND_DENIED);
            },
        };
        let args: &Json = &call.arguments;
        let recipient_id: &str = match nonempty(args, "recipient_id") {
            Some(s) => s,
            None => {
                return invalid("recipient_id", "recipient_id is required");
            },
        };
        let message_content: &str = match nonempty(args, "message") {
            Some(s) => s,
            None => {
                return invalid("message", "message is required");
            },
        };
        let draft: Draft = Draft {
            recipient_id,
            message_content,
            message_type: str_or(args.text_at("message_type"), "text"),
            priority: str_or(args.text_at("priority"), "normal"),
            subject: args.text_at("subject"),
            parent_message_id: args.text_at("parent_message_id"),
            now: call.now.as_str(),
        };
        match send_with_side_effects(principal, &draft, history, 0) {
            Sending::Ask(a) => {
                return a;
            },
            Sending::Settled(_) => {},
        }
        match &history[1] {
            Event::MessageSent { message_id } => {
                if draft.parent_message_id.is_some() {
                    return SendAgentMessageTool::sent(
                        principal,
                        &draft,
                        message_id.as_str(),
                        None,
                        false,
                    );
                }
                if history.len() == 4 {
                    return Action::SubjectFor {
                        subject: own_opt(draft.subject),
                        message_content: own(draft.message_content),
                    };
                }
                match &history[4] {
                    Event::Subject { shown, placeholder } => SendAgentMessageTool::sent(
                        principal,
                        &draft,
                        message_id.as_str(),
                        borrow_opt(shown),
                        *placeholder,
                    ),
                    _ => SendAgentMessageTool::sent(
                        principal,
                        &draft,
                        message_id.as_str(),
                        None,
                        false,
                    ),
                }
            },
            Event::SendDenied(refusal) => Action::Finish(crate::protocol::copy_result(refusal)),
            Event::RecipientUnknown => not_found("agent", recipient_id),
            Event::ParentUnknown { message_id } => not_found("parent message", message_id.as_str()),
            Event::Error(e) => {
                let m: String = cat2("Database error sending message: ", e.as_str());
                failed(m.as_str())
            },
            _ => failed("Database error sending message: "),
        }
    }
}

// ---------------------------------------------------------------------
// broadcast_admin_message
// ---------------------------------------------------------------------

/// What a caller without an operator's authority reads.
pub const BROADCAST_DENIED: &'static str = "Unauthorized: operator role required to broadcast";

/// Whether an agent in service gets broadcasts: no system entry, and not the
/// administrator.
pub open spec fn gets_broadcasts(row: AgentRowView) -> bool {
    row.status != "system"@ && row.agent_id != "admin"@
}

/// The agents that get a broadcast.
pub open spec fn broadcast_recipients(rows: Seq<AgentRowView>) -> Seq<Seq<char>>
    decreases rows.len(),
{
    if rows.len() == 0 {
        Seq::empty()
    } else if gets_broadcasts(rows.last()) {
        broadcast_recipients(rows.drop_last()).push(rows.last().agent_id)
    } else {
        broadcast_recipients(rows.drop_last())
    }
}

/// The message of a broadcast to one recipient.
pub open spec fn broadcast_draft(c: CallView, recipient: Seq<char>) -> OutgoingMessageView {
    OutgoingMessageView {
        recipient_id: recipient,
        message_content: text_or(nonempty_field(c.arguments, "message"@), ""@),
        message_type: text_or(text_field(c.arguments, "message_type"@), "broadcast"@),
        priority: text_or(text_field(c.arguments, "priority"@), "high"@),
        subject: text_field(c.arguments, "subject"@),
        parent_message_id: None,
        allow_worker_to_worker: true,
        now: c.now,
    }
}

/// The part of a broadcast that sends to `ids[i..]`, from event `at` on, when
/// it was sent to `sent` before.
pub open spec fn broadcast_from(
    c: CallView,
    sender: Seq<char>,
    ids: Seq<Seq<char>>,
    i: int,
    at: int,
    h: Seq<EventView>,
    sent: Seq<Seq<char>>,
) -> ActionView
    decreases ids.len() - i,
{
    if i < 0 || i >= ids.len() {
        let draft = broadcast_draft(c, ""@);
        done_view(
            JsonView::Object(
                map![
                "sent_count"@ => int_json(sent.len() as int),
                "failed_count"@ => int_json(ids.len() - sent.len()),
                "recipients"@ => texts_json(sent),
                "message_type"@ => JsonView::Text(draft.message_type),
                "priority"@ => JsonView::Text(draft.priority)
            ],
            ),
            "Broadcast sent to "@ + decimal(sent.len()) + " agents. "@ + decimal_int(
                ids.len() - sent.len(),
            ) + " failed."@,
        )
    } else {
        match send_step(sender, broadcast_draft(c, ids[i]), h, at) {
            SendingView::Ask(a) => a,
            SendingView::Settled(next) => broadcast_from(
                c,
                sender,
                ids,
                i + 1,
                next,
                h,
                if h[at + 1] is MessageSent {
                    sent.push(ids[i])
                } else {
                    sent
                },
            ),
        }
    }
}

/// The dialogue of `broadcast_admin_message`: list the agents in service, and
/// send the message to each as if it were sent to it alone.
pub open spec fn broadcast_admin_message_next(c: CallView, h: Seq<EventView>) -> ActionView {
    match c.principal {
        None => denied_view(BROADCAST_DENIED@),
        Some(p) => if !p.operator_tier {
            denied_view(BROADCAST_DENIED@)
        } else if nonempty_field(c.arguments, "message"@) is None {
            invalid_view(Some("message"@), "message is required"@)
        } else if h.len() == 0 {
            ActionView::ListActiveAgents
        } else {
            match h[0] {
                EventView::Agents(rows) => {
                    let ids = broadcast_recipients(rows);
                    if ids.len() == 0 {
                        done_view(
                            JsonView::Object(
                                map![
                                "sent_count"@ => int_json(0),
                                "failed_count"@ => int_json(0),
                                "recipients"@ => JsonView::List(Seq::empty())
                            ],
                            ),
                            "No active agents to broadcast to"@,
                        )
                    } else {
                        broadcast_from(c, p.sender_label, ids, 0, 1, h, Seq::empty())
                    }
                },
                EventView::Error(e) => failed_view("Database error listing active agents: "@ + e),
                _ => failed_view("Database error listing active agents: "@),
            }
        },
    }
}

/// Nobody gets a broadcast but agents that are in service; neither a system
/// entry nor the administrator does.
pub proof fn broadcasts_reach_agents_only(rows: Seq<AgentRowView>, k: int)
    requires
        0 <= k < broadcast_recipients(rows).len(),
    ensures
        broadcast_recipients(rows)[k] != "admin"@,
        exists|i: int|
            0 <= i < rows.len() && gets_broadcasts(#[trigger] rows[i]) && rows[i].agent_id
                == broadcast_recipients(rows)[k],
    decreases rows.len(),
{
    let rest = broadcast_recipients(rows.drop_last());
    if k < rest.len() {
        broadcasts_reach_agents_only(rows.drop_last(), k);
        let i = choose|i: int|
            0 <= i < rows.len() - 1 && gets_broadcasts(#[trigger] rows.drop_last()[i])
                && rows.drop_last()[i].agent_id == rest[k];
        assert(rows[i] == rows.drop_last()[i]);
    } else {
        assert(gets_broadcasts(rows[rows.len() - 1]));
    }
}

/// `broadcast_admin_message`: a message to every agent in service.
pub struct BroadcastAdminMessageTool;

impl BroadcastAdminMessageTool {
    fn recipients(rows: &Vec<AgentRow>) -> (r: Vec<String>)
        ensures
            texts(r@) == broadcast_recipients(agent_rows(rows@)),
    {
        let mut r: Vec<String> = Vec::new();
        let mut i: usize = 0;
        let ghost all = agent_rows(rows@);
        proof {
            assert(texts(r@) =~= broadcast_recipients(all.subrange(0, 0)));
        }
        while i < rows.len()
            invariant
                all == agent_rows(rows@),
                i <= rows@.len(),
                texts(r@) == broadcast_recipients(all.subrange(0, i as int)),
            decreases rows@.len() - i,
        {
            let row: &AgentRow = &rows[i];
            let ghost before = r@;
            proof {
                let now = all.subrange(0, i + 1);
                assert(now.drop_last() =~= all.subrange(0, i as int));
                assert(now.last() == row@);
            }
            if !same(row.status.as_str(), "system") && !same(row.agent_id.as_str(), "admin") {
                r.push(own(row.agent_id.as_str()));
                proof {
                    assert(texts(r@) =~= texts(before).push(row@.agent_id));
                }
            }
            i = i + 1;
        }
        proof {
            assert(all.subrange(0, all.len() as int) =~= all);
        }
        r
    }

    fn finished(call: &Call, total: usize, sent: &Vec<String>) -> (r: Action)
        requires
            sent@.len() <= total,
        ensures
            forall|sender: Seq<char>, ids: Seq<Seq<char>>, at: int, h: Seq<EventView>|
                ids.len() == total ==> r@ == #[trigger] broadcast_from(
                    call@,
                    sender,
                    ids,
                    total as int,
                    at,
                    h,
                    texts(sent@),
                ),
    {
        let args: &Json = &call.arguments;
        let missed: usize = total - sent.len();
        let mut f: Fields = Fields::new();
        f.put("sent_count", jlen(sent.len()));
        f.put("failed_count", jlen(missed));
        f.put("recipients", jtexts(sent));
        f.put("message_type", jtext(str_or(args.text_at("message_type"), "broadcast")));
        f.put("priority", jtext(str_or(args.text_at("priority"), "high")));
        let a: String = show_usize(sent.len());
        let b: String = show_usize(missed);
        let message: String = cat5(
            "Broadcast sent to ",
            a.as_str(),
            " agents. ",
            b.as_str(),
            " failed.",
        );
        done(f.done(), message)
    }

    fn send_all(
        call: &Call,
        principal: &Principal,
        message_content: &str,
        ids: &Vec<String>,
        history: &Vec<Event>,
    ) -> (r: Action)
        requires
            history@.len() >= 1,
            nonempty_field(call@.arguments, "message"@) == Some(message_content@),
        ensures
            r@ == broadcast_from(
                call@,
                principal@.sender_label,
                texts(ids@),
                0,
                1,
                events(history@),
                Seq::empty(),
            ),
    {
        let args: &Json = &call.arguments;
        let mut sent: Vec<String> = Vec::new();
        let mut at: usize = 1;
        let mut i: usize = 0;
        let ghost start = broadcast_from(
            call@,
            principal@.sender_label,
            texts(ids@),
            0,
            1,
            events(history@),
            Seq::empty(),
        );
        proof {
            assert(texts(sent@) =~= Seq::empty());
        }
        while i < ids.len()
            invariant
                i <= ids@.len(),
                at <= history@.len(),
                sent@.len() <= i,
                *args == call.arguments,
                nonempty_field(call@.arguments, "message"@) == Some(message_content@),
                start == broadcast_from(
                    call@,
                    principal@.sender_label,
                    texts(ids@),
                    0,
                    1,
                    events(history@),
                    Seq::empty(),
                ),
                start == broadcast_from(
                    call@,
                    principal@.sender_label,
                    texts(ids@),
                    i as int,
                    at as int,
                    events(history@),
                    texts(sent@),
                ),
            decreases ids@.len() - i,
        {
            let draft: Draft = Draft {
                recipient_id: ids[i].as_str(),
                message_content,
                message_type: str_or(args.text_at("message_type"), "broadcast"),
                priority: str_or(args.text_at("priority"), "high"),
                subject: args.text_at("subject"),
                parent_message_id: None,
                now: call.now.as_str(),
            };
            proof {
                assert(draft@ == broadcast_draft(call@, texts(ids@)[i as int]));
            }
            match send_with_side_effects(principal, &draft, history, at) {
                Sending::Ask(a) => {
                    return a;
                },
                Sending::Settled(next) => {
                    let ghost before = sent@;
                    match &history[at + 1] {
                        Event::MessageSent { .. } => {
                            sent.push(own(ids[i].as_str()));
                            proof {
                                assert(texts(sent@) =~= texts(before).push(texts(ids@)[i as int]));
                            }
                        },
                        _ => {},
                    }
                    at = next;
                },
            }
            i = i + 1;
        }
        BroadcastAdminMessageTool::finished(call, ids.len(), &sent)
    }

    /// What to do after `history`.
    pub fn next(call: &Call, history: &Vec<Event>) -> (r: Action)
        ensures
            r@ == broadcast_admin_message_next(call@, events(history@)),
    {
        let principal: &Principal = match call.caller() {
            Some(p) => p,
            None => {
                return denied(BROADCAST_DENIED);
            },
        };
        if !principal.operator_tier {
            return denied(BROADCAST_DENIED);
        }
        let message_content: &str = match nonempty(&call.arguments, "message") {
            Some(s) => s,
            None => {
                return invalid("message", "message is required");
            },
        };
        if history.len() == 0 {
            return Action::ListActiveAgents;
        }
        match &history[0] {
            Event::Agents(rows) => {
                let ids: Vec<String> = BroadcastAdminMessageTool::recipients(rows);
                proof {
                    assert(texts(ids@).len() == ids@.len());
                }
                if ids.len() == 0 {
                    let none: Items = Items::new();
                    let mut f: Fields = Fields::new();
                    f.put("sent_count", jint(0));
                    f.put("failed_count", jint(0));
                    f.put("recipients", none.done());
                    return done(f.done(), own("No active agents to broadcast to"));
                }
                BroadcastAdminMessageTool::send_all(
                    call,
                    principal,
                    message_content,
                    &ids,
                    history,
                )
            },
            Event::Error(e) => {
                let m: String = cat2("Database error listing active agents: ", e.as_str());
                failed(m.as_str())
            },
            _ => failed("Database error listing active agents: "),
        }
    }
}

// ---------------------------------------------------------------------
// get_agent_messages
// ---------------------------------------------------------------------

/// What a caller who may not read messages reads.
pub const READ_MESSAGES_DENIED: &'static str = "Unauthorized: Valid agent token with the messages.view capability required to retrieve messages";

/// The sign of a priority.
pub open spec fn priority_sign(priority: Seq<char>) -> Seq<char> {
    if priority == "low"@ {
        "\u{1f535}"@
    } else if priority == "high"@ {
        "\u{1f7e1}"@
    } else if priority == "urgent"@ {
        "\u{1f534}"@
    } else {
        "\u{26aa}"@
    }
}

/// The sign of a priority: blue for low, yellow for high, red for urgent, and
/// white for any other.
pub fn priority_icon(priority: &str) -> (r: &'static str)
    ensures
        r@ == priority_sign(priority@),
{
    if same(priority, "low") {
        "\u{1f535}"
    } else if same(priority, "high") {
        "\u{1f7e1}"
    } else if same(priority, "urgent") {
        "\u{1f534}"
    } else {
        "\u{26aa}"
    }
}

/// Which messages a call asks for.
pub struct MessageWish {
    pub include_sent: bool,
    pub include_received: bool,
    pub mark_as_read: bool,
    pub unread_only: bool,
    pub limit: i64,
}

/// A flag, or `fallback` where it is not given.
pub open spec fn flag_or(b: Option<bool>, fallback: bool) -> bool {
    match b {
        Some(x) => x,
        None => fallback,
    }
}

fn or_flag(b: Option<bool>, fallback: bool) -> (r: bool)
    ensures
        r == flag_or(b, fallback),
{
    match b {
        Some(x) => x,
        None => fallback,
    }
}

/// Which messages a call asks for: received ones, which are then marked as
/// read, and at most twenty, unless it says otherwise.
pub open spec fn message_wish(args: JsonView) -> MessageWish {
    MessageWish {
        include_sent: flag_or(bool_field(args, "include_sent"@), false),
        include_received: flag_or(bool_field(args, "include_received"@), true),
        mark_as_read: flag_or(bool_field(args, "mark_as_read"@), true),
        unread_only: flag_or(bool_field(args, "unread_only"@), false),
        limit: match int_field(args, "limit"@) {
            Some(n) => if 1 <= n <= 100 {
                n
            } else {
                20
            },
            None => 20,
        },
    }
}

fn read_wish(args: &Json) -> (r: MessageWish)
    ensures
        r == message_wish(args@),
{
    MessageWish {
        include_sent: or_flag(args.flag_at("include_sent"), false),
        include_received: or_flag(args.flag_at("include_received"), true),
        mark_as_read: or_flag(args.flag_at("mark_as_read"), true),
        unread_only: or_flag(args.flag_at("unread_only"), false),
        limit: match args.int_at("limit") {
            Some(n) => if 1 <= n && n <= 100 {
                n
            } else {
                20
            },
            None => 20,
        },
    }
}

/// Whether a message waits to be read by the agent.
pub open spec fn waits_for(m: MessageRowView, agent_id: Seq<char>) -> bool {
    m.recipient_id == agent_id && !m.read
}

/// The ids of the messages that wait to be read by the agent.
pub open spec fn unread_ids(rows: Seq<MessageRowView>, agent_id: Seq<char>) -> Seq<Seq<char>>
    decreases rows.len(),
{
    if rows.len() == 0 {
        Seq::empty()
    } else if waits_for(rows.last(), agent_id) {
        unread_ids(rows.drop_last(), agent_id).push(rows.last().message_id)
    } else {
        unread_ids(rows.drop_last(), agent_id)
    }
}

/// The ids that a fetch marks as read.
pub open spec fn ids_to_mark(
    rows: Seq<MessageRowView>,
    agent_id: Seq<char>,
    wish: MessageWish,
) -> Seq<Seq<char>> {
    if wish.mark_as_read && wish.include_received {
        unread_ids(rows, agent_id)
    } else {
        Seq::empty()
    }
}

/// The title of a message and whether it was made up; a reply has none.
pub open spec fn shown_title(m: MessageRowView) -> (Option<Seq<char>>, bool) {
    if m.parent_message_id is Some {
        (None, false)
    } else {
        (m.shown_subject, m.subject_is_placeholder)
    }
}

/// A message as a JSON object.
pub open spec fn message_json(m: MessageRowView) -> JsonView {
    JsonView::Object(
        map![
        "message_id"@ => JsonView::Text(m.message_id),
        "sender_id"@ => JsonView::Text(m.sender_id),
        "recipient_id"@ => JsonView::Text(m.recipient_id),
        "message_content"@ => JsonView::Text(m.message_content),
        "message_type"@ => JsonView::Text(m.message_type),
        "priority"@ => JsonView::Text(m.priority),
        "timestamp"@ => JsonView::Text(m.timestamp),
        "delivered"@ => JsonView::Bool(m.delivered),
        "read"@ => JsonView::Bool(m.read),
        "subject"@ => opt_json(shown_title(m).0),
        "subject_is_placeholder"@ => JsonView::Bool(shown_title(m).1),
        "parent_message_id"@ => opt_json(m.parent_message_id)
    ],
    )
}

/// The line under a message's head that names its title or what it replies to.
pub open spec fn title_lines(m: MessageRowView) -> Seq<Seq<char>> {
    match shown_title(m) {
        (Some(s), false) => seq!["   Subject: "@ + s],
        (Some(s), true) => seq!["   Subject (auto): "@ + s],
        (None, _) => match m.parent_message_id {
            Some(parent) => seq!["   \u{21b3} reply to: "@ + parent],
            None => Seq::empty(),
        },
    }
}

/// The head of a message: its direction, whether it was read, its priority,
/// its type and the other agent.
pub open spec fn head_line(m: MessageRowView, agent_id: Seq<char>) -> Seq<char> {
    (if m.sender_id == agent_id {
        "\u{27a1}\u{fe0f}"@
    } else {
        "\u{2b05}\u{fe0f}"@
    }) + " "@ + (if m.read {
        "\u{1f4d6}"@
    } else {
        "\u{1f4e9}"@
    }) + " "@ + priority_sign(m.priority) + " ["@ + m.message_type + "] "@ + (if m.sender_id
        == agent_id {
        m.recipient_id
    } else {
        m.sender_id
    })
}

/// The lines that show a message.
pub open spec fn message_lines(m: MessageRowView, agent_id: Seq<char>) -> Seq<Seq<char>> {
    seq![head_line(m, agent_id), "   "@ + m.timestamp] + title_lines(m) + seq![
        "   "@ + m.message_content,
        ""@,
    ]
}

/// The lines that show messages, one after the other.
pub open spec fn all_lines(rows: Seq<MessageRowView>, agent_id: Seq<char>) -> Seq<Seq<char>>
    decreases rows.len(),
{
    if rows.len() == 0 {
        Seq::empty()
    } else {
        all_lines(rows.drop_last(), agent_id) + message_lines(rows.last(), agent_id)
    }
}

/// The outcome of a fetch.
pub open spec fn messages_view(
    agent_id: Seq<char>,
    rows: Seq<MessageRowView>,
    limit: i64,
) -> ActionView {
    if rows.len() == 0 {
        done_view(
            JsonView::Object(
                map![
                "agent_id"@ => JsonView::Text(agent_id),
                "messages"@ => JsonView::List(Seq::empty()),
                "count"@ => int_json(0)
            ],
            ),
            "No messages found"@,
        )
    } else {
        done_view(
            JsonView::Object(
                map![
                "agent_id"@ => JsonView::Text(agent_id),
                "count"@ => int_json(rows.len() as int),
                "messages"@ => JsonView::List(
                    rows.map_values(|m: MessageRowView| message_json(m)),
                )
            ],
            ),
            joined(
                seq![
                    "Messages for "@ + agent_id + " (showing "@ + decimal(rows.len()) + " of max "@
                        + decimal_int(limit as int) + "):"@,
                    ""@,
                ] + all_lines(rows, agent_id),
                "\n"@,
            ),
        )
    }
}

/// The dialogue of `get_agent_messages`: read the messages, mark those that
/// waited as read, and show them as they were.
pub open spec fn get_agent_messages_next(c: CallView, h: Seq<EventView>) -> ActionView {
    let wish = message_wish(c.arguments);
    if !(identified(c.principal) && caller_has(c.principal, Capability::MessagesView)) {
        denied_view(READ_MESSAGES_DENIED@)
    } else if !wish.include_sent && !wish.include_received {
        invalid_view(None, "Must include sent or received messages"@)
    } else {
        let agent_id = caller_agent(c.principal)->0;
        if h.len() == 0 {
            ActionView::ListMessages {
                agent_id,
                include_sent: wish.include_sent,
                include_received: wish.include_received,
                message_type: text_field(c.arguments, "message_type"@),
                unread_only: wish.unread_only,
                limit: wish.limit,
            }
        } else {
            match h[0] {
                EventView::Messages(rows) => {
                    let ids = ids_to_mark(rows, agent_id, wish);
                    if h.len() == 1 && ids.len() > 0 {
                        ActionView::MarkRead { message_ids: ids, recipient: agent_id }
                    } else {
                        messages_view(agent_id, rows, wish.limit)
                    }
                },
                EventView::Error(e) => failed_view("Database error retrieving messages: "@ + e),
                _ => failed_view("Database error retrieving messages: "@),
            }
        }
    }
}

/// Only messages that the fetch returned, that are addressed to the fetching
/// agent and that were unread are marked as read: never one that the agent
/// sent to another, never one that the filters left out.
pub proof fn only_returned_messages_are_marked(c: CallView, h: Seq<EventView>, k: int)
    requires
        get_agent_messages_next(c, h) is MarkRead,
        0 <= k < get_agent_messages_next(c, h)->message_ids.len(),
    ensures
        h[0] is Messages,
        exists|i: int|
            0 <= i < h[0]->Messages_0.len() && waits_for(
                #[trigger] h[0]->Messages_0[i],
                caller_agent(c.principal)->0,
            ) && h[0]->Messages_0[i].message_id == get_agent_messages_next(c, h)->message_ids[k],
{
    let rows = h[0]->Messages_0;
    lemma_unread_ids(rows, caller_agent(c.principal)->0, k);
}

proof fn lemma_unread_ids(rows: Seq<MessageRowView>, agent_id: Seq<char>, k: int)
    requires
        0 <= k < unread_ids(rows, agent_id).len(),
    ensures
        exists|i: int|
            0 <= i < rows.len() && waits_for(#[trigger] rows[i], agent_id) && rows[i].message_id
                == unread_ids(rows, agent_id)[k],
    decreases rows.len(),
{
    let rest = unread_ids(rows.drop_last(), agent_id);
    if k < rest.len() {
        lemma_unread_ids(rows.drop_last(), agent_id, k);
        let i = choose|i: int|
            0 <= i < rows.len() - 1 && waits_for(#[trigger] rows.drop_last()[i], agent_id)
                && rows.drop_last()[i].message_id == rest[k];
        assert(rows[i] == rows.drop_last()[i]);
    } else {
        assert(waits_for(rows[rows.len() - 1], agent_id));
    }
}

/// `get_agent_messages`: the messages of an agent.
pub struct GetAgentMessagesTool;

impl GetAgentMessagesTool {
    fn unread(rows: &Vec<MessageRow>, agent_id: &str) -> (r: Vec<String>)
        ensures
            texts(r@) == unread_ids(message_rows(rows@), agent_id@),
    {
        let mut r: Vec<String> = Vec::new();
        let mut i: usize = 0;
        let ghost all = message_rows(rows@);
        proof {
            assert(texts(r@) =~= unread_ids(all.subrange(0, 0), agent_id@));
        }
        while i < rows.len()
            invariant
                all == message_rows(rows@),
                i <= rows@.len(),
                texts(r@) == unread_ids(all.subrange(0, i as int), agent_id@),
            decreases rows@.len() - i,
        {
            let row: &MessageRow = &rows[i];
            let ghost before = r@;
            proof {
                let now = all.subrange(0, i + 1);
                assert(now.drop_last() =~= all.subrange(0, i as int));
                assert(now.last() == row@);
            }
            if same(row.recipient_id.as_str(), agent_id) && !row.read {
                r.push(own(row.message_id.as_str()));
                proof {
                    assert(texts(r@) =~= texts(before).push(row@.message_id));
                }
            }
            i = i + 1;
        }
        proof {
            assert(all.subrange(0, all.len() as int) =~= all);
        }
        r
    }

    fn title(m: &MessageRow) -> (r: (Option<&str>, bool))
        ensures
            (opt_str(r.0), r.1) == shown_title(m@),
    {
        match &m.parent_message_id {
            Some(_) => (None, false),
            None => (borrow_opt(&m.shown_subject), m.subject_is_placeholder),
        }
    }

    fn json(m: &MessageRow) -> (r: Json)
        ensures
            r@ == message_json(m@),
    {
        let (title, placeholder) = GetAgentMessagesTool::title(m);
        let mut f: Fields = Fields::new();
        f.put("message_id", jtext(m.message_id.as_str()));
        f.put("sender_id", jtext(m.sender_id.as_str()));
        f.put("recipient_id", jtext(m.recipient_id.as_str()));
        f.put("message_content", jtext(m.message_content.as_str()));
        f.put("message_type", jtext(m.message_type.as_str()));
        f.put("priority", jtext(m.priority.as_str()));
        f.put("timestamp", jtext(m.timestamp.as_str()));
        f.put("delivered", Json::Bool(m.delivered));
        f.put("read", Json::Bool(m.read));
        f.put("subject", jopt(title));
        f.put("subject_is_placeholder", Json::Bool(placeholder));
        f.put("parent_message_id", jopt(borrow_opt(&m.parent_message_id)));
        f.done()
    }

    fn head(m: &MessageRow, agent_id: &str) -> (r: String)
        ensures
            r@ == head_line(m@, agent_id@),
    {
        let own_message: bool = same(m.sender_id.as_str(), agent_id);
        let direction: &str = if own_message {
            "\u{27a1}\u{fe0f}"
        } else {
            "\u{2b05}\u{fe0f}"
        };
        let status: &str = if m.read {
            "\u{1f4d6}"
        } else {
            "\u{1f4e9}"
        };
        let other: &str = if own_message {
            m.recipient_id.as_str()
        } else {
            m.sender_id.as_str()
        };
        let start: String = cat6(
            direction,
            " ",
            status,
            " ",
            priority_icon(m.priority.as_str()),
            " [",
        );
        cat4(start.as_str(), m.message_type.as_str(), "] ", other)
    }

    fn show(m: &MessageRow, agent_id: &str, lines: &mut Vec<String>)
        ensures
            texts(final(lines)@) == texts(old(lines)@) + message_lines(m@, agent_id@),
    {
        let ghost before = texts(lines@);
        lines.push(GetAgentMessagesTool::head(m, agent_id));
        lines.push(cat2("   ", m.timestamp.as_str()));
        proof {
            assert(texts(lines@) =~= before + seq![
                head_line(m@, agent_id@),
                "   "@ + m@.timestamp,
            ]);
        }
        let ghost middle = texts(lines@);
        let (title, placeholder) = GetAgentMessagesTool::title(m);
        match title {
            Some(s) => {
                if placeholder {
                    lines.push(cat2("   Subject (auto): ", s));
                } else {
                    lines.push(cat2("   Subject: ", s));
                }
            },
            None => {
                match &m.parent_message_id {
                    Some(parent) => {
                        lines.push(cat2("   \u{21b3} reply to: ", parent.as_str()));
                    },
                    None => {},
                }
            },
        }
        proof {
            assert(texts(lines@) =~= middle + title_lines(m@));
        }
        let ghost late = texts(lines@);
        lines.push(cat2("   ", m.message_content.as_str()));
        lines.push(own(""));
        proof {
            assert(texts(lines@) =~= late + seq!["   "@ + m@.message_content, ""@]);
            assert(texts(lines@) =~= before + message_lines(m@, agent_id@));
        }
    }

    fn shown(agent_id: &str, rows: &Vec<MessageRow>, limit: i64) -> (r: Action)
        ensures
            r@ == messages_view(agent_id@, message_rows(rows@), limit),
    {
        let mut items: Items = Items::new();
        if rows.len() == 0 {
            let mut f: Fields = Fields::new();
            f.put("agent_id", jtext(agent_id));
            f.put("messages", items.done());
            f.put("count", jint(0));
            return done(f.done(), own("No messages found"));
        }
        let count: String = show_usize(rows.len());
        let most: String = show_i64(limit);
        let mut lines: Vec<String> = Vec::new();
        lines.push(
            cat7(
                "Messages for ",
                agent_id,
                " (showing ",
                count.as_str(),
                " of max ",
                most.as_str(),
                "):",
            ),
        );
        lines.push(own(""));
        let ghost head = seq![
            "Messages for "@ + agent_id@ + " (showing "@ + decimal(rows@.len()) + " of max "@
                + decimal_int(limit as int) + "):"@,
            ""@,
        ];
        let ghost all = message_rows(rows@);
        let mut i: usize = 0;
        proof {
            assert(texts(lines@) =~= head + all_lines(all.subrange(0, 0), agent_id@));
        }
        while i < rows.len()
            invariant
                all == message_rows(rows@),
                i <= rows@.len(),
                texts(lines@) == head + all_lines(all.subrange(0, i as int), agent_id@),
                items@.len() == i,
                forall|k: int| 0 <= k < i ==> #[trigger] items@[k] == message_json(rows@[k]@),
            decreases rows@.len() - i,
        {
            proof {
                let now = all.subrange(0, i + 1);
                assert(now.drop_last() =~= all.subrange(0, i as int));
                assert(now.last() == rows@[i as int]@);
                assert(head + (all_lines(now.drop_last(), agent_id@) + message_lines(
                    now.last(),
                    agent_id@,
                )) =~= head + all_lines(now.drop_last(), agent_id@) + message_lines(
                    now.last(),
                    agent_id@,
                ));
            }
            GetAgentMessagesTool::show(&rows[i], agent_id, &mut lines);
            items.push(GetAgentMessagesTool::json(&rows[i]));
            i = i + 1;
        }
        proof {
            assert(all.subrange(0, all.len() as int) =~= all);
            assert(items@ =~= all.map_values(|m: MessageRowView| message_json(m)));
        }
        let mut f: Fields = Fields::new();
        f.put("agent_id", jtext(agent_id));
        f.put("count", jlen(rows.len()));
        f.put("messages", items.done());
        done(f.done(), join(&lines, "\n"))
    }

    /// What to do after `history`.
    pub fn next(call: &Call, history: &Vec<Event>) -> (r: Action)
        ensures
            r@ == get_agent_messages_next(call@, events(history@)),
    {
        if !can_read_own_messages(call.caller()) {
            return denied(READ_MESSAGES_DENIED);
        }
        let agent_id: &str = match agent_of(call.caller()) {
            Some(id) => id,
            None => "",
        };
        let wish: MessageWish = read_wish(&call.arguments);
        if !wish.include_sent && !wish.include_received {
            return Action::Finish(
                ToolResult::Invalid {
                    field: None,
                    message: own("Must include sent or received messages"),
                },
            );
        }
        if history.len() == 0 {
            return Action::ListMessages {
                agent_id: own(agent_id),
                include_sent: wish.include_sent,
                include_received: wish.include_received,
                message_type: own_opt(call.arguments.text_at("message_type")),
                unread_only: wish.unread_only,
                limit: wish.limit,
            };
        }
        match &history[0] {
            Event::Messages(rows) => {
                if history.len() == 1 && wish.mark_as_read && wish.include_received {
                    let ids: Vec<String> = GetAgentMessagesTool::unread(rows, agent_id);
                    proof {
                        assert(texts(ids@).len() == ids@.len());
                    }
                    if ids.len() > 0 {
                        return Action::MarkRead { message_ids: ids, recipient: own(agent_id) };
                    }
                }
                GetAgentMessagesTool::shown(agent_id, rows, wish.limit)
            },
            Event::Error(e) => {
                let m: String = cat2("Database error retrieving messages: ", e.as_str());
                failed(m.as_str())
            },
            _ => failed("Database error retrieving messages: "),
        }
    }
}

} // verus!

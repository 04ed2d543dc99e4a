//! Tools that write the project context, and the rules on who may write what.

use crate::admin_tools::{str_or, text_or};
use crate::agent_communication_tools::{nonempty, nonempty_field};
use crate::context_health::{
    is_config, is_config_key, is_key, is_valid_memory_key,
};
use crate::json::{
    compact_text, field, int_json, jlen, jtext, jtexts, lemma_list_view, list_field, list_view,
    text_field, texts_json, Fields, Json, JsonView,
};
use crate::principal::{actor_label, is_operator, label_or};
use crate::protocol::{
    conflict, conflict_view, db_error, db_error_text, done, done_view, event_failed, events,
    failed_view, invalid, invalid_view, is_failure, Action, ActionView, Call, CallView, Event,
    EventView, NewContext, NewContextView, ResultView, ToolResult,
};
use crate::text::{
    add_line, add_lines, cat2, cat3, cat4, cat5, decimal, join, joined, length, no_lines, opt, own,
    own_opt, same, show_usize, texts,
};
use vstd::prelude::*;

verus! {

/// The longest key.
pub const IDENTIFIER_MAX_LEN: usize = 256;

/// The name under which a writer's changes are recorded.
pub open spec fn writer(c: CallView) -> Seq<char> {
    label_or(c.principal, "unknown"@)
}

/// Whether the caller acts with an operator's authority.
pub(crate) fn is_admin(call: &Call) -> (r: bool)
    ensures
        r == is_operator(call@.principal),
{
    match call.caller() {
        Some(p) => p.operator_tier,
        None => false,
    }
}

// ---------------------------------------------------------------------
// Who may write which entry
// ---------------------------------------------------------------------

/// Where the check of a writer stands.
pub enum GateView {
    /// This is to be done next.
    Ask(ActionView),
    /// The write is refused.
    Refused(ResultView),
    /// The write is allowed; the check ends before this event.
    Open(int),
}

/// Where the check of a writer stands.
#[derive(Debug)]
pub enum Gate {
    Ask(Action),
    Refused(ToolResult),
    Open(usize),
}

impl View for Gate {
    type V = GateView;

    open spec fn view(&self) -> GateView {
        match *self {
            Gate::Ask(a) => GateView::Ask(a@),
            Gate::Refused(r) => GateView::Refused(r@),
            Gate::Open(n) => GateView::Open(n as int),
        }
    }
}

/// The refusal of a key that belongs to the settings.
pub open spec fn config_refusal() -> ResultView {
    ResultView::Invalid {
        field: Some("context_key"@),
        message: "'config_*' keys are not stored in project memory -- they live in the operator-managed project settings store. Choose a non-config_* key for memory, or ask a project operator to set this via project settings."@,
    }
}

/// The refusal of a key that belongs to the settings.
pub fn config_key_error() -> (r: ToolResult)
    ensures
        r@ == config_refusal(),
{
    ToolResult::Invalid {
        field: Some(own("context_key")),
        message: own(
            "'config_*' keys are not stored in project memory -- they live in the operator-managed project settings store. Choose a non-config_* key for memory, or ask a project operator to set this via project settings.",
        ),
    }
}

/// The refusal of a key that another created.
pub open spec fn foreign_refusal(key: Seq<char>, creator: Seq<char>) -> ResultView {
    ResultView::PermissionDenied {
        reason: "key '"@ + key + "' was created by '"@ + creator
            + "'; only its creator or admin can modify it"@,
    }
}

/// Whether a writer may write the entry under `key`.
///
/// No key may be too long or belong to the settings, whoever writes. Beyond
/// that an operator may write any; anyone else a new one, or one that it
/// created. An entry whose creator is unknown is the operators'.
pub open spec fn authorize(
    actor: Seq<char>,
    key: Seq<char>,
    admin: bool,
    h: Seq<EventView>,
    at: int,
) -> GateView {
    if key.len() > IDENTIFIER_MAX_LEN {
        GateView::Refused(
            ResultView::Invalid {
                field: Some("context_key"@),
                message: "context_key exceeds the maximum length of 256 characters."@,
            },
        )
    } else if is_config(key) {
        GateView::Refused(config_refusal())
    } else if admin {
        GateView::Open(at)
    } else if h.len() <= at {
        GateView::Ask(ActionView::GetContext { context_key: key })
    } else {
        match h[at] {
            EventView::Context(None) => GateView::Open(at + 1),
            EventView::Context(Some(row)) => match row.created_by {
                None => GateView::Refused(foreign_refusal(key, "(unknown -- legacy entry)"@)),
                Some(creator) => if creator == actor {
                    GateView::Open(at + 1)
                } else {
                    GateView::Refused(foreign_refusal(key, creator))
                },
            },
            _ => GateView::Refused(ResultView::Failed { message: db_error_text() }),
        }
    }
}

fn foreign(key: &str, creator: &str) -> (r: ToolResult)
    ensures
        r@ == foreign_refusal(key@, creator@),
{
    ToolResult::PermissionDenied {
        reason: cat5(
            "key '",
            key,
            "' was created by '",
            creator,
            "'; only its creator or admin can modify it",
        ),
    }
}

/// Whether `actor` may write the entry under `context_key`; the answer to the
/// lookup of the entry is event `at`.
pub fn check_write_authorization(
    actor: &str,
    context_key: &str,
    admin: bool,
    history: &Vec<Event>,
    at: usize,
) -> (r: Gate)
    requires
        at <= history@.len(),
    ensures
        r@ == authorize(actor@, context_key@, admin, events(history@), at as int),
        r matches Gate::Open(n) ==> at <= n <= history@.len(),
{
    if length(context_key) > IDENTIFIER_MAX_LEN {
        return Gate::Refused(
            ToolResult::Invalid {
                field: Some(own("context_key")),
                message: own("context_key exceeds the maximum length of 256 characters."),
            },
        );
    }
    if is_config_key(context_key) {
        return Gate::Refused(config_key_error());
    }
    if admin {
        return Gate::Open(at);
    }
    if history.len() <= at {
        return Gate::Ask(Action::GetContext { context_key: own(context_key) });
    }
    match &history[at] {
        Event::Context(None) => Gate::Open(at + 1),
        Event::Context(Some(row)) => match &row.created_by {
            None => Gate::Refused(foreign(context_key, "(unknown -- legacy entry)")),
            Some(creator) => if same(creator.as_str(), actor) {
                Gate::Open(at + 1)
            } else {
                Gate::Refused(foreign(context_key, creator.as_str()))
            },
        },
        _ => Gate::Refused(
            ToolResult::Failed {
                message: own(
                    "A database error occurred; it has been logged. Retry, or ask an operator to check logs.",
                ),
            },
        ),
    }
}

/// Whether a writer may write the entries under `keys[i..]`; the check begins
/// at event `at`.
pub open spec fn authorize_from(
    actor: Seq<char>,
    keys: Seq<Seq<char>>,
    i: int,
    admin: bool,
    h: Seq<EventView>,
    at: int,
) -> GateView
    decreases keys.len() - i,
{
    if i < 0 || i >= keys.len() {
        GateView::Open(at)
    } else {
        match authorize(actor, keys[i], admin, h, at) {
            GateView::Open(n) => authorize_from(actor, keys, i + 1, admin, h, n),
            g => g,
        }
    }
}

pub(crate) fn check_all(
    actor: &str,
    keys: &Vec<String>,
    admin: bool,
    history: &Vec<Event>,
) -> (r: Gate)
    ensures
        r@ == authorize_from(actor@, texts(keys@), 0, admin, events(history@), 0),
        r matches Gate::Open(n) ==> n <= history@.len(),
{
    let mut at: usize = 0;
    let mut i: usize = 0;
    let ghost whole = authorize_from(actor@, texts(keys@), 0, admin, events(history@), 0);
    while i < keys.len()
        invariant
            i <= keys@.len(),
            at <= history@.len(),
            whole == authorize_from(actor@, texts(keys@), 0, admin, events(history@), 0),
            whole == authorize_from(
                actor@,
                texts(keys@),
                i as int,
                admin,
                events(history@),
                at as int,
            ),
        decreases keys@.len() - i,
    {
        proof {
            assert(texts(keys@)[i as int] == keys@[i as int]@);
        }
        match check_write_authorization(actor, keys[i].as_str(), admin, history, at) {
            Gate::Open(n) => {
                at = n;
            },
            Gate::Ask(a) => {
                return Gate::Ask(a);
            },
            Gate::Refused(x) => {
                return Gate::Refused(x);
            },
        }
        i = i + 1;
    }
    Gate::Open(at)
}

/// Where a batch is allowed, every key of it is: none is too long, none
/// belongs to the settings.
pub proof fn allowed_batches_hold_proper_keys(
    actor: Seq<char>,
    keys: Seq<Seq<char>>,
    i: int,
    admin: bool,
    h: Seq<EventView>,
    at: int,
)
    requires
        0 <= i,
        authorize_from(actor, keys, i, admin, h, at) is Open,
    ensures
        forall|k: int|
            i <= k < keys.len() ==> !is_config(#[trigger] keys[k]) && keys[k].len()
                <= IDENTIFIER_MAX_LEN,
    decreases keys.len() - i,
{
    if i < keys.len() {
        let n = authorize(actor, keys[i], admin, h, at)->Open_0;
        allowed_batches_hold_proper_keys(actor, keys, i + 1, admin, h, n);
    }
}

/// Whoever is no operator may write an entry only where there is none yet, or
/// where it created the entry itself.
pub proof fn entries_belong_to_their_creators(
    actor: Seq<char>,
    key: Seq<char>,
    h: Seq<EventView>,
    at: int,
)
    requires
        0 <= at,
        authorize(actor, key, false, h, at) is Open,
    ensures
        at < h.len(),
        h[at] matches EventView::Context(row) && match row {
            Some(r) => r.created_by == Some(actor),
            None => true,
        },
{
}

/// The texts of an event; none where it has none.
pub open spec fn texts_in(e: EventView) -> Seq<Seq<char>> {
    match e {
        EventView::Texts(v) => v,
        _ => Seq::empty(),
    }
}

pub(crate) fn wakes_json(e: &Event) -> (r: Json)
    ensures
        r@ == texts_json(texts_in(e@)),
{
    match e {
        Event::Texts(v) => jtexts(v),
        _ => {
            let none: Vec<String> = no_lines();
            jtexts(&none)
        },
    }
}

fn one_key(key: &str) -> (r: Vec<String>)
    ensures
        texts(r@) == seq![key@],
{
    let mut v: Vec<String> = no_lines();
    add_line(&mut v, own(key));
    proof {
        assert(texts(v@) =~= seq![key@]);
    }
    v
}

// ---------------------------------------------------------------------
// create_project_context
// ---------------------------------------------------------------------

/// The end of a write to one key: wake whom it concerns, and say so.
pub open spec fn wake_and_end(
    key: Seq<char>,
    message: Seq<char>,
    h: Seq<EventView>,
    at: int,
) -> ActionView {
    if h.len() <= at {
        ActionView::DeliverWakes { context_keys: seq![key], bulk: false }
    } else {
        done_view(
            JsonView::Object(
                map![
                "context_key"@ => JsonView::Text(key),
                "wakes"@ => texts_json(texts_in(h[at]))
            ],
            ),
            message,
        )
    }
}

fn finish_write(key: &str, message: String, history: &Vec<Event>, at: usize) -> (r: Action)
    ensures
        r@ == wake_and_end(key@, message@, events(history@), at as int),
{
    if history.len() <= at {
        return Action::DeliverWakes { context_keys: one_key(key), bulk: false };
    }
    let mut f: Fields = Fields::new();
    f.put("context_key", jtext(key));
    f.put("wakes", wakes_json(&history[at]));
    done(f.done(), message)
}

/// The dialogue of `create_project_context`: check the writer, store the
/// entry, write the audit line, wake whom it concerns.
pub open spec fn create_project_context_next(c: CallView, h: Seq<EventView>) -> ActionView {
    let value = field(c.arguments, "context_value"@);
    match nonempty_field(c.arguments, "context_key"@) {
        None => invalid_view(Some("context_key"@), "context_key is required"@),
        Some(key) => if !is_key(key) {
            invalid_view(
                Some("context_key"@),
                "context_key may contain only letters, digits, and . _ / - (A-Z a-z 0-9 . _ / -)."@,
            )
        } else if value is None {
            invalid_view(Some("context_value"@), "context_value is required"@)
        } else {
            match authorize(writer(c), key, is_operator(c.principal), h, 0) {
                GateView::Ask(a) => a,
                GateView::Refused(r) => ActionView::Finish(r),
                GateView::Open(n) => if h.len() == n {
                    ActionView::CreateContext(
                        NewContextView {
                            context_key: key,
                            value: compact_text(value->0),
                            description: text_field(c.arguments, "description"@),
                            created_by: writer(c),
                            timestamp: c.now,
                        },
                    )
                } else {
                    match h[n] {
                        EventView::Changed(true) => if h.len() == n + 1 {
                            ActionView::LogAction {
                                agent_id: writer(c),
                                action_type: "created_memory"@,
                                task_id: None,
                                details: JsonView::Object(
                                    map!["context_key"@ => JsonView::Text(key)],
                                ),
                                timestamp: c.now,
                            }
                        } else {
                            wake_and_end(
                                key,
                                "Memory '"@ + key + "' created successfully"@,
                                h,
                                n + 2,
                            )
                        },
                        EventView::Changed(false) => conflict_view(
                            "Memory key '"@ + key
                                + "' already exists. create_project_context is insert-only -- use update_project_context to change an existing key's value."@,
                        ),
                        _ => failed_view(db_error_text()),
                    }
                },
            }
        },
    }
}

/// Whoever calls, an operator included, no entry is created under a key of the
/// settings, under one that is too long or under one with a character that
/// keys may not hold.
pub proof fn created_keys_are_proper(c: CallView, h: Seq<EventView>, n: NewContextView)
    requires
        create_project_context_next(c, h) == ActionView::CreateContext(n),
    ensures
        is_key(n.context_key),
        !is_config(n.context_key),
        n.context_key.len() <= IDENTIFIER_MAX_LEN,
{
}

/// `create_project_context`: a new entry.
pub struct CreateProjectContextTool;

impl CreateProjectContextTool {
    /// What to do after `history`.
    pub fn next(call: &Call, history: &Vec<Event>) -> (r: Action)
        ensures
            r@ == create_project_context_next(call@, events(history@)),
    {
        let args: &Json = &call.arguments;
        let key: &str = match nonempty(args, "context_key") {
            Some(k) => k,
            None => {
                return invalid("context_key", "context_key is required");
            },
        };
        if !is_valid_memory_key(key) {
            return invalid(
                "context_key",
                "context_key may contain only letters, digits, and . _ / - (A-Z a-z 0-9 . _ / -).",
            );
        }
        let value: &Json = match args.get("context_value") {
            Some(v) => v,
            None => {
                return invalid("context_value", "context_value is required");
            },
        };
        let actor: &str = actor_label(call.caller(), "unknown");
        match check_write_authorization(actor, key, is_admin(call), history, 0) {
            Gate::Ask(a) => a,
            Gate::Refused(r) => Action::Finish(r),
            Gate::Open(n) => {
                if history.len() == n {
                    return Action::CreateContext(
                        NewContext {
                            context_key: own(key),
                            value: value.compact(),
                            description: own_opt(args.text_at("description")),
                            created_by: own(actor),
                            timestamp: own(call.now.as_str()),
                        },
                    );
                }
                match &history[n] {
                    Event::Changed(true) => {
                        if history.len() == n + 1 {
                            let mut f: Fields = Fields::new();
                            f.put("context_key", jtext(key));
                            return Action::LogAction {
                                agent_id: own(actor),
                                action_type: own("created_memory"),
                                task_id: None,
                                details: f.done(),
                                timestamp: own(call.now.as_str()),
                            };
                        }
                        finish_write(
                            key,
                            cat3("Memory '", key, "' created successfully"),
                            history,
                            n + 2,
                        )
                    },
                    Event::Changed(false) => conflict(
                        cat3(
                            "Memory key '",
                            key,
                            "' already exists. create_project_context is insert-only -- use update_project_context to change an existing key's value.",
                        ),
                    ),
                    _ => db_error(),
                }
            },
        }
    }
}

// ---------------------------------------------------------------------
// One update
// ---------------------------------------------------------------------

/// The dialogue of one update: check the writer, store the entry, write the
/// audit line, wake whom it concerns. Without a description the entry keeps
/// its own.
pub open spec fn single_update_next(
    c: CallView,
    key: Seq<char>,
    value: JsonView,
    h: Seq<EventView>,
) -> ActionView {
    let description = text_field(c.arguments, "description"@);
    match authorize(writer(c), key, is_operator(c.principal), h, 0) {
        GateView::Ask(a) => a,
        GateView::Refused(r) => ActionView::Finish(r),
        GateView::Open(n) => if h.len() == n {
            ActionView::UpsertContext {
                context_key: key,
                value: compact_text(value),
                description,
                description_provided: description is Some,
                updated_by: writer(c),
                timestamp: c.now,
            }
        } else if is_failure(h[n]) {
            failed_view(db_error_text())
        } else if h.len() == n + 1 {
            ActionView::LogAction {
                agent_id: writer(c),
                action_type: "updated_context"@,
                task_id: None,
                details: JsonView::Object(
                    map![
                    "context_key"@ => JsonView::Text(key),
                    "action"@ => JsonView::Text("set/update"@)
                ],
                ),
                timestamp: c.now,
            }
        } else {
            wake_and_end(
                key,
                "Project context updated successfully for key '"@ + key + "'."@,
                h,
                n + 2,
            )
        },
    }
}

fn single_update_project_context(
    call: &Call,
    key: &str,
    value: &Json,
    history: &Vec<Event>,
) -> (r: Action)
    ensures
        r@ == single_update_next(call@, key@, value@, events(history@)),
{
    let actor: &str = actor_label(call.caller(), "unknown");
    let description: Option<&str> = call.arguments.text_at("description");
    match check_write_authorization(actor, key, is_admin(call), history, 0) {
        Gate::Ask(a) => a,
        Gate::Refused(r) => Action::Finish(r),
        Gate::Open(n) => {
            if history.len() == n {
                return Action::UpsertContext {
                    context_key: own(key),
                    value: value.compact(),
                    description: own_opt(description),
                    description_provided: description.is_some(),
                    updated_by: own(actor),
                    timestamp: own(call.now.as_str()),
                };
            }
            if event_failed(&history[n]) {
                return db_error();
            }
            if history.len() == n + 1 {
                let mut f: Fields = Fields::new();
                f.put("context_key", jtext(key));
                f.put("action", jtext("set/update"));
                return Action::LogAction {
                    agent_id: own(actor),
                    action_type: own("updated_context"),
                    task_id: None,
                    details: f.done(),
                    timestamp: own(call.now.as_str()),
                };
            }
            finish_write(
                key,
                cat3("Project context updated successfully for key '", key, "'."),
                history,
                n + 2,
            )
        },
    }
}

// ---------------------------------------------------------------------
// Many updates
// ---------------------------------------------------------------------

/// What came of one update of a batch.
#[allow(inconsistent_fields)]
#[derive(Debug)]
pub enum BulkUpdateOutcome {
    Updated { context_key: String },
    Failed { context_key: String, reason: String },
}

#[allow(inconsistent_fields)]
pub enum OutcomeView {
    Updated { context_key: Seq<char> },
    Failed { context_key: Seq<char>, reason: Seq<char> },
}

impl View for BulkUpdateOutcome {
    type V = OutcomeView;

    open spec fn view(&self) -> OutcomeView {
        match *self {
            BulkUpdateOutcome::Updated { context_key } => OutcomeView::Updated {
                context_key: context_key@,
            },
            BulkUpdateOutcome::Failed { context_key, reason } => OutcomeView::Failed {
                context_key: context_key@,
                reason: reason@,
            },
        }
    }
}

/// The meanings of outcomes.
pub open spec fn outcomes(v: Seq<BulkUpdateOutcome>) -> Seq<OutcomeView> {
    v.map_values(|o: BulkUpdateOutcome| o@)
}

/// The lines on the updates that succeeded.
pub open spec fn success_lines(s: Seq<OutcomeView>) -> Seq<Seq<char>>
    decreases s.len(),
{
    if s.len() == 0 {
        Seq::empty()
    } else {
        match s.last() {
            OutcomeView::Updated { context_key } => success_lines(s.drop_last()).push(
                "\u{2713} Updated '"@ + context_key + "'"@,
            ),
            OutcomeView::Failed { .. } => success_lines(s.drop_last()),
        }
    }
}

/// The lines on the updates that failed.
pub open spec fn failure_lines(s: Seq<OutcomeView>) -> Seq<Seq<char>>
    decreases s.len(),
{
    if s.len() == 0 {
        Seq::empty()
    } else {
        match s.last() {
            OutcomeView::Failed { context_key, reason } => failure_lines(s.drop_last()).push(
                "\u{2717} Failed '"@ + context_key + "': "@ + reason,
            ),
            OutcomeView::Updated { .. } => failure_lines(s.drop_last()),
        }
    }
}

/// The summary of a batch.
pub open spec fn summary_lines(s: Seq<OutcomeView>) -> Seq<Seq<char>> {
    let good = success_lines(s);
    let bad = failure_lines(s);
    let a = seq![
        "Bulk update completed: "@ + decimal(good.len()) + " successful, "@ + decimal(bad.len())
            + " failed"@,
    ];
    let b = if good.len() > 0 {
        a.push("\nSuccessful updates:"@) + good
    } else {
        a
    };
    if bad.len() > 0 {
        b.push("\nFailed updates:"@) + bad
    } else {
        b
    }
}

fn more_lines(lines: &mut Vec<String>, more: &Vec<String>)
    ensures
        texts(final(lines)@) == texts(old(lines)@) + texts(more@),
{
    let ghost before = texts(lines@);
    add_lines(lines, "", more);
    proof {
        reveal_strlit("");
        assert(crate::text::led(texts(more@), ""@) =~= texts(more@)) by {
            assert forall|i: int| 0 <= i < more@.len() implies #[trigger] crate::text::led(
                texts(more@),
                ""@,
            )[i] == texts(more@)[i] by {
                assert(""@ + texts(more@)[i] =~= texts(more@)[i]);
            }
        }
    }
}

/// The summary of a batch.
pub fn render_bulk_summary(list: &Vec<BulkUpdateOutcome>) -> (r: Vec<String>)
    ensures
        texts(r@) == summary_lines(outcomes(list@)),
{
    let mut good: Vec<String> = no_lines();
    let mut bad: Vec<String> = no_lines();
    let ghost all = outcomes(list@);
    let mut i: usize = 0;
    while i < list.len()
        invariant
            all == outcomes(list@),
            i <= list@.len(),
            texts(good@) == success_lines(all.subrange(0, i as int)),
            texts(bad@) == failure_lines(all.subrange(0, i as int)),
        decreases list@.len() - i,
    {
        proof {
            let here = all.subrange(0, i + 1);
            assert(here.drop_last() =~= all.subrange(0, i as int));
            assert(here.last() == list@[i as int]@);
        }
        match &list[i] {
            BulkUpdateOutcome::Updated { context_key } => {
                add_line(&mut good, cat3("\u{2713} Updated '", context_key.as_str(), "'"));
            },
            BulkUpdateOutcome::Failed { context_key, reason } => {
                add_line(
                    &mut bad,
                    cat4("\u{2717} Failed '", context_key.as_str(), "': ", reason.as_str()),
                );
            },
        }
        i = i + 1;
    }
    proof {
        assert(all.subrange(0, all.len() as int) =~= all);
        assert(texts(good@).len() == good@.len());
        assert(texts(bad@).len() == bad@.len());
    }
    let n: String = show_usize(good.len());
    let m: String = show_usize(bad.len());
    let mut parts: Vec<String> = no_lines();
    add_line(
        &mut parts,
        cat5("Bulk update completed: ", n.as_str(), " successful, ", m.as_str(), " failed"),
    );
    proof {
        assert(texts(parts@) =~= seq![
            "Bulk update completed: "@ + decimal(good@.len()) + " successful, "@ + decimal(
                bad@.len(),
            ) + " failed"@,
        ]);
    }
    if good.len() > 0 {
        add_line(&mut parts, own("\nSuccessful updates:"));
        more_lines(&mut parts, &good);
    }
    if bad.len() > 0 {
        add_line(&mut parts, own("\nFailed updates:"));
        more_lines(&mut parts, &bad);
    }
    parts
}

/// Each update of a batch was applied or failed: the summary counts them all.
pub proof fn summaries_count_everything(s: Seq<OutcomeView>)
    ensures
        success_lines(s).len() + failure_lines(s).len() == s.len(),
    decreases s.len(),
{
    if s.len() > 0 {
        summaries_count_everything(s.drop_last());
    }
}

/// The keys that a batch names.
pub open spec fn batch_keys(updates: Seq<JsonView>) -> Seq<Seq<char>>
    decreases updates.len(),
{
    if updates.len() == 0 {
        Seq::empty()
    } else {
        match text_field(updates.last(), "context_key"@) {
            Some(k) => batch_keys(updates.drop_last()).push(k),
            None => batch_keys(updates.drop_last()),
        }
    }
}

fn keys_of(updates: &Vec<Json>) -> (r: Vec<String>)
    ensures
        texts(r@) == batch_keys(list_view(updates@)),
{
    let mut out: Vec<String> = no_lines();
    let ghost all = list_view(updates@);
    proof {
        lemma_list_view(updates@);
    }
    let mut i: usize = 0;
    while i < updates.len()
        invariant
            all == list_view(updates@),
            all.len() == updates@.len(),
            forall|k: int| 0 <= k < updates@.len() ==> #[trigger] all[k] == updates@[k]@,
            i <= updates@.len(),
            texts(out@) == batch_keys(all.subrange(0, i as int)),
        decreases updates@.len() - i,
    {
        proof {
            let here = all.subrange(0, i + 1);
            assert(here.drop_last() =~= all.subrange(0, i as int));
            assert(here.last() == updates@[i as int]@);
        }
        match updates[i].text_at("context_key") {
            Some(k) => {
                add_line(&mut out, own(k));
            },
            None => {},
        }
        i = i + 1;
    }
    proof {
        assert(all.subrange(0, all.len() as int) =~= all);
    }
    out
}

/// The description that an update of a batch gives: its own, `null` for none,
/// and a placeholder where it says nothing.
pub open spec fn batch_description(item: JsonView, i: int) -> Option<Seq<char>> {
    match field(item, "description"@) {
        None => Some("Bulk update operation "@ + decimal((i + 1) as nat)),
        Some(JsonView::Null) => None,
        Some(JsonView::Text(s)) => Some(s),
        Some(other) => Some(compact_text(other)),
    }
}

/// The key under which an update of a batch is reported.
pub open spec fn batch_key(item: JsonView) -> Seq<char> {
    text_or(text_field(item, "context_key"@), "unknown"@)
}

/// Why an update of a batch cannot be applied: it has no value, or names no
/// key.
pub open spec fn item_problem(item: JsonView) -> Option<Seq<char>> {
    if field(item, "context_value"@) is None {
        Some("context_value is required"@)
    } else if text_field(item, "context_key"@) is None {
        Some("context_key is required"@)
    } else {
        None
    }
}

/// The part of a batch that applies `updates[i..]`, from event `at` on, when
/// `so_far` came of those before. An update without a key or a value is never
/// written; it fails, and no failure stops the batch.
pub open spec fn apply_from(
    c: CallView,
    updates: Seq<JsonView>,
    i: int,
    h: Seq<EventView>,
    at: int,
    so_far: Seq<OutcomeView>,
) -> ActionView
    decreases updates.len() - i,
{
    if i < 0 || i >= updates.len() {
        if h.len() <= at {
            ActionView::DeliverWakes { context_keys: batch_keys(updates), bulk: true }
        } else {
            done_view(
                JsonView::Object(
                    map![
                    "updates_attempted"@ => int_json(updates.len() as int),
                    "summary_lines"@ => texts_json(summary_lines(so_far)),
                    "wakes"@ => texts_json(texts_in(h[at]))
                ],
                ),
                joined(summary_lines(so_far), "\n"@),
            )
        }
    } else {
        let item = updates[i];
        let key = batch_key(item);
        match item_problem(item) {
            Some(reason) => apply_from(
                c,
                updates,
                i + 1,
                h,
                at,
                so_far.push(OutcomeView::Failed { context_key: key, reason }),
            ),
            None => if h.len() <= at {
                ActionView::UpsertContext {
                    context_key: key,
                    value: compact_text(field(item, "context_value"@)->0),
                    description: batch_description(item, i),
                    description_provided: field(item, "description"@) is Some,
                    updated_by: writer(c),
                    timestamp: c.now,
                }
            } else if is_failure(h[at]) {
                apply_from(
                    c,
                    updates,
                    i + 1,
                    h,
                    at + 1,
                    so_far.push(
                        OutcomeView::Failed { context_key: key, reason: "database error"@ },
                    ),
                )
            } else if h.len() <= at + 1 {
                ActionView::LogAction {
                    agent_id: writer(c),
                    action_type: "bulk_updated_context"@,
                    task_id: None,
                    details: JsonView::Object(
                        map![
                        "context_key"@ => JsonView::Text(key),
                        "operation"@ => JsonView::Text(
                            "bulk_update_"@ + decimal((i + 1) as nat),
                        )
                    ],
                    ),
                    timestamp: c.now,
                }
            } else {
                apply_from(
                    c,
                    updates,
                    i + 1,
                    h,
                    at + 2,
                    so_far.push(OutcomeView::Updated { context_key: key }),
                )
            },
        }
    }
}

/// The dialogue of a batch: every key that it names is checked before anything
/// is written, and one refusal refuses the batch; then each update that names a
/// key and a value is applied, and the others fail.
pub open spec fn batch_next(c: CallView, updates: Seq<JsonView>, h: Seq<EventView>) -> ActionView {
    match authorize_from(writer(c), batch_keys(updates), 0, is_operator(c.principal), h, 0) {
        GateView::Ask(a) => a,
        GateView::Refused(r) => ActionView::Finish(r),
        GateView::Open(n) => apply_from(c, updates, 0, h, n, Seq::empty()),
    }
}

/// Whether the lookup of an entry leaves it to `actor` to write: there is none
/// yet, or `actor` created it.
pub open spec fn leaves_it_to(e: EventView, actor: Seq<char>) -> bool {
    match e {
        EventView::Context(None) => true,
        EventView::Context(Some(row)) => row.created_by == Some(actor),
        _ => false,
    }
}

/// Whoever is no operator is allowed a batch of keys only when each of them was
/// looked up, and the answer left it to the writer.
pub proof fn allowed_keys_were_looked_up(
    actor: Seq<char>,
    keys: Seq<Seq<char>>,
    i: int,
    h: Seq<EventView>,
    at: int,
    k: int,
) -> (j: int)
    requires
        0 <= i <= k < keys.len(),
        0 <= at,
        authorize_from(actor, keys, i, false, h, at) is Open,
    ensures
        at <= j < h.len(),
        authorize_from(actor, keys, i, false, h.subrange(0, j), at) == GateView::Ask(
            ActionView::GetContext { context_key: keys[k] },
        ),
        leaves_it_to(h[j], actor),
    decreases keys.len() - i,
{
    if i == k {
        assert(h.subrange(0, at).len() == at);
        at
    } else {
        let j = allowed_keys_were_looked_up(actor, keys, i + 1, h, at + 1, k);
        assert(h.subrange(0, j)[at] == h[at]);
        j
    }
}

/// Whatever a batch writes was allowed. The entry that is written is one whose
/// key the batch names; no key of the batch belongs to the settings; and where
/// the caller is no operator, that very entry was looked up in this call, and
/// is new or the caller's own.
pub proof fn batches_write_only_what_is_allowed(
    c: CallView,
    updates: Seq<JsonView>,
    h: Seq<EventView>,
)
    requires
        batch_next(c, updates, h) is UpsertContext,
    ensures
        batch_keys(updates).contains(batch_next(c, updates, h)->UpsertContext_context_key),
        authorize_from(
            writer(c),
            batch_keys(updates),
            0,
            is_operator(c.principal),
            h,
            0,
        ) is Open,
        forall|k: int|
            0 <= k < batch_keys(updates).len() ==> !is_config(#[trigger] batch_keys(updates)[k]),
        is_operator(c.principal) || exists|j: int|
            0 <= j < h.len() && leaves_it_to(h[j], writer(c)) && #[trigger] batch_next(
                c,
                updates,
                h.subrange(0, j),
            ) == (ActionView::GetContext {
                context_key: batch_next(c, updates, h)->UpsertContext_context_key,
            }),
{
    let keys = batch_keys(updates);
    let admin = is_operator(c.principal);
    lemma_gates_never_write(writer(c), keys, 0, admin, h, 0);
    allowed_batches_hold_proper_keys(writer(c), keys, 0, admin, h, 0);
    let n = authorize_from(writer(c), keys, 0, admin, h, 0)->Open_0;
    lemma_written_key(c, updates, 0, h, n, Seq::empty());
    let key = batch_next(c, updates, h)->UpsertContext_context_key;
    if !admin {
        let k = choose|k: int| 0 <= k < keys.len() && keys[k] == key;
        let j = allowed_keys_were_looked_up(writer(c), keys, 0, h, 0, k);
        assert(batch_next(c, updates, h.subrange(0, j)) == (ActionView::GetContext {
            context_key: key,
        }));
    }
}

proof fn lemma_written_key(
    c: CallView,
    updates: Seq<JsonView>,
    i: int,
    h: Seq<EventView>,
    at: int,
    so_far: Seq<OutcomeView>,
)
    ensures
        apply_from(c, updates, i, h, at, so_far) matches ActionView::UpsertContext {
            context_key,
            ..
        } ==> batch_keys(updates).contains(context_key),
    decreases updates.len() - i,
{
    if 0 <= i < updates.len() {
        let item = updates[i];
        let key = batch_key(item);
        match item_problem(item) {
            Some(reason) => {
                lemma_written_key(
                    c,
                    updates,
                    i + 1,
                    h,
                    at,
                    so_far.push(OutcomeView::Failed { context_key: key, reason }),
                );
            },
            None => {
                lemma_key_is_named(updates, i);
                if h.len() > at {
                    lemma_written_key(
                        c,
                        updates,
                        i + 1,
                        h,
                        at + 1,
                        so_far.push(
                            OutcomeView::Failed { context_key: key, reason: "database error"@ },
                        ),
                    );
                    lemma_written_key(
                        c,
                        updates,
                        i + 1,
                        h,
                        at + 2,
                        so_far.push(OutcomeView::Updated { context_key: key }),
                    );
                }
            },
        }
    }
}

proof fn lemma_key_is_named(updates: Seq<JsonView>, i: int)
    requires
        0 <= i < updates.len(),
        text_field(updates[i], "context_key"@) is Some,
    ensures
        batch_keys(updates).contains(batch_key(updates[i])),
    decreases updates.len(),
{
    let rest = updates.drop_last();
    let key = batch_key(updates[i]);
    if i < rest.len() {
        lemma_key_is_named(rest, i);
        assert(rest[i] == updates[i]);
        let k = choose|k: int| 0 <= k < batch_keys(rest).len() && batch_keys(rest)[k] == key;
        assert(batch_keys(updates)[k] == key);
    } else {
        assert(batch_keys(updates).last() == key);
    }
}

pub(crate) proof fn lemma_gates_never_write(
    actor: Seq<char>,
    keys: Seq<Seq<char>>,
    i: int,
    admin: bool,
    h: Seq<EventView>,
    at: int,
)
    ensures
        authorize_from(actor, keys, i, admin, h, at) matches GateView::Ask(a)
            ==> a is GetContext,
    decreases keys.len() - i,
{
    if 0 <= i < keys.len() {
        match authorize(actor, keys[i], admin, h, at) {
            GateView::Open(n) => {
                lemma_gates_never_write(actor, keys, i + 1, admin, h, n);
            },
            _ => {},
        }
    }
}

/// An update without a description never replaces the description of an entry
/// that has one.
pub proof fn updates_without_description_keep_it(c: CallView, updates: Seq<JsonView>, i: int)
    requires
        0 <= i < updates.len(),
        item_problem(updates[i]) is None,
        field(updates[i], "description"@) is None,
    ensures
        forall|h: Seq<EventView>, at: int, so_far: Seq<OutcomeView>|
            h.len() <= at ==> (#[trigger] apply_from(c, updates, i, h, at, so_far)
                matches ActionView::UpsertContext { description_provided, .. }
                && !description_provided),
{
}

fn describe(item: &Json, i: usize) -> (r: Option<String>)
    requires
        i < usize::MAX,
    ensures
        opt(r) == batch_description(item@, i as int),
{
    match item.get("description") {
        None => {
            let n: String = show_usize(i + 1);
            Some(cat2("Bulk update operation ", n.as_str()))
        },
        Some(Json::Null) => None,
        Some(Json::Text(s)) => Some(own(s.as_str())),
        Some(other) => Some(other.compact()),
    }
}

fn add_outcome(list: &mut Vec<BulkUpdateOutcome>, o: BulkUpdateOutcome)
    ensures
        outcomes(final(list)@) == outcomes(old(list)@).push(o@),
{
    let ghost before = list@;
    list.push(o);
    proof {
        assert(outcomes(list@) =~= outcomes(before).push(o@));
    }
}

fn bulk_update_project_context_entries(
    call: &Call,
    updates: &Vec<Json>,
    history: &Vec<Event>,
    from: usize,
) -> (r: Action)
    requires
        from <= history@.len(),
    ensures
        r@ == apply_from(
            call@,
            list_view(updates@),
            0,
            events(history@),
            from as int,
            Seq::empty(),
        ),
{
    let actor: &str = actor_label(call.caller(), "unknown");
    let ghost all = list_view(updates@);
    let ghost h = events(history@);
    let ghost whole = apply_from(call@, all, 0, h, from as int, Seq::empty());
    let mut list: Vec<BulkUpdateOutcome> = Vec::new();
    let mut at: usize = from;
    let mut i: usize = 0;
    proof {
        lemma_list_view(updates@);
        assert(outcomes(list@) =~= Seq::empty());
    }
    while i < updates.len()
        invariant
            all == list_view(updates@),
            h == events(history@),
            all.len() == updates@.len(),
            forall|k: int| 0 <= k < updates@.len() ==> #[trigger] all[k] == updates@[k]@,
            i <= updates@.len(),
            at <= history@.len(),
            actor@ == writer(call@),
            whole == apply_from(call@, all, 0, h, from as int, Seq::empty()),
            whole == apply_from(call@, all, i as int, h, at as int, outcomes(list@)),
        decreases updates@.len() - i,
    {
        let item: &Json = &updates[i];
        proof {
            assert(all[i as int] == item@);
        }
        let key: &str = str_or(item.text_at("context_key"), "unknown");
        match item.get("context_value") {
            None => {
                add_outcome(
                    &mut list,
                    BulkUpdateOutcome::Failed {
                        context_key: own(key),
                        reason: own("context_value is required"),
                    },
                );
            },
            Some(_) if item.text_at("context_key").is_none() => {
                add_outcome(
                    &mut list,
                    BulkUpdateOutcome::Failed {
                        context_key: own(key),
                        reason: own("context_key is required"),
                    },
                );
            },
            Some(value) => {
                if history.len() <= at {
                    return Action::UpsertContext {
                        context_key: own(key),
                        value: value.compact(),
                        description: describe(item, i),
                        description_provided: item.get("description").is_some(),
                        updated_by: own(actor),
                        timestamp: own(call.now.as_str()),
                    };
                }
                if event_failed(&history[at]) {
                    add_outcome(
                        &mut list,
                        BulkUpdateOutcome::Failed {
                            context_key: own(key),
                            reason: own("database error"),
                        },
                    );
                    at = at + 1;
                } else {
                    if history.len() - at <= 1 {
                        let n: String = show_usize(i + 1);
                        let operation: String = cat2("bulk_update_", n.as_str());
                        let mut f: Fields = Fields::new();
                        f.put("context_key", jtext(key));
                        f.put("operation", jtext(operation.as_str()));
                        return Action::LogAction {
                            agent_id: own(actor),
                            action_type: own("bulk_updated_context"),
                            task_id: None,
                            details: f.done(),
                            timestamp: own(call.now.as_str()),
                        };
                    }
                    add_outcome(&mut list, BulkUpdateOutcome::Updated { context_key: own(key) });
                    at = at + 2;
                }
            },
        }
        i = i + 1;
    }
    if history.len() <= at {
        return Action::DeliverWakes { context_keys: keys_of(updates), bulk: true };
    }
    let summary: Vec<String> = render_bulk_summary(&list);
    let mut f: Fields = Fields::new();
    f.put("updates_attempted", jlen(updates.len()));
    f.put("summary_lines", jtexts(&summary));
    f.put("wakes", wakes_json(&history[at]));
    done(f.done(), join(&summary, "\n"))
}

fn run_batch(call: &Call, updates: &Vec<Json>, history: &Vec<Event>) -> (r: Action)
    ensures
        r@ == batch_next(call@, list_view(updates@), events(history@)),
{
    let actor: &str = actor_label(call.caller(), "unknown");
    let keys: Vec<String> = keys_of(updates);
    match check_all(actor, &keys, is_admin(call), history) {
        Gate::Ask(a) => a,
        Gate::Refused(r) => Action::Finish(r),
        Gate::Open(n) => bulk_update_project_context_entries(call, updates, history, n),
    }
}

// ---------------------------------------------------------------------
// update_project_context
// ---------------------------------------------------------------------

/// The dialogue of `update_project_context`: a batch where `updates` is given,
/// else one update.
pub open spec fn update_project_context_next(c: CallView, h: Seq<EventView>) -> ActionView {
    let value = field(c.arguments, "context_value"@);
    match field(c.arguments, "updates"@) {
        Some(JsonView::List(updates)) => if updates.len() == 0 {
            invalid_view(
                Some("updates"@),
                "updates must be a non-empty list for bulk operations."@,
            )
        } else {
            batch_next(c, updates, h)
        },
        Some(_) => invalid_view(
            Some("updates"@),
            "updates must be a non-empty list for bulk operations."@,
        ),
        None => match nonempty_field(c.arguments, "context_key"@) {
            None => invalid_view(
                Some("context_key"@),
                "context_key and context_value are required for single updates."@,
            ),
            Some(key) => if value is None {
                invalid_view(
                    Some("context_value"@),
                    "context_key and context_value are required for single updates."@,
                )
            } else {
                single_update_next(c, key, value->0, h)
            },
        },
    }
}

/// `update_project_context`: changes an entry, or several.
pub struct UpdateProjectContextTool;

impl UpdateProjectContextTool {
    /// What to do after `history`.
    pub fn next(call: &Call, history: &Vec<Event>) -> (r: Action)
        ensures
            r@ == update_project_context_next(call@, events(history@)),
    {
        let args: &Json = &call.arguments;
        match args.get("updates") {
            Some(Json::List(updates)) => {
                proof {
                    lemma_list_view(updates@);
                }
                if updates.len() == 0 {
                    return invalid(
                        "updates",
                        "updates must be a non-empty list for bulk operations.",
                    );
                }
                return run_batch(call, updates, history);
            },
            Some(_) => {
                return invalid(
                    "updates",
                    "updates must be a non-empty list for bulk operations.",
                );
            },
            None => {},
        }
        let key: &str = match nonempty(args, "context_key") {
            Some(k) => k,
            None => {
                return invalid(
                    "context_key",
                    "context_key and context_value are required for single updates.",
                );
            },
        };
        let value: &Json = match args.get("context_value") {
            Some(v) => v,
            None => {
                return invalid(
                    "context_value",
                    "context_key and context_value are required for single updates.",
                );
            },
        };
        single_update_project_context(call, key, value, history)
    }
}

// ---------------------------------------------------------------------
// bulk_update_project_context
// ---------------------------------------------------------------------

/// What is wrong with the shape of an update of a batch.
pub open spec fn shape_problem(item: JsonView, i: int) -> Option<ResultView> {
    let n = decimal(i as nat);
    if !(item is Object) {
        Some(
            ResultView::Invalid {
                field: Some("updates["@ + n + "]"@),
                message: "Update "@ + n + " must be an object."@,
            },
        )
    } else if field(item, "context_key"@) is None {
        Some(
            ResultView::Invalid {
                field: Some("updates["@ + n + "].context_key"@),
                message: "Update "@ + n + " missing required 'context_key'."@,
            },
        )
    } else if field(item, "context_value"@) is None {
        Some(
            ResultView::Invalid {
                field: Some("updates["@ + n + "].context_value"@),
                message: "Update "@ + n + " missing required 'context_value'."@,
            },
        )
    } else {
        None
    }
}

/// The first thing that is wrong with the shape of the first `n` updates.
pub open spec fn first_shape_problem(updates: Seq<JsonView>, n: int) -> Option<ResultView>
    decreases n,
{
    if n <= 0 || n > updates.len() {
        None
    } else {
        match first_shape_problem(updates, n - 1) {
            Some(r) => Some(r),
            None => shape_problem(updates[n - 1], n - 1),
        }
    }
}

/// The dialogue of `bulk_update_project_context`: a batch whose every update
/// has a key and a value.
pub open spec fn bulk_update_project_context_next(c: CallView, h: Seq<EventView>) -> ActionView {
    match list_field(c.arguments, "updates"@) {
        None => invalid_view(Some("updates"@), "updates array is required."@),
        Some(updates) => if updates.len() == 0 {
            invalid_view(Some("updates"@), "updates array is required."@)
        } else {
            match first_shape_problem(updates, updates.len() as int) {
                Some(r) => ActionView::Finish(r),
                None => batch_next(c, updates, h),
            }
        },
    }
}

/// `bulk_update_project_context`: changes several entries.
pub struct BulkUpdateProjectContextTool;

impl BulkUpdateProjectContextTool {
    fn shape(item: &Json, i: usize) -> (r: Option<ToolResult>)
        ensures
            match r {
                Some(x) => shape_problem(item@, i as int) == Some(x@),
                None => shape_problem(item@, i as int) is None,
            },
    {
        let n: String = show_usize(i);
        if !item.is_object() {
            return Some(
                ToolResult::Invalid {
                    field: Some(cat3("updates[", n.as_str(), "]")),
                    message: cat3("Update ", n.as_str(), " must be an object."),
                },
            );
        }
        if item.get("context_key").is_none() {
            return Some(
                ToolResult::Invalid {
                    field: Some(cat3("updates[", n.as_str(), "].context_key")),
                    message: cat3("Update ", n.as_str(), " missing required 'context_key'."),
                },
            );
        }
        if item.get("context_value").is_none() {
            return Some(
                ToolResult::Invalid {
                    field: Some(cat3("updates[", n.as_str(), "].context_value")),
                    message: cat3("Update ", n.as_str(), " missing required 'context_value'."),
                },
            );
        }
        None
    }

    fn problem(updates: &Vec<Json>) -> (r: Option<ToolResult>)
        ensures
            match r {
                Some(x) => first_shape_problem(list_view(updates@), updates@.len() as int) == Some(
                    x@,
                ),
                None => first_shape_problem(list_view(updates@), updates@.len() as int) is None,
            },
    {
        let ghost all = list_view(updates@);
        proof {
            lemma_list_view(updates@);
        }
        let mut i: usize = 0;
        while i < updates.len()
            invariant
                all == list_view(updates@),
                all.len() == updates@.len(),
                forall|k: int| 0 <= k < updates@.len() ==> #[trigger] all[k] == updates@[k]@,
                i <= updates@.len(),
                first_shape_problem(all, i as int) is None,
            decreases updates@.len() - i,
        {
            proof {
                assert(all[i as int] == updates@[i as int]@);
            }
            match BulkUpdateProjectContextTool::shape(&updates[i], i) {
                Some(x) => {
                    proof {
                        lemma_shape_stays(all, i + 1, all.len() as int);
                    }
                    return Some(x);
                },
                None => {},
            }
            i = i + 1;
        }
        None
    }

    /// What to do after `history`.
    pub fn next(call: &Call, history: &Vec<Event>) -> (r: Action)
        ensures
            r@ == bulk_update_project_context_next(call@, events(history@)),
    {
        match call.arguments.list_at("updates") {
            None => invalid("updates", "updates array is required."),
            Some(updates) => {
                proof {
                    lemma_list_view(updates@);
                }
                if updates.len() == 0 {
                    return invalid("updates", "updates array is required.");
                }
                match BulkUpdateProjectContextTool::problem(updates) {
                    Some(r) => Action::Finish(r),
                    None => run_batch(call, updates, history),
                }
            },
        }
    }
}

proof fn lemma_shape_stays(updates: Seq<JsonView>, n: int, m: int)
    requires
        0 <= n <= m <= updates.len(),
        first_shape_problem(updates, n) is Some,
    ensures
        first_shape_problem(updates, m) == first_shape_problem(updates, n),
    decreases m - n,
{
    if n < m {
        lemma_shape_stays(updates, n, m - 1);
    }
}

} // verus!

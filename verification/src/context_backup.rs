//! The tool that backs the project context up.

use crate::admin_tools::text_or;
use crate::agent_communication_tools::flag_or;
use crate::context_health::{
    analyze_context_health, health_json, health_of, health_sign, health_status_icon, short_tenths,
    show_score, ContextHealthReport, HealthView,
};
use crate::context_writing::writer;
use crate::json::{
    bool_field, int_json, jlen, jopt, jtext, opt_json, text_field, Fields, Items, Json, JsonView,
};
use crate::principal::actor_label;
use crate::protocol::{
    context_rows, db_error, db_error_text, done, done_view, event_failed, events, failed_view,
    invalid, invalid_view, is_failure, Action, ActionView, Call, CallView, ContextRow,
    ContextRowView, Event, EventView, ResultView, Stamp,
};
use crate::text::{
    add_line, begins_with, borrow_opt, cat2, cat3, cat4, cat5, chars_of, decimal, decimal_int,
    has_char, join, joined, no_lines, opt, own, show_usize, texts, title_case, titled,
};
use vstd::prelude::*;

verus! {

// ---------------------------------------------------------------------
// Time
// ---------------------------------------------------------------------

/// The time that `chrono` reads from a text, as seconds and nanoseconds.
pub uninterp spec fn read_time(s: Seq<char>) -> Option<Stamp>;

/// `str::parse` into a `chrono::DateTime<Utc>`, as the time's seconds since
/// 1970 and the nanoseconds beyond them.
#[verifier::external_body]
fn parse_time(s: &str) -> (r: Option<Stamp>)
    ensures
        r == read_time(s@),
{
    match s.parse::<chrono::DateTime<chrono::Utc>>() {
        Ok(t) => Some(Stamp { secs: t.timestamp(), nanos: t.timestamp_subsec_nanos() }),
        Err(_) => None,
    }
}

/// The text that `chrono` writes of a time in the manner of RFC 3339; none for
/// a time that it cannot hold.
pub uninterp spec fn rfc3339(t: Stamp) -> Option<Seq<char>>;

/// `chrono::DateTime::to_rfc3339` on the time of a stamp.
#[verifier::external_body]
fn to_rfc3339(t: Stamp) -> (r: Option<String>)
    ensures
        opt(r) == rfc3339(t),
{
    chrono::DateTime::<chrono::Utc>::from_timestamp(t.secs, t.nanos).map(|d| d.to_rfc3339())
}

/// The digits that `chrono` writes of a time with `%Y%m%d_%H%M%S`; none for a
/// time that it cannot hold.
pub uninterp spec fn time_digits(t: Stamp) -> Option<Seq<char>>;

/// `chrono::DateTime::format` with `%Y%m%d_%H%M%S` on the time of a stamp.
#[verifier::external_body]
fn to_digits(t: Stamp) -> (r: Option<String>)
    ensures
        opt(r) == time_digits(t),
{
    chrono::DateTime::<chrono::Utc>::from_timestamp(t.secs, t.nanos)
        .map(|d| d.format("%Y%m%d_%H%M%S").to_string())
}

// ---------------------------------------------------------------------
// Names and paths
// ---------------------------------------------------------------------

/// Whether a character may stand in the name of a backup.
pub open spec fn is_slug_char(c: char) -> bool {
    'A' <= c <= 'Z' || 'a' <= c <= 'z' || '0' <= c <= '9' || c == '.' || c == '_' || c == '-'
}

/// Whether a text can be the name of a backup: ASCII letters, digits and
/// `. _ -`, from one to 128 characters.
pub open spec fn is_backup_name(s: Seq<char>) -> bool {
    1 <= s.len() <= 128 && forall|i: int| 0 <= i < s.len() ==> is_slug_char(#[trigger] s[i])
}

/// Whether `name` can be the name of a backup.
pub fn valid_backup_name(name: &str) -> (r: bool)
    ensures
        r == is_backup_name(name@),
{
    let v: Vec<char> = chars_of(name);
    if v.len() < 1 || v.len() > 128 {
        return false;
    }
    let mut i: usize = 0;
    while i < v.len()
        invariant
            v@ == name@,
            i <= v@.len(),
            forall|j: int| 0 <= j < i ==> is_slug_char(#[trigger] v@[j]),
        decreases v@.len() - i,
    {
        let c: char = v[i];
        if !(('A' <= c && c <= 'Z') || ('a' <= c && c <= 'z') || ('0' <= c && c <= '9') || c == '.'
            || c == '_' || c == '-') {
            proof {
                assert(!is_slug_char(name@[i as int]));
            }
            return false;
        }
        i = i + 1;
    }
    true
}

/// The name of a file in a directory.
pub open spec fn inside(dir: Seq<char>, name: Seq<char>) -> Seq<char> {
    if dir.len() == 0 {
        name
    } else if dir.last() == '/' {
        dir + name
    } else {
        dir + "/"@ + name
    }
}

fn path_in(dir: &str, name: &str) -> (r: String)
    ensures
        r@ == inside(dir@, name@),
{
    let v: Vec<char> = chars_of(dir);
    if v.len() == 0 {
        own(name)
    } else if v[v.len() - 1] == '/' {
        cat2(dir, name)
    } else {
        cat3(dir, "/", name)
    }
}

/// The directory of the backups of a project.
pub open spec fn backup_dir(project_dir: Seq<char>) -> Seq<char> {
    inside(inside(inside(project_dir, ".agent"@), "backups"@), "context"@)
}

fn dir_of(project_dir: &str) -> (r: String)
    ensures
        r@ == backup_dir(project_dir@),
{
    let a: String = path_in(project_dir, ".agent");
    let b: String = path_in(a.as_str(), "backups");
    path_in(b.as_str(), "context")
}

/// The name of a backup: the one asked for, else one made of the time.
pub open spec fn backup_name(asked: Option<Seq<char>>, now: Stamp) -> Seq<char> {
    match asked {
        Some(name) => name,
        None => "context_backup_"@ + text_or(time_digits(now), ""@),
    }
}

fn name_backup(asked: Option<&str>, now: Stamp) -> (r: String)
    ensures
        r@ == backup_name(crate::text::opt_str(asked), now),
{
    match asked {
        Some(name) => own(name),
        None => match to_digits(now) {
            Some(d) => cat2("context_backup_", d.as_str()),
            None => cat2("context_backup_", ""),
        },
    }
}

/// A backup that a caller named stays in the directory of the backups: its
/// file name holds no slash.
pub proof fn named_backups_stay_in_their_directory(name: Seq<char>, dir: Seq<char>)
    requires
        is_backup_name(name),
    ensures
        !(name + ".json"@).contains('/'),
        begins_with(inside(dir, name + ".json"@), dir),
{
    reveal_strlit(".json");
    let f = name + ".json"@;
    assert forall|i: int| 0 <= i < f.len() implies f[i] != '/' by {
        if i < name.len() {
            assert(is_slug_char(name[i]));
        }
    }
    assert(inside(dir, f).subrange(0, dir.len() as int) =~= dir);
}

// ---------------------------------------------------------------------
// The backup
// ---------------------------------------------------------------------

/// An entry as it is backed up.
pub open spec fn row_json(r: ContextRowView) -> JsonView {
    JsonView::Object(
        map![
        "context_key"@ => JsonView::Text(r.context_key),
        "value"@ => JsonView::Text(r.value),
        "description"@ => opt_json(r.description),
        "created_at"@ => opt_json(r.created_at),
        "created_by"@ => opt_json(r.created_by),
        "updated_at"@ => JsonView::Text(r.updated_at),
        "updated_by"@ => JsonView::Text(r.updated_by)
    ],
    )
}

/// When a backup was made, in words.
pub open spec fn made_at(c: CallView, now: Stamp) -> Seq<char> {
    text_or(rfc3339(now), c.now)
}

/// A backup without its health report.
pub open spec fn backup_fields(
    c: CallView,
    rows: Seq<ContextRowView>,
    now: Stamp,
) -> Map<Seq<char>, JsonView> {
    map![
        "backup_name"@ => JsonView::Text(
            backup_name(text_field(c.arguments, "backup_name"@), now),
        ),
        "created_at"@ => JsonView::Text(made_at(c, now)),
        "total_entries"@ => int_json(rows.len() as int),
        "entries"@ => JsonView::List(rows.map_values(|r: ContextRowView| row_json(r)))
    ]
}

/// Whether a backup has a health report.
pub open spec fn with_health(c: CallView) -> bool {
    flag_or(bool_field(c.arguments, "include_health_report"@), true)
}

/// A backup.
pub open spec fn backup_json(c: CallView, rows: Seq<ContextRowView>, now: Stamp) -> JsonView {
    if with_health(c) {
        JsonView::Object(
            backup_fields(c, rows, now).insert(
                "health_report"@,
                health_json(health_of(rows, now)),
            ),
        )
    } else {
        JsonView::Object(backup_fields(c, rows, now))
    }
}

fn row_tree(r: &ContextRow) -> (j: Json)
    ensures
        j@ == row_json(r@),
{
    let mut f: Fields = Fields::new();
    f.put("context_key", jtext(r.context_key.as_str()));
    f.put("value", jtext(r.value.as_str()));
    f.put("description", jopt(borrow_opt(&r.description)));
    f.put("created_at", jopt(borrow_opt(&r.created_at)));
    f.put("created_by", jopt(borrow_opt(&r.created_by)));
    f.put("updated_at", jtext(r.updated_at.as_str()));
    f.put("updated_by", jtext(r.updated_by.as_str()));
    f.done()
}

fn created_at(call: &Call, now: Stamp) -> (r: String)
    ensures
        r@ == made_at(call@, now),
{
    match to_rfc3339(now) {
        Some(s) => s,
        None => own(call.now.as_str()),
    }
}

fn create_context_backup(
    call: &Call,
    rows: &Vec<ContextRow>,
    now: Stamp,
) -> (r: Fields)
    ensures
        r@ == backup_fields(call@, context_rows(rows@), now),
{
    let mut items: Items = Items::new();
    let mut i: usize = 0;
    while i < rows.len()
        invariant
            i <= rows@.len(),
            items@.len() == i,
            forall|k: int| 0 <= k < i ==> #[trigger] items@[k] == row_json(rows@[k]@),
        decreases rows@.len() - i,
    {
        items.push(row_tree(&rows[i]));
        i = i + 1;
    }
    proof {
        assert(items@ =~= context_rows(rows@).map_values(|r: ContextRowView| row_json(r)));
    }
    let name: String = name_backup(call.arguments.text_at("backup_name"), now);
    let at: String = created_at(call, now);
    let mut f: Fields = Fields::new();
    f.put("backup_name", jtext(name.as_str()));
    f.put("created_at", jtext(at.as_str()));
    f.put("total_entries", jlen(rows.len()));
    f.put("entries", items.done());
    f
}

/// The lines of the message.
pub open spec fn backup_lines(
    name: Seq<char>,
    total: int,
    path: Seq<char>,
    made: Seq<char>,
    health: Option<HealthView>,
) -> Seq<Seq<char>> {
    let a = seq![
        "\u{2705} **Context Backup Created**"@,
        "   Name: "@ + name,
        "   Entries: "@ + decimal_int(total),
        "   File: "@ + path,
        "   Created: "@ + made,
    ];
    let b = match health {
        Some(h) => a.push(""@).push(
            "\u{1f4ca} **Health Report:** "@ + health_sign(h.status) + " "@ + titled(h.status)
                + " ("@ + short_tenths(h.health_score) + "/100)"@,
        ).push(
            "   Issues: "@ + decimal_int(h.json_errors) + " JSON errors, "@ + decimal_int(
                h.stale_entries,
            ) + " stale entries"@,
        ).push("   Recommendations: "@ + decimal(h.recommendations.len()) + " items"@),
        None => a,
    };
    b.push(""@).push("\u{1f4a1} **Backup Usage:**"@).push(
        "\u{2022} Use this backup to restore context in case of corruption"@,
    ).push("\u{2022} Store backup files securely - they contain sensitive project data"@).push(
        "\u{2022} Regular backups recommended before major context changes"@,
    )
}

fn backup_message(
    name: &str,
    total: usize,
    path: &str,
    made: &str,
    health: &Option<ContextHealthReport>,
) -> (r: String)
    ensures
        r@ == joined(
            backup_lines(
                name@,
                total as int,
                path@,
                made@,
                match *health {
                    Some(h) => Some(h@),
                    None => None,
                },
            ),
            "\n"@,
        ),
{
    let count: String = show_usize(total);
    let mut parts: Vec<String> = no_lines();
    add_line(&mut parts, own("\u{2705} **Context Backup Created**"));
    add_line(&mut parts, cat2("   Name: ", name));
    add_line(&mut parts, cat2("   Entries: ", count.as_str()));
    add_line(&mut parts, cat2("   File: ", path));
    add_line(&mut parts, cat2("   Created: ", made));
    proof {
        assert(texts(parts@) =~= seq![
            "\u{2705} **Context Backup Created**"@,
            "   Name: "@ + name@,
            "   Entries: "@ + decimal_int(total as int),
            "   File: "@ + path@,
            "   Created: "@ + made@,
        ]);
    }
    match health {
        Some(h) => {
            let title: String = title_case(h.status.as_str());
            let score: String = show_score(h.health_score);
            let errors: String = show_usize(h.json_errors);
            let stale: String = show_usize(h.stale_entries);
            proof {
                assert(texts(h.recommendations@).len() == h.recommendations@.len());
            }
            let advice: String = show_usize(h.recommendations.len());
            let start: String = cat4(
                "\u{1f4ca} **Health Report:** ",
                health_status_icon(h.status.as_str()),
                " ",
                title.as_str(),
            );
            add_line(&mut parts, own(""));
            add_line(&mut parts, cat4(start.as_str(), " (", score.as_str(), "/100)"));
            add_line(
                &mut parts,
                cat5(
                    "   Issues: ",
                    errors.as_str(),
                    " JSON errors, ",
                    stale.as_str(),
                    " stale entries",
                ),
            );
            add_line(&mut parts, cat3("   Recommendations: ", advice.as_str(), " items"));
        },
        None => {},
    }
    add_line(&mut parts, own(""));
    add_line(&mut parts, own("\u{1f4a1} **Backup Usage:**"));
    add_line(
        &mut parts,
        own("\u{2022} Use this backup to restore context in case of corruption"),
    );
    add_line(
        &mut parts,
        own("\u{2022} Store backup files securely - they contain sensitive project data"),
    );
    add_line(
        &mut parts,
        own("\u{2022} Regular backups recommended before major context changes"),
    );
    join(&parts, "\n")
}

// ---------------------------------------------------------------------
// backup_project_context
// ---------------------------------------------------------------------

/// The part of `backup_project_context` that follows the reading of `rows`,
/// which event `at` gave: make the directory, find out where it lies, write
/// the file there, write the audit line.
pub open spec fn backup_from(
    c: CallView,
    rows: Seq<ContextRowView>,
    now: Stamp,
    h: Seq<EventView>,
    at: int,
) -> ActionView {
    let name = backup_name(text_field(c.arguments, "backup_name"@), now);
    let dir = backup_dir(c.project_dir);
    let k = h.len() - at;
    if k <= 1 {
        ActionView::CreateDir { path: dir }
    } else if is_failure(h[at + 1]) {
        failed_view(db_error_text())
    } else if k == 2 {
        ActionView::Canonicalize { path: dir }
    } else {
        match h[at + 2] {
            EventView::Text(Some(base)) => if (name + ".json"@).contains('/') {
                invalid_view(
                    Some("backup_name"@),
                    "backup_name resolves outside the backup directory"@,
                )
            } else {
                let path = inside(base, name + ".json"@);
                if k == 3 {
                    ActionView::WriteFile {
                        path,
                        text: crate::json::pretty_text(backup_json(c, rows, now)),
                    }
                } else if is_failure(h[at + 3]) {
                    failed_view(db_error_text())
                } else if k == 4 {
                    ActionView::LogAction {
                        agent_id: writer(c),
                        action_type: "backup_project_context"@,
                        task_id: Some(name),
                        details: JsonView::Object(
                            map![
                            "total_entries"@ => int_json(rows.len() as int),
                            "backup_path"@ => JsonView::Text(path)
                        ],
                        ),
                        timestamp: c.now,
                    }
                } else {
                    backed_up(c, rows, now, name, path)
                }
            },
            _ => invalid_view(
                Some("backup_name"@),
                "backup_name resolves outside the backup directory"@,
            ),
        }
    }
}

/// The outcome of a backup.
pub open spec fn backed_up(
    c: CallView,
    rows: Seq<ContextRowView>,
    now: Stamp,
    name: Seq<char>,
    path: Seq<char>,
) -> ActionView {
    let health = if with_health(c) {
        Some(health_of(rows, now))
    } else {
        None
    };
    done_view(
        JsonView::Object(
            map![
            "backup_name"@ => JsonView::Text(name),
            "backup_path"@ => JsonView::Text(path),
            "total_entries"@ => int_json(rows.len() as int),
            "created_at"@ => JsonView::Text(made_at(c, now)),
            "health_report"@ => match health {
                Some(h) => health_json(h),
                None => JsonView::Null,
            }
        ],
        ),
        joined(backup_lines(name, rows.len() as int, path, made_at(c, now), health), "\n"@),
    )
}

/// The part of `backup_project_context` that follows the finding of the time;
/// `at` is the event that gives the entries.
pub open spec fn backup_at(c: CallView, now: Stamp, h: Seq<EventView>, at: int) -> ActionView {
    if h.len() <= at {
        ActionView::ListContexts
    } else {
        match h[at] {
            EventView::Contexts(rows) => backup_from(c, rows, now, h, at),
            _ => failed_view(db_error_text()),
        }
    }
}

/// The dialogue of `backup_project_context`. Where the time of the call cannot
/// be read, the clock is asked.
pub open spec fn backup_project_context_next(c: CallView, h: Seq<EventView>) -> ActionView {
    let asked = text_field(c.arguments, "backup_name"@);
    if asked is Some && !is_backup_name(asked->0) {
        invalid_view(
            Some("backup_name"@),
            "backup_name may contain only letters, digits, and . _ - (A-Z a-z 0-9 . _ -), max 128 chars."@,
        )
    } else {
        match read_time(c.now) {
            Some(now) => backup_at(c, now, h, 0),
            None => if h.len() == 0 {
                ActionView::Clock
            } else {
                match h[0] {
                    EventView::Time(now) => backup_at(c, now, h, 1),
                    _ => failed_view(db_error_text()),
                }
            },
        }
    }
}

/// Nothing is read or written for a backup under a name that is none.
pub proof fn bad_backup_names_do_nothing(c: CallView, h: Seq<EventView>)
    requires
        text_field(c.arguments, "backup_name"@) is Some,
        !is_backup_name(text_field(c.arguments, "backup_name"@)->0),
    ensures
        backup_project_context_next(c, h) matches ActionView::Finish(ResultView::Invalid { .. }),
{
}

/// `backup_project_context`: a copy of the whole project context in a file.
pub struct BackupProjectContextTool;

impl BackupProjectContextTool {
    fn outcome(
        call: &Call,
        rows: &Vec<ContextRow>,
        now: Stamp,
        name: &str,
        path: &str,
        healthy: bool,
    ) -> (r: Action)
        requires
            healthy == with_health(call@),
        ensures
            r@ == backed_up(call@, context_rows(rows@), now, name@, path@),
    {
        let made: String = created_at(call, now);
        let health: Option<ContextHealthReport> = if healthy {
            Some(analyze_context_health(rows, now))
        } else {
            None
        };
        let message: String = backup_message(name, rows.len(), path, made.as_str(), &health);
        let mut f: Fields = Fields::new();
        f.put("backup_name", jtext(name));
        f.put("backup_path", jtext(path));
        f.put("total_entries", jlen(rows.len()));
        f.put("created_at", jtext(made.as_str()));
        match &health {
            Some(h) => {
                f.put("health_report", h.to_json());
            },
            None => {
                f.put("health_report", Json::Null);
            },
        }
        done(f.done(), message)
    }

    fn from(
        call: &Call,
        rows: &Vec<ContextRow>,
        now: Stamp,
        history: &Vec<Event>,
        at: usize,
    ) -> (r: Action)
        requires
            at < history@.len(),
            at <= 1,
        ensures
            r@ == backup_from(call@, context_rows(rows@), now, events(history@), at as int),
    {
        let k: usize = history.len() - at;
        let dir: String = dir_of(call.project_dir.as_str());
        if k <= 1 {
            return Action::CreateDir { path: dir };
        }
        if event_failed(&history[at + 1]) {
            return db_error();
        }
        if k == 2 {
            return Action::Canonicalize { path: dir };
        }
        let base: &str = match &history[at + 2] {
            Event::Text(Some(base)) => base.as_str(),
            _ => {
                return invalid(
                    "backup_name",
                    "backup_name resolves outside the backup directory",
                );
            },
        };
        let name: String = name_backup(call.arguments.text_at("backup_name"), now);
        let file: String = cat2(name.as_str(), ".json");
        if has_char(file.as_str(), '/') {
            return invalid("backup_name", "backup_name resolves outside the backup directory");
        }
        let path: String = path_in(base, file.as_str());
        let healthy: bool = match call.arguments.flag_at("include_health_report") {
            Some(b) => b,
            None => true,
        };
        if k == 3 {
            let mut f: Fields = create_context_backup(call, rows, now);
            if healthy {
                let health: ContextHealthReport = analyze_context_health(rows, now);
                f.put("health_report", health.to_json());
            }
            let backup: Json = f.done();
            return Action::WriteFile { path, text: backup.pretty() };
        }
        if event_failed(&history[at + 3]) {
            return db_error();
        }
        if k == 4 {
            let mut f: Fields = Fields::new();
            f.put("total_entries", jlen(rows.len()));
            f.put("backup_path", jtext(path.as_str()));
            return Action::LogAction {
                agent_id: own(actor_label(call.caller(), "unknown")),
                action_type: own("backup_project_context"),
                task_id: Some(name),
                details: f.done(),
                timestamp: own(call.now.as_str()),
            };
        }
        BackupProjectContextTool::outcome(
            call,
            rows,
            now,
            name.as_str(),
            path.as_str(),
            healthy,
        )
    }

    fn at(call: &Call, now: Stamp, history: &Vec<Event>, at: usize) -> (r: Action)
        requires
            at <= 1,
        ensures
            r@ == backup_at(call@, now, events(history@), at as int),
    {
        if history.len() <= at {
            return Action::ListContexts;
        }
        match &history[at] {
            Event::Contexts(rows) => BackupProjectContextTool::from(call, rows, now, history, at),
            _ => db_error(),
        }
    }

    /// What to do after `history`.
    pub fn next(call: &Call, history: &Vec<Event>) -> (r: Action)
        ensures
            r@ == backup_project_context_next(call@, events(history@)),
    {
        match call.arguments.text_at("backup_name") {
            Some(name) => {
                if !valid_backup_name(name) {
                    return invalid(
                        "backup_name",
                        "backup_name may contain only letters, digits, and . _ - (A-Z a-z 0-9 . _ -), max 128 chars.",
                    );
                }
            },
            None => {},
        }
        match parse_time(call.now.as_str()) {
            Some(now) => BackupProjectContextTool::at(call, now, history, 0),
            None => {
                if history.len() == 0 {
                    return Action::Clock;
                }
                match &history[0] {
                    Event::Time(now) => BackupProjectContextTool::at(call, *now, history, 1),
                    _ => db_error(),
                }
            },
        }
    }
}

} // verus!

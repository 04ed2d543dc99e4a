//! Tools on what is known of files.

use crate::agent_communication_tools::{nonempty, nonempty_field};
use crate::admin_tools::{str_or, text_or};
use crate::file_management_tools::{
    caller_name, name_of, place_of, resolve_abs_filepath, resolved_path, working_directory_for,
    Place, PlaceView,
};
use crate::json::{
    json_read, read_json,compact_text, field, jopt, jtext, opt_json, Fields, Json, JsonView};
use crate::principal::{actor_label, label_or};
use crate::protocol::{
    db_error, db_error_text, done, done_view, event_failed, events, failed_view, invalid,
    invalid_view, is_failure, Action, ActionView, Call, CallView, Event, EventView, MetadataRow,
    MetadataRowView,
};
use crate::text::{borrow_opt, cat3, cat5, cat6, has_char, own};
use vstd::prelude::*;

verus! {

/// What a caller who may not use files reads.
pub const VIEW_DENIED: &'static str =
    "Unauthorized: agent token with files.use capability required to view file metadata";

/// What a caller who is no operator reads.
pub const UPDATE_METADATA_DENIED: &'static str = "Unauthorized: Updating file metadata is an operator-only action; a worker agent cannot record file metadata. Ask a project operator to set it. (You can still read metadata with view_file_metadata.)";

/// The path that stands for a file: the one that the disk resolves, else the
/// lexical one.
pub open spec fn disk_path(lexical: Seq<char>, e: EventView) -> Seq<char> {
    match e {
        EventView::Text(Some(resolved)) => resolved,
        _ => lexical,
    }
}

/// Where the search for the path of a file stands.
pub enum SoughtView {
    /// This is to be done next.
    Ask(ActionView),
    /// The path cannot be one.
    Bad,
    /// The path, and how many events it took to find it.
    Found { path: Seq<char>, used: int },
}

/// Where the search for the path of a file stands.
#[derive(Debug)]
pub enum Sought {
    Ask(Action),
    Bad,
    Found { path: String, used: usize },
}

impl View for Sought {
    type V = SoughtView;

    open spec fn view(&self) -> SoughtView {
        match *self {
            Sought::Ask(a) => SoughtView::Ask(a@),
            Sought::Bad => SoughtView::Bad,
            Sought::Found { path, used } => SoughtView::Found { path: path@, used: used as int },
        }
    }
}

/// The search for the path of a file: find the caller's directory, resolve the
/// path by its letters, then on disk. A path with a null character is none.
pub open spec fn seek(caller: Seq<char>, path: Seq<char>, h: Seq<EventView>) -> SoughtView {
    match place_of(caller, h) {
        PlaceView::Ask(a) => SoughtView::Ask(a),
        PlaceView::At { dir, used } => if path.contains('\0') {
            SoughtView::Bad
        } else if h.len() == used {
            SoughtView::Ask(ActionView::Canonicalize { path: resolved_path(dir, path) })
        } else {
            SoughtView::Found {
                path: disk_path(resolved_path(dir, path), h[used]),
                used: used + 1,
            }
        },
    }
}

/// The search for the path of a file.
pub fn normalize_filepath(caller: &str, path: &str, history: &Vec<Event>) -> (r: Sought)
    ensures
        r@ == seek(caller@, path@, events(history@)),
        r matches Sought::Found { used, .. } ==> 2 <= used <= 3 && used <= history@.len(),
{
    match working_directory_for(caller, history) {
        Place::Ask(a) => Sought::Ask(a),
        Place::At { dir, used } => {
            if has_char(path, '\0') {
                return Sought::Bad;
            }
            let lexical: String = resolve_abs_filepath(dir.as_str(), path);
            if history.len() == used {
                return Sought::Ask(Action::Canonicalize { path: lexical });
            }
            match &history[used] {
                Event::Text(Some(resolved)) => Sought::Found {
                    path: own(resolved.as_str()),
                    used: used + 1,
                },
                _ => Sought::Found { path: lexical, used: used + 1 },
            }
        },
    }
}

// ---------------------------------------------------------------------
// view_file_metadata
// ---------------------------------------------------------------------

/// The metadata that a row holds; where its text is no JSON, a note that says
/// so and the text.
pub open spec fn metadata_json(row: MetadataRowView) -> JsonView {
    match json_read(row.metadata) {
        Ok(j) => j,
        Err(_) => JsonView::Object(
            map![
            "error"@ => JsonView::Text("Could not parse stored metadata string."@),
            "raw_value"@ => JsonView::Text(row.metadata)
        ],
        ),
    }
}

/// What `view_file_metadata` returns of a row.
pub open spec fn metadata_data(path: Seq<char>, row: MetadataRowView) -> JsonView {
    JsonView::Object(
        map![
        "filepath"@ => JsonView::Text(path),
        "metadata"@ => metadata_json(row),
        "last_updated_by"@ => opt_json(row.updated_by),
        "last_updated_at"@ => opt_json(row.last_updated),
        "content_hash"@ => JsonView::Text(text_or(row.content_hash, "N/A"@))
    ],
    )
}

/// The dialogue of `view_file_metadata`.
pub open spec fn view_file_metadata_next(c: CallView, h: Seq<EventView>) -> ActionView {
    match nonempty_field(c.arguments, "filepath"@) {
        None => invalid_view(Some("filepath"@), "filepath is required and must be a string."@),
        Some(asked) => match seek(caller_name(c), asked, h) {
            SoughtView::Ask(a) => a,
            SoughtView::Bad => invalid_view(
                Some("filepath"@),
                "filepath could not be resolved to a valid path."@,
            ),
            SoughtView::Found { path, used } => if h.len() == used {
                ActionView::GetMetadata { path }
            } else {
                match h[used] {
                    EventView::Metadata(Some(row)) => done_view(
                        metadata_data(path, row),
                        "Metadata for file '"@ + asked + "' (normalized: "@ + path + "):\n\n"@
                            + crate::json::pretty_text(metadata_data(path, row)),
                    ),
                    EventView::Metadata(None) => done_view(
                        JsonView::Object(
                            map![
                            "filepath"@ => JsonView::Text(path),
                            "metadata"@ => JsonView::Null,
                            "last_updated_by"@ => JsonView::Null,
                            "last_updated_at"@ => JsonView::Null,
                            "content_hash"@ => JsonView::Text("N/A"@)
                        ],
                        ),
                        "No metadata has been recorded for '"@ + path
                            + "' yet. File metadata is optional and operator-managed; an empty result here is normal."@,
                    ),
                    _ => failed_view(db_error_text()),
                }
            },
        },
    }
}

/// `view_file_metadata`: what is known of a file.
pub struct ViewFileMetadataTool;

impl ViewFileMetadataTool {
    fn data(path: &str, row: &MetadataRow) -> (r: Json)
        ensures
            r@ == metadata_data(path@, row@),
    {
        let metadata: Json = match read_json(row.metadata.as_str()) {
            Some(j) => j,
            None => {
                let mut f: Fields = Fields::new();
                f.put("error", jtext("Could not parse stored metadata string."));
                f.put("raw_value", jtext(row.metadata.as_str()));
                f.done()
            },
        };
        let mut f: Fields = Fields::new();
        f.put("filepath", jtext(path));
        f.put("metadata", metadata);
        f.put("last_updated_by", jopt(borrow_opt(&row.updated_by)));
        f.put("last_updated_at", jopt(borrow_opt(&row.last_updated)));
        f.put("content_hash", jtext(str_or(borrow_opt(&row.content_hash), "N/A")));
        f.done()
    }

    /// What to do after `history`.
    pub fn next(call: &Call, history: &Vec<Event>) -> (r: Action)
        ensures
            r@ == view_file_metadata_next(call@, events(history@)),
    {
        let asked: &str = match nonempty(&call.arguments, "filepath") {
            Some(p) => p,
            None => {
                return invalid("filepath", "filepath is required and must be a string.");
            },
        };
        match normalize_filepath(name_of(call), asked, history) {
            Sought::Ask(a) => a,
            Sought::Bad => invalid("filepath", "filepath could not be resolved to a valid path."),
            Sought::Found { path, used } => {
                if history.len() == used {
                    return Action::GetMetadata { path };
                }
                match &history[used] {
                    Event::Metadata(Some(row)) => {
                        let data: Json = ViewFileMetadataTool::data(path.as_str(), row);
                        let text: String = data.pretty();
                        let message: String = cat6(
                            "Metadata for file '",
                            asked,
                            "' (normalized: ",
                            path.as_str(),
                            "):\n\n",
                            text.as_str(),
                        );
                        done(data, message)
                    },
                    Event::Metadata(None) => {
                        let mut f: Fields = Fields::new();
                        f.put("filepath", jtext(path.as_str()));
                        f.put("metadata", Json::Null);
                        f.put("last_updated_by", Json::Null);
                        f.put("last_updated_at", Json::Null);
                        f.put("content_hash", jtext("N/A"));
                        let message: String = cat3(
                            "No metadata has been recorded for '",
                            path.as_str(),
                            "' yet. File metadata is optional and operator-managed; an empty result here is normal.",
                        );
                        done(f.done(), message)
                    },
                    _ => db_error(),
                }
            },
        }
    }
}

// ---------------------------------------------------------------------
// update_file_metadata
// ---------------------------------------------------------------------

/// The dialogue of `update_file_metadata`: find the path, store the metadata's
/// text, write the audit line.
pub open spec fn update_file_metadata_next(c: CallView, h: Seq<EventView>) -> ActionView {
    let metadata = field(c.arguments, "metadata"@);
    let actor = label_or(c.principal, "unknown"@);
    match nonempty_field(c.arguments, "filepath"@) {
        None => invalid_view(Some("filepath"@), "filepath is required and must be a string."@),
        Some(asked) => if !(metadata is Some && metadata->0 is Object) {
            invalid_view(Some("metadata"@), "metadata is required and must be a dictionary."@)
        } else {
            match seek(caller_name(c), asked, h) {
                SoughtView::Ask(a) => a,
                SoughtView::Bad => invalid_view(
                    Some("filepath"@),
                    "filepath could not be resolved to a valid path."@,
                ),
                SoughtView::Found { path, used } => if h.len() == used {
                    ActionView::PutMetadata {
                        path,
                        metadata: compact_text(metadata->0),
                        updated_by: actor,
                        timestamp: c.now,
                    }
                } else if is_failure(h[used]) {
                    failed_view(db_error_text())
                } else if h.len() == used + 1 {
                    ActionView::LogAction {
                        agent_id: actor,
                        action_type: "updated_file_metadata"@,
                        task_id: None,
                        details: JsonView::Object(
                            map![
                            "filepath"@ => JsonView::Text(path),
                            "action"@ => JsonView::Text("set/update"@)
                        ],
                        ),
                        timestamp: c.now,
                    }
                } else {
                    done_view(
                        JsonView::Object(
                            map![
                            "filepath"@ => JsonView::Text(path),
                            "original_path"@ => JsonView::Text(asked),
                            "updated_by"@ => JsonView::Text(actor),
                            "last_updated"@ => JsonView::Text(c.now)
                        ],
                        ),
                        "File metadata updated successfully for '"@ + asked + "' (normalized: "@
                            + path + ")."@,
                    )
                },
            }
        },
    }
}

/// `update_file_metadata`: replaces what is known of a file.
pub struct UpdateFileMetadataTool;

impl UpdateFileMetadataTool {
    /// What to do after `history`.
    pub fn next(call: &Call, history: &Vec<Event>) -> (r: Action)
        ensures
            r@ == update_file_metadata_next(call@, events(history@)),
    {
        let asked: &str = match nonempty(&call.arguments, "filepath") {
            Some(p) => p,
            None => {
                return invalid("filepath", "filepath is required and must be a string.");
            },
        };
        let metadata: &Json = match call.arguments.get("metadata") {
            Some(m) => {
                if !m.is_object() {
                    return invalid("metadata", "metadata is required and must be a dictionary.");
                }
                m
            },
            None => {
                return invalid("metadata", "metadata is required and must be a dictionary.");
            },
        };
        let actor: &str = actor_label(call.caller(), "unknown");
        match normalize_filepath(name_of(call), asked, history) {
            Sought::Ask(a) => a,
            Sought::Bad => invalid("filepath", "filepath could not be resolved to a valid path."),
            Sought::Found { path, used } => {
                if history.len() == used {
                    return Action::PutMetadata {
                        path,
                        metadata: metadata.compact(),
                        updated_by: own(actor),
                        timestamp: own(call.now.as_str()),
                    };
                }
                if event_failed(&history[used]) {
                    return db_error();
                }
                if history.len() == used + 1 {
                    let mut f: Fields = Fields::new();
                    f.put("filepath", jtext(path.as_str()));
                    f.put("action", jtext("set/update"));
                    return Action::LogAction {
                        agent_id: own(actor),
                        action_type: own("updated_file_metadata"),
                        task_id: None,
                        details: f.done(),
                        timestamp: own(call.now.as_str()),
                    };
                }
                let mut f: Fields = Fields::new();
                f.put("filepath", jtext(path.as_str()));
                f.put("original_path", jtext(asked));
                f.put("updated_by", jtext(actor));
                f.put("last_updated", jtext(call.now.as_str()));
                let message: String = cat5(
                    "File metadata updated successfully for '",
                    asked,
                    "' (normalized: ",
                    path.as_str(),
                    ").",
                );
                done(f.done(), message)
            },
        }
    }
}

} // verus!

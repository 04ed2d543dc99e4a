//! What is said and stored of files, and which path a file goes by.

use crate::file_management_tools::{
    check_file_status_next, is_absolute, joined_path, normal_path, pieces, resolved_path,
    update_file_status_next, walk,
};
use crate::file_metadata_tools::{update_file_metadata_next, view_file_metadata_next};
use crate::json::{bool_field, compact_text, field, json_read, text_field, JsonView};
use crate::protocol::{
    is_failure, ActionView, AgentRowView, CallView, ClaimView, EventView, MetadataRowView,
    ResultView,
};
use crate::text::holds;
use vstd::prelude::*;

verus! {

// ---------------------------------------------------------------------
// Paths
// ---------------------------------------------------------------------

/// A path goes on from a directory: an absolute one stands for itself, and any
/// other is put behind the directory and a slash.
pub proof fn paths_go_on_from_their_directory(base: Seq<char>, path: Seq<char>)
    ensures
        path.len() > 0 && path[0] == '/' ==> resolved_path(base, path) == normal_path(path),
        base.len() > 0 && (path.len() == 0 || path[0] != '/') ==> resolved_path(base, path)
            == normal_path(base + "/"@ + path),
        base.len() == 0 ==> resolved_path(base, path) == normal_path(path),
{
}

proof fn lemma_pieces_name(path: Seq<char>, name: Seq<char>)
    requires
        !name.contains('/'),
    ensures
        pieces(path + "/"@ + name) == pieces(path).push(name),
    decreases name.len(),
{
    reveal_strlit("/");
    assert("/"@.len() == 1 && "/"@[0] == '/');
    let whole = path + "/"@ + name;
    if name.len() == 0 {
        assert(whole.drop_last() =~= path);
        assert(whole.last() == '/');
        assert(name =~= Seq::empty());
    } else {
        let less = name.drop_last();
        assert(!less.contains('/')) by {
            if less.contains('/') {
                let i = choose|i: int| 0 <= i < less.len() && less[i] == '/';
                assert(name[i] == '/');
            }
        }
        lemma_pieces_name(path, less);
        assert(whole.drop_last() =~= path + "/"@ + less);
        assert(whole.last() == name.last());
        if name.last() == '/' {
            assert(name[name.len() - 1] == '/');
        }
        let front = pieces(path).push(less);
        assert(front.drop_last() =~= pieces(path));
        assert(less.push(name.last()) =~= name);
    }
}

/// Whether a text is the name of something in a directory: it says something, has
/// no slash, and is neither `.` nor `..`.
pub open spec fn is_plain(name: Seq<char>) -> bool {
    name.len() > 0 && !name.contains('/') && name != "."@ && name != ".."@
}

/// Going on to a name adds the name, and nothing else, to the way of a path.
pub proof fn names_lead_on(path: Seq<char>, name: Seq<char>, absolute: bool)
    requires
        is_plain(name),
    ensures
        walk(pieces(path + "/"@ + name), absolute) == walk(pieces(path), absolute).push(name),
{
    lemma_pieces_name(path, name);
    let parts = pieces(path).push(name);
    assert(parts.drop_last() =~= pieces(path));
}

/// Staying where one is leads nowhere: `.` and a second slash change no path.
pub proof fn staying_leads_nowhere(path: Seq<char>)
    requires
        path.len() > 0,
    ensures
        normal_path(path + "/"@ + "."@) == normal_path(path),
        normal_path(path + "/"@) == normal_path(path),
{
    reveal_strlit("/");
    reveal_strlit(".");
    assert("/"@.len() == 1 && "/"@[0] == '/');
    assert("."@.len() == 1 && "."@[0] == '.');
    let dot = path + "/"@ + "."@;
    let none = Seq::<char>::empty();
    let slash = path + "/"@ + none;
    assert(slash =~= path + "/"@);
    assert(!"."@.contains('/'));
    lemma_pieces_name(path, "."@);
    lemma_pieces_name(path, none);
    assert(pieces(path).push("."@).drop_last() =~= pieces(path));
    assert(pieces(path).push(none).drop_last() =~= pieces(path));
    assert(dot[0] == path[0] && slash[0] == path[0]);
}

/// Going into a directory and out of it again leads back.
pub proof fn going_in_and_out_leads_back(path: Seq<char>, name: Seq<char>)
    requires
        path.len() > 0,
        is_plain(name),
    ensures
        normal_path(path + "/"@ + name + "/"@ + ".."@) == normal_path(path),
{
    reveal_strlit("/");
    reveal_strlit("..");
    reveal_strlit(".");
    assert("/"@.len() == 1 && "/"@[0] == '/');
    assert(".."@.len() == 2 && ".."@[0] == '.' && ".."@[1] == '.');
    assert("."@.len() == 1);
    let absolute = is_absolute(path);
    let inner = path + "/"@ + name;
    let back = inner + "/"@ + ".."@;
    assert(!".."@.contains('/'));
    lemma_pieces_name(inner, ".."@);
    names_lead_on(path, name, absolute);
    let parts = pieces(inner).push(".."@);
    assert(parts.drop_last() =~= pieces(inner));
    let way = walk(pieces(path), absolute);
    assert(way.push(name).drop_last() =~= way);
    assert(back[0] == path[0]);
}

/// Beyond the root there is nothing: an absolute path that goes out of the root
/// stays there.
pub proof fn the_root_has_no_way_out(path: Seq<char>)
    requires
        path.len() > 0,
        is_absolute(path),
        normal_path(path) == "/"@,
    ensures
        normal_path(path + "/"@ + ".."@) == "/"@,
{
    reveal_strlit("/");
    reveal_strlit("..");
    reveal_strlit(".");
    assert("/"@.len() == 1 && "/"@[0] == '/');
    assert(".."@.len() == 2 && ".."@[0] == '.' && ".."@[1] == '.');
    assert("."@.len() == 1);
    assert(!".."@.contains('/'));
    lemma_pieces_name(path, ".."@);
    let way = walk(pieces(path), true);
    let none = Seq::<char>::empty();
    crate::file_management_tools::resolved_paths_are_normal(none, path);
    assert(joined_path(none, path) == path);
    if way.len() > 0 {
        assert(crate::file_management_tools::is_name(way[0]));
        crate::text_laws::joined_texts_hold_every_part(way, "/"@, 0);
        let j = crate::text::joined(way, "/"@);
        assert(normal_path(path) == "/"@ + j);
        assert(("/"@ + j).len() == 1 + j.len());
        assert(j.len() == 0);
        let i = choose|i: int| #[trigger] crate::text::holds_at(j, way[0], i);
        assert(false);
    }
    let parts = pieces(path).push(".."@);
    assert(parts.drop_last() =~= pieces(path));
    assert((path + "/"@ + ".."@)[0] == path[0]);
}

// ---------------------------------------------------------------------
// Claims
// ---------------------------------------------------------------------

/// Whether the events of a call place the caller in `dir`: its own directory
/// where one is stored, else the server's.
pub open spec fn placed(row: AgentRowView, here: Seq<char>, h: Seq<EventView>, dir: Seq<char>) -> bool {
    &&& row.working_directory.len() > 0 ==> h == seq![EventView::Agent(Some(row))] && dir
        == row.working_directory
    &&& row.working_directory.len() == 0 ==> h == seq![
        EventView::Agent(Some(row)),
        EventView::Text(Some(here)),
    ] && dir == here
}

/// A file is looked for from the caller's directory, under its normal path; what
/// is said of it is what is entered for that path: its holder, how it is held
/// and since when, or that no one holds it.
pub proof fn checks_report_the_holder(
    c: CallView,
    caller: Seq<char>,
    path: Seq<char>,
    row: AgentRowView,
    here: Seq<char>,
    h: Seq<EventView>,
    dir: Seq<char>,
    claim: ClaimView,
)
    requires
        c.principal is Some,
        c.principal->0.agent_id == Some(caller),
        text_field(c.arguments, "filepath"@) == Some(path),
        path.len() > 0,
        placed(row, here, h, dir),
    ensures
        ({
            let taken = check_file_status_next(c, h.push(EventView::Holder(Some(claim))));
            let free = check_file_status_next(c, h.push(EventView::Holder(None)));
            let data = taken->Finish_0->Success_data->0;
            let none = free->Finish_0->Success_data->0;
            let text = taken->Finish_0->Success_message->0;
            &&& check_file_status_next(c, Seq::empty()) == (ActionView::GetAgent {
                agent_id: caller,
            })
            &&& check_file_status_next(c, h) == (ActionView::FileHolder {
                path: resolved_path(dir, path),
            })
            &&& taken is Finish && taken->Finish_0 is Success && taken->Finish_0->Success_data is Some
            &&& text_field(data, "filepath"@) == Some(resolved_path(dir, path))
            &&& text_field(data, "original_path"@) == Some(path)
            &&& bool_field(data, "in_use"@) == Some(true)
            &&& text_field(data, "agent_id"@) == Some(claim.agent_id)
            &&& text_field(data, "status"@) == Some(claim.status)
            &&& text_field(data, "timestamp"@) == Some(claim.timestamp)
            &&& taken->Finish_0->Success_message is Some
            &&& holds(text, claim.agent_id)
            &&& free is Finish && free->Finish_0 is Success && free->Finish_0->Success_data is Some
            &&& text_field(none, "filepath"@) == Some(resolved_path(dir, path))
            &&& bool_field(none, "in_use"@) == Some(false)
        }),
{
    reveal_strlit("filepath");
    reveal_strlit("original_path");
    reveal_strlit("in_use");
    reveal_strlit("agent_id");
    reveal_strlit("status");
    reveal_strlit("timestamp");
    assert("filepath"@.len() == 8);
    assert("original_path"@.len() == 13);
    assert("in_use"@.len() == 6);
    assert("agent_id"@.len() == 8);
    assert("status"@.len() == 6);
    assert("timestamp"@.len() == 9);
    assert("agent_id"@[0] == 'a');
    assert("filepath"@[0] == 'f');
    assert("in_use"@[0] == 'i');
    assert("status"@[0] == 's');
    lemma_placed(row, here, h, dir, EventView::Holder(Some(claim)));
    lemma_placed(row, here, h, dir, EventView::Holder(None));
    lemma_status_names_the_holder(path, resolved_path(dir, path), caller, claim);
}

proof fn lemma_status_names_the_holder(
    path: Seq<char>,
    at: Seq<char>,
    caller: Seq<char>,
    claim: ClaimView,
)
    ensures
        ({
            let r = crate::file_management_tools::file_status_view(path, at, caller, Some(claim));
            holds(r->Finish_0->Success_message->0, claim.agent_id)
        }),
{
    let label = crate::file_management_tools::file_label(path, at);
    let since = ") since "@ + claim.timestamp + ". Status: "@ + claim.status;
    let from = "' since "@ + claim.timestamp + ". Status: "@ + claim.status;
    let r = crate::file_management_tools::file_status_view(path, at, caller, Some(claim));
    let text = r->Finish_0->Success_message->0;
    if claim.agent_id == caller {
        let a = label + " is currently being used by YOU ("@;
        assert(text =~= a + claim.agent_id + since);
        crate::text_laws::sums_hold_their_parts(a, claim.agent_id, since);
    } else {
        let b = label + " is currently being used by agent '"@;
        assert(text =~= b + claim.agent_id + from);
        crate::text_laws::sums_hold_their_parts(b, claim.agent_id, from);
    }
}

proof fn lemma_placed(
    row: AgentRowView,
    here: Seq<char>,
    h: Seq<EventView>,
    dir: Seq<char>,
    e: EventView,
)
    requires
        placed(row, here, h, dir),
    ensures
        h.len() == 1 || h.len() == 2,
        h[0] == EventView::Agent(Some(row)),
        h.push(e)[0] == h[0],
        h.len() == 2 ==> h[1] == EventView::Text(Some(here)) && h.push(e)[1] == h[1],
        h.push(e)[h.len() as int] == e,
        h.len() == 1 <==> row.working_directory.len() > 0,
{
}

/// A claim enters the caller, the status of the call and its time for the path
/// of the file, where no one or the caller itself holds it; a release takes the
/// entry of that path away. Where another holds the file, the call ends in a
/// conflict that names the holder, and nothing is entered.
pub proof fn claims_are_entered_as_asked(
    c: CallView,
    caller: Seq<char>,
    path: Seq<char>,
    status: Seq<char>,
    row: AgentRowView,
    here: Seq<char>,
    h: Seq<EventView>,
    dir: Seq<char>,
    claim: ClaimView,
)
    requires
        c.principal is Some,
        c.principal->0.agent_id == Some(caller),
        text_field(c.arguments, "filepath"@) == Some(path),
        text_field(c.arguments, "status"@) == Some(status),
        path.len() > 0,
        status == "editing"@ || status == "reading"@ || status == "reviewing"@ || status
            == "released"@,
        placed(row, here, h, dir),
    ensures
        ({
            let at = resolved_path(dir, path);
            let free = update_file_status_next(c, h.push(EventView::Holder(None)));
            let taken = update_file_status_next(c, h.push(EventView::Holder(Some(claim))));
            let entered = ActionView::ClaimFile {
                path: at,
                agent_id: caller,
                status,
                timestamp: c.now,
            };
            let released = ActionView::ReleaseFile { path: at };
            &&& update_file_status_next(c, Seq::empty()) == (ActionView::GetAgent {
                agent_id: caller,
            })
            &&& update_file_status_next(c, h) == (ActionView::FileHolder { path: at })
            &&& status == "released"@ ==> free == released
            &&& status != "released"@ ==> free == entered
            &&& (claim.agent_id == caller && status == "released"@) ==> taken == released
            &&& (claim.agent_id == caller && status != "released"@) ==> taken == entered
            &&& claim.agent_id != caller ==> taken is Finish && taken->Finish_0 is Conflict
                && holds(taken->Finish_0->Conflict_reason, claim.agent_id)
        }),
{
    lemma_placed(row, here, h, dir, EventView::Holder(Some(claim)));
    lemma_placed(row, here, h, dir, EventView::Holder(None));
    reveal_strlit("editing");
    reveal_strlit("reading");
    reveal_strlit("reviewing");
    reveal_strlit("released");
    if claim.agent_id != caller {
        let taken = update_file_status_next(c, h.push(EventView::Holder(Some(claim))));
        let label = crate::file_management_tools::file_label(path, resolved_path(dir, path));
        let a = label + " is already claimed by agent '"@;
        let text = taken->Finish_0->Conflict_reason;
        let b = text.subrange((a.len() + claim.agent_id.len()) as int, text.len() as int);
        assert(text =~= a + claim.agent_id + b);
        crate::text_laws::sums_hold_their_parts(a, claim.agent_id, b);
    }
}

/// The answer to a claim names the file, its new holder and how it is held; the
/// answer to a release says whether the file was held.
pub proof fn claims_are_answered_as_entered(c: CallView, h: Seq<EventView>, e: EventView)
    ensures
        ({
            let a = update_file_status_next(c, h);
            let r = update_file_status_next(c, h.push(e));
            let data = r->Finish_0->Success_data->0;
            &&& a is ClaimFile ==> {
                &&& r is Finish && r->Finish_0 is Success && r->Finish_0->Success_data is Some
                &&& text_field(data, "filepath"@) == Some(a->ClaimFile_path)
                &&& text_field(data, "original_path"@) == text_field(c.arguments, "filepath"@)
                &&& text_field(data, "agent_id"@) == Some(a->ClaimFile_agent_id)
                &&& text_field(data, "status"@) == Some(a->ClaimFile_status)
            }
            &&& a is ReleaseFile ==> {
                &&& r is Finish && r->Finish_0 is Success && r->Finish_0->Success_data is Some
                &&& text_field(data, "filepath"@) == Some(a->ReleaseFile_path)
                &&& e == EventView::Changed(true) ==> text_field(data, "status"@) == Some(
                    "released"@,
                )
                &&& e == EventView::Changed(false) ==> bool_field(data, "in_use"@) == Some(false)
            }
        }),
{
    reveal_strlit("filepath");
    reveal_strlit("original_path");
    reveal_strlit("in_use");
    reveal_strlit("agent_id");
    reveal_strlit("status");
    assert("filepath"@.len() == 8);
    assert("original_path"@.len() == 13);
    assert("in_use"@.len() == 6);
    assert("agent_id"@.len() == 8);
    assert("status"@.len() == 6);
    assert("agent_id"@[0] == 'a');
    assert("filepath"@[0] == 'f');
    assert("in_use"@[0] == 'i');
    assert("status"@[0] == 's');
    let g = h.push(e);
    let n = h.len() as int;
    assert(forall|k: int| 0 <= k < n ==> g[k] == h[k]);
    assert(g[n] == e);
}

/// A status that is none, and a call without a path or a status, is refused,
/// whatever has happened.
pub proof fn improper_claims_are_refused(c: CallView, h: Seq<EventView>)
    ensures
        ({
            let path = text_field(c.arguments, "filepath"@);
            let status = text_field(c.arguments, "status"@);
            let r = update_file_status_next(c, h);
            let named = path is Some && path->0.len() > 0;
            let known = status == Some("editing"@) || status == Some("reading"@) || status == Some(
                "reviewing"@,
            ) || status == Some("released"@);
            &&& !named ==> r is Finish && r->Finish_0 is Invalid && r->Finish_0->Invalid_field
                == Some("filepath"@)
            &&& (named && !known) ==> r is Finish && r->Finish_0 is Invalid
                && r->Finish_0->Invalid_field == Some("status"@)
            &&& !named ==> (check_file_status_next(c, h) matches ActionView::Finish(
                ResultView::Invalid { field: f, .. },
            ) && f == Some("filepath"@))
        }),
{
}

// ---------------------------------------------------------------------
// Metadata
// ---------------------------------------------------------------------

/// What is stored of a file goes by the path that the disk gives, and by the
/// normal path where the disk knows none. It is shown as it is stored: as JSON
/// where it is some and else as its text, with who wrote it and when.
pub proof fn metadata_is_shown_as_stored(
    c: CallView,
    caller: Seq<char>,
    path: Seq<char>,
    row: AgentRowView,
    here: Seq<char>,
    h: Seq<EventView>,
    dir: Seq<char>,
    disk: Option<Seq<char>>,
    m: MetadataRowView,
)
    requires
        c.principal is Some,
        c.principal->0.agent_id == Some(caller),
        text_field(c.arguments, "filepath"@) == Some(path),
        path.len() > 0,
        !path.contains('\0'),
        placed(row, here, h, dir),
    ensures
        ({
            let g = h.push(EventView::Text(disk));
            let at = if disk is Some {
                disk->0
            } else {
                resolved_path(dir, path)
            };
            let found = view_file_metadata_next(c, g.push(EventView::Metadata(Some(m))));
            let absent = view_file_metadata_next(c, g.push(EventView::Metadata(None)));
            let data = found->Finish_0->Success_data->0;
            let shown = field(data, "metadata"@);
            let none = absent->Finish_0->Success_data->0;
            &&& view_file_metadata_next(c, h) == (ActionView::Canonicalize {
                path: resolved_path(dir, path),
            })
            &&& view_file_metadata_next(c, g) == (ActionView::GetMetadata { path: at })
            &&& found is Finish && found->Finish_0 is Success && found->Finish_0->Success_data is Some
            &&& text_field(data, "filepath"@) == Some(at)
            &&& json_read(m.metadata) is Ok ==> shown == Some(json_read(m.metadata)->Ok_0)
            &&& json_read(m.metadata) is Err ==> shown is Some && text_field(shown->0, "raw_value"@)
                == Some(m.metadata)
            &&& text_field(data, "last_updated_by"@) == m.updated_by
            &&& text_field(data, "last_updated_at"@) == m.last_updated
            &&& m.content_hash is Some ==> text_field(data, "content_hash"@) == m.content_hash
            &&& absent is Finish && absent->Finish_0 is Success
            &&& absent->Finish_0->Success_data is Some
            &&& text_field(none, "filepath"@) == Some(at)
            &&& field(none, "metadata"@) == Some(JsonView::Null)
        }),
{
    reveal_strlit("filepath");
    reveal_strlit("metadata");
    reveal_strlit("last_updated_by");
    reveal_strlit("last_updated_at");
    reveal_strlit("content_hash");
    assert("filepath"@.len() == 8);
    assert("metadata"@.len() == 8);
    assert("last_updated_by"@.len() == 15);
    assert("last_updated_at"@.len() == 15);
    assert("content_hash"@.len() == 12);
    assert("filepath"@[0] == 'f');
    assert("last_updated_at"@[13] == 'a');
    assert("last_updated_by"@[13] == 'b');
    assert("metadata"@[0] == 'm');
    reveal_strlit("error");
    reveal_strlit("raw_value");
    assert("error"@.len() == 5);
    assert("raw_value"@.len() == 9);
    let g = h.push(EventView::Text(disk));
    lemma_placed(row, here, h, dir, EventView::Text(disk));
    let a = g.push(EventView::Metadata(Some(m)));
    let b = g.push(EventView::Metadata(None));
    let n = g.len() as int;
    assert(forall|k: int| 0 <= k < n ==> a[k] == g[k] && b[k] == g[k]);
    assert(a[n] == EventView::Metadata(Some(m)) && b[n] == EventView::Metadata(None));
}

/// What is written of a file is what the call says: its metadata as JSON text,
/// under the path of the file, in the caller's name and at the call's time. An
/// audit line and the answer name that path.
pub proof fn metadata_is_stored_as_written(
    c: CallView,
    path: Seq<char>,
    row: AgentRowView,
    here: Seq<char>,
    h: Seq<EventView>,
    dir: Seq<char>,
    disk: Option<Seq<char>>,
    d: EventView,
    e: EventView,
)
    requires
        c.principal is Some,
        text_field(c.arguments, "filepath"@) == Some(path),
        path.len() > 0,
        !path.contains('\0'),
        field(c.arguments, "metadata"@) is Some,
        field(c.arguments, "metadata"@)->0 is Object,
        placed(row, here, h, dir),
        !is_failure(d),
    ensures
        ({
            let g = h.push(EventView::Text(disk));
            let at = if disk is Some {
                disk->0
            } else {
                resolved_path(dir, path)
            };
            let who = c.principal->0.actor_label;
            let line = update_file_metadata_next(c, g.push(d));
            let r = update_file_metadata_next(c, g.push(d).push(e));
            let data = r->Finish_0->Success_data->0;
            &&& update_file_metadata_next(c, h) == (ActionView::Canonicalize {
                path: resolved_path(dir, path),
            })
            &&& update_file_metadata_next(c, g) == (ActionView::PutMetadata {
                path: at,
                metadata: compact_text(field(c.arguments, "metadata"@)->0),
                updated_by: who,
                timestamp: c.now,
            })
            &&& line is LogAction
            &&& line->LogAction_agent_id == who
            &&& line->LogAction_action_type == "updated_file_metadata"@
            &&& line->LogAction_timestamp == c.now
            &&& text_field(line->LogAction_details, "filepath"@) == Some(at)
            &&& r is Finish && r->Finish_0 is Success && r->Finish_0->Success_data is Some
            &&& text_field(data, "filepath"@) == Some(at)
            &&& text_field(data, "original_path"@) == Some(path)
            &&& text_field(data, "updated_by"@) == Some(who)
            &&& text_field(data, "last_updated"@) == Some(c.now)
        }),
{
    reveal_strlit("filepath");
    reveal_strlit("original_path");
    reveal_strlit("updated_by");
    reveal_strlit("last_updated");
    reveal_strlit("action");
    assert("filepath"@.len() == 8);
    assert("original_path"@.len() == 13);
    assert("updated_by"@.len() == 10);
    assert("last_updated"@.len() == 12);
    assert("action"@.len() == 6);
    let g = h.push(EventView::Text(disk));
    lemma_placed(row, here, h, dir, EventView::Text(disk));
    let a = g.push(d);
    let b = a.push(e);
    let n = g.len() as int;
    assert(forall|k: int| 0 <= k < n ==> a[k] == g[k] && b[k] == g[k]);
    assert(a[n] == d && b[n] == d);
}

/// Metadata that is no object, and a call without a path, is refused, whatever
/// has happened.
pub proof fn improper_metadata_is_refused(c: CallView, h: Seq<EventView>)
    ensures
        ({
            let path = text_field(c.arguments, "filepath"@);
            let m = field(c.arguments, "metadata"@);
            let r = update_file_metadata_next(c, h);
            let named = path is Some && path->0.len() > 0;
            &&& !named ==> r is Finish && r->Finish_0 is Invalid && r->Finish_0->Invalid_field
                == Some("filepath"@)
            &&& (named && (m is None || !(m->0 is Object))) ==> r is Finish
                && r->Finish_0 is Invalid && r->Finish_0->Invalid_field == Some("metadata"@)
            &&& !named ==> (view_file_metadata_next(c, h) matches ActionView::Finish(
                ResultView::Invalid { field: f, .. },
            ) && f == Some("filepath"@))
        }),
{
}

} // verus!

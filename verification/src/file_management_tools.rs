//! Tools by which agents tell each other which files they use, and the
//! resolution of paths that they rest on.

use crate::agent_communication_tools::{nonempty, nonempty_field};
use crate::admin_tools::text_or;
use crate::json::{jtext, Fields, Json, JsonView};
use crate::principal::{
    agent_of, caller_agent, caller_has, caller_view, Capability, Principal, PrincipalKind,
    PrincipalView,
};
use crate::protocol::{
    conflict, conflict_view, done, done_view, events, invalid, invalid_view, Action, ActionView,
    Call, CallView, Claim, ClaimView, Event, EventView, ResultView,
};
use crate::text::{
    cat2, cat3, cat5, cat7, chars_of, join, joined, own, same, texts,
};
use vstd::prelude::*;

verus! {

// ---------------------------------------------------------------------
// Paths
// ---------------------------------------------------------------------

/// The pieces of a path between its slashes.
pub open spec fn pieces(path: Seq<char>) -> Seq<Seq<char>>
    decreases path.len(),
{
    if path.len() == 0 {
        seq![Seq::empty()]
    } else {
        let front = pieces(path.drop_last());
        if path.last() == '/' {
            front.push(Seq::empty())
        } else {
            front.drop_last().push(front.last().push(path.last()))
        }
    }
}

/// The way that one more piece leads: `.` and nothing stay, `..` goes up where
/// there is something to leave and not above the root, anything else goes down.
pub open spec fn go(way: Seq<Seq<char>>, piece: Seq<char>, absolute: bool) -> Seq<Seq<char>> {
    if piece.len() == 0 || piece == "."@ {
        way
    } else if piece == ".."@ {
        if way.len() > 0 && way.last() != ".."@ {
            way.drop_last()
        } else if way.len() == 0 && absolute {
            way
        } else {
            way.push(piece)
        }
    } else {
        way.push(piece)
    }
}

/// Where pieces lead one after the other.
pub open spec fn walk(parts: Seq<Seq<char>>, absolute: bool) -> Seq<Seq<char>>
    decreases parts.len(),
{
    if parts.len() == 0 {
        Seq::empty()
    } else {
        go(walk(parts.drop_last(), absolute), parts.last(), absolute)
    }
}

/// Whether a path begins at the root.
pub open spec fn is_absolute(path: Seq<char>) -> bool {
    path.len() > 0 && path[0] == '/'
}

/// A path without `.`, without doubled slashes, and with `..` resolved by its
/// letters alone.
pub open spec fn normal_path(path: Seq<char>) -> Seq<char> {
    (if is_absolute(path) {
        "/"@
    } else {
        ""@
    }) + joined(walk(pieces(path), is_absolute(path)), "/"@)
}

/// `path` as seen from `base`, where it does not begin at the root itself.
pub open spec fn joined_path(base: Seq<char>, path: Seq<char>) -> Seq<char> {
    if is_absolute(path) || base.len() == 0 {
        path
    } else {
        base + "/"@ + path
    }
}

/// The normal form of `path` as seen from `base`.
pub open spec fn resolved_path(base: Seq<char>, path: Seq<char>) -> Seq<char> {
    normal_path(joined_path(base, path))
}

fn take_piece(way: &mut Vec<String>, piece: String, absolute: bool)
    ensures
        texts(final(way)@) == go(texts(old(way)@), piece@, absolute),
{
    let ghost before = way@;
    proof {
        assert(texts(before).len() == before.len());
    }
    if piece.as_str().is_empty() || same(piece.as_str(), ".") {
        return;
    }
    if same(piece.as_str(), "..") {
        let n: usize = way.len();
        if n > 0 && !same(way[n - 1].as_str(), "..") {
            way.pop();
            proof {
                assert(texts(way@) =~= texts(before).drop_last());
            }
            return;
        }
        if n == 0 && absolute {
            return;
        }
    }
    way.push(piece);
    proof {
        assert(texts(way@) =~= texts(before).push(piece@));
    }
}

/// The normal form of a path, found without a look at the disk.
pub fn normalize_lexically(path: &str) -> (r: String)
    ensures
        r@ == normal_path(path@),
{
    let v: Vec<char> = chars_of(path);
    let absolute: bool = v.len() > 0 && v[0] == '/';
    let mut way: Vec<String> = Vec::new();
    let mut piece: String = String::new();
    let mut i: usize = 0;
    proof {
        assert(texts(way@) =~= Seq::empty());
        assert(piece@ =~= Seq::empty());
        assert(pieces(v@.subrange(0, 0)).drop_last() =~= Seq::empty());
    }
    while i < v.len()
        invariant
            i <= v@.len(),
            pieces(v@.subrange(0, i as int)).len() > 0,
            texts(way@) == walk(pieces(v@.subrange(0, i as int)).drop_last(), absolute),
            piece@ == pieces(v@.subrange(0, i as int)).last(),
        decreases v@.len() - i,
    {
        let ghost front = pieces(v@.subrange(0, i as int));
        proof {
            let now = v@.subrange(0, i + 1);
            assert(now.drop_last() =~= v@.subrange(0, i as int));
            assert(now.last() == v@[i as int]);
            assert(front.push(Seq::empty()).drop_last() =~= front);
            assert(front.drop_last().push(front.last().push(v@[i as int])).drop_last()
                =~= front.drop_last());
        }
        if v[i] == '/' {
            take_piece(&mut way, piece, absolute);
            piece = String::new();
            proof {
                assert(piece@ =~= Seq::empty());
            }
        } else {
            piece.push(v[i]);
        }
        i = i + 1;
    }
    proof {
        assert(v@.subrange(0, v@.len() as int) =~= v@);
    }
    take_piece(&mut way, piece, absolute);
    let body: String = join(&way, "/");
    if absolute {
        cat2("/", body.as_str())
    } else {
        cat2("", body.as_str())
    }
}

/// The normal form of `path` as seen from `base`.
pub fn resolve_abs_filepath(base: &str, path: &str) -> (r: String)
    ensures
        r@ == resolved_path(base@, path@),
{
    let v: Vec<char> = chars_of(path);
    if (v.len() > 0 && v[0] == '/') || base.is_empty() {
        normalize_lexically(path)
    } else {
        let whole: String = cat3(base, "/", path);
        normalize_lexically(whole.as_str())
    }
}

/// Whether a piece names something: it is not empty, holds no slash, and is
/// not `.`.
pub open spec fn is_name(piece: Seq<char>) -> bool {
    piece.len() > 0 && !piece.contains('/') && piece != "."@
}

/// Whether a way is in normal form: it consists of names, and goes up only at
/// its beginning, and from the root not at all.
pub open spec fn is_normal(way: Seq<Seq<char>>, absolute: bool) -> bool {
    &&& forall|i: int| 0 <= i < way.len() ==> is_name(#[trigger] way[i])
    &&& forall|i: int|
        0 <= i < way.len() && #[trigger] way[i] == ".."@ ==> !absolute && (i == 0 || way[i - 1]
            == ".."@)
}

/// The pieces of a path hold no slash.
proof fn lemma_pieces(path: Seq<char>)
    ensures
        pieces(path).len() > 0,
        forall|i: int| 0 <= i < pieces(path).len() ==> !(#[trigger] pieces(path)[i]).contains('/'),
    decreases path.len(),
{
    if path.len() > 0 {
        let front = pieces(path.drop_last());
        lemma_pieces(path.drop_last());
        assert forall|i: int| 0 <= i < pieces(path).len() implies !(#[trigger] pieces(
            path,
        )[i]).contains('/') by {
            if path.last() == '/' {
                if i < front.len() {
                    assert(pieces(path)[i] == front[i]);
                }
            } else if i < front.len() - 1 {
                assert(pieces(path)[i] == front[i]);
            } else {
                let p = front.last();
                assert(pieces(path)[i] == p.push(path.last()));
                assert(!front[front.len() - 1].contains('/'));
                assert forall|j: int| 0 <= j < p.push(path.last()).len() implies p.push(
                    path.last(),
                )[j] != '/' by {
                    if j < p.len() {
                        assert(p.contains(p[j]));
                    }
                }
            }
        }
    }
}

proof fn lemma_walk(parts: Seq<Seq<char>>, absolute: bool)
    requires
        forall|i: int| 0 <= i < parts.len() ==> !(#[trigger] parts[i]).contains('/'),
    ensures
        is_normal(walk(parts, absolute), absolute),
    decreases parts.len(),
{
    if parts.len() > 0 {
        let t = parts.drop_last();
        assert forall|i: int| 0 <= i < t.len() implies !(#[trigger] t[i]).contains('/') by {
            assert(t[i] == parts[i]);
        }
        lemma_walk(t, absolute);
        let way = walk(t, absolute);
        let p = parts.last();
        assert(parts[parts.len() - 1] == p);
        let w = go(way, p, absolute);
        assert forall|i: int| 0 <= i < w.len() implies is_name(#[trigger] w[i]) by {
            if i < way.len() {
                assert(w[i] == way[i]);
            }
        }
        assert forall|i: int| 0 <= i < w.len() && #[trigger] w[i] == ".."@ implies !absolute && (i
            == 0 || w[i - 1] == ".."@) by {
            if i < way.len() {
                assert(w[i] == way[i]);
            } else if way.len() > 0 {
                // A step up is kept only behind a step up.
                assert(way[way.len() - 1] == ".."@);
            }
        }
    }
}

/// A resolved path has no empty piece and no `.`; `..` stands only at the
/// beginning of one that does not start at the root.
pub proof fn resolved_paths_are_normal(base: Seq<char>, path: Seq<char>)
    ensures
        ({
            let whole = joined_path(base, path);
            is_normal(walk(pieces(whole), is_absolute(whole)), is_absolute(whole))
        }),
{
    let whole = joined_path(base, path);
    lemma_pieces(whole);
    lemma_walk(pieces(whole), is_absolute(whole));
}

proof fn lemma_walk_normal(way: Seq<Seq<char>>, absolute: bool)
    requires
        is_normal(way, absolute),
    ensures
        walk(way, absolute) == way,
    decreases way.len(),
{
    if way.len() > 0 {
        let t = way.drop_last();
        assert(is_normal(t, absolute)) by {
            assert forall|i: int| 0 <= i < t.len() implies is_name(#[trigger] t[i]) by {
                assert(t[i] == way[i]);
            }
            assert forall|i: int| 0 <= i < t.len() && #[trigger] t[i] == ".."@ implies !absolute
                && (i == 0 || t[i - 1] == ".."@) by {
                assert(t[i] == way[i]);
            }
        }
        lemma_walk_normal(t, absolute);
        assert(is_name(way[way.len() - 1]));
        if way.last() == ".."@ {
            assert(way[way.len() - 1] == ".."@);
            if t.len() > 0 {
                assert(t.last() == way[way.len() - 2]);
            }
        }
        assert(t.push(way.last()) =~= way);
    } else {
        assert(way =~= Seq::empty());
    }
}

/// The pieces of a text behind which more characters without a slash follow.
proof fn lemma_pieces_append(a: Seq<char>, b: Seq<char>)
    requires
        !b.contains('/'),
    ensures
        pieces(a + b) == pieces(a).drop_last().push(pieces(a).last() + b),
    decreases b.len(),
{
    lemma_pieces(a);
    if b.len() == 0 {
        assert(a + b =~= a);
        assert(pieces(a).last() + b =~= pieces(a).last());
        assert(pieces(a).drop_last().push(pieces(a).last()) =~= pieces(a));
    } else {
        let c = b.drop_last();
        assert(!c.contains('/')) by {
            assert forall|j: int| 0 <= j < c.len() implies c[j] != '/' by {
                assert(b[j] == c[j]);
                assert(b.contains(b[j]));
            }
        }
        lemma_pieces_append(a, c);
        assert((a + b).drop_last() =~= a + c);
        assert(b.contains(b[b.len() - 1]));
        assert((a + b).last() == b.last());
        let front = pieces(a + c);
        assert(front.drop_last() =~= pieces(a).drop_last());
        assert((pieces(a).last() + c).push(b.last()) =~= pieces(a).last() + b);
    }
}

proof fn lemma_pieces_slash(a: Seq<char>)
    ensures
        pieces(a + "/"@) == pieces(a).push(Seq::empty()),
{
    reveal_strlit("/");
    assert((a + "/"@).drop_last() =~= a);
    assert((a + "/"@).last() == '/');
}

/// Splitting what was joined gives the parts back.
proof fn lemma_pieces_joined(front: Seq<char>, parts: Seq<Seq<char>>)
    requires
        parts.len() > 0,
        forall|i: int| 0 <= i < parts.len() ==> !(#[trigger] parts[i]).contains('/'),
        pieces(front).last() == Seq::<char>::empty(),
    ensures
        pieces(front + joined(parts, "/"@)) == pieces(front).drop_last() + parts,
    decreases parts.len(),
{
    lemma_pieces(front);
    if parts.len() == 1 {
        assert(!parts[0].contains('/'));
        lemma_pieces_append(front, parts[0]);
        assert(Seq::<char>::empty() + parts[0] =~= parts[0]);
        assert(pieces(front).drop_last().push(parts[0]) =~= pieces(front).drop_last() + parts);
    } else {
        let t = parts.drop_last();
        assert forall|i: int| 0 <= i < t.len() implies !(#[trigger] t[i]).contains('/') by {
            assert(t[i] == parts[i]);
        }
        lemma_pieces_joined(front, t);
        let x = front + joined(t, "/"@);
        lemma_pieces_slash(x);
        let y = x + "/"@;
        assert(!parts[parts.len() - 1].contains('/'));
        lemma_pieces_append(y, parts.last());
        assert(front + joined(parts, "/"@) =~= y + parts.last());
        assert(pieces(y).drop_last() =~= pieces(x));
        assert(Seq::<char>::empty() + parts.last() =~= parts.last());
        assert(pieces(x).push(parts.last()) =~= pieces(front).drop_last() + parts);
    }
}

/// A path in normal form stays as it is: normalizing twice is normalizing
/// once.
pub proof fn normalizing_is_idempotent(path: Seq<char>)
    ensures
        normal_path(normal_path(path)) == normal_path(path),
{
    let absolute = is_absolute(path);
    let way = walk(pieces(path), absolute);
    let n = normal_path(path);
    lemma_pieces(path);
    lemma_walk(pieces(path), absolute);
    reveal_strlit("/");
    reveal_strlit("");
    let lead = if absolute {
        "/"@
    } else {
        ""@
    };
    assert forall|i: int| 0 <= i < way.len() implies !(#[trigger] way[i]).contains('/') by {
        assert(is_name(way[i]));
    }
    lemma_walk_normal(way, absolute);
    if absolute {
        assert(pieces(lead) =~= seq![Seq::<char>::empty(), Seq::<char>::empty()]) by {
            assert(""@ + "/"@ =~= "/"@);
            lemma_pieces_slash(""@);
            assert(pieces(""@) =~= seq![Seq::<char>::empty()]);
        }
        assert(n[0] == '/');
    } else {
        assert(pieces(lead) =~= seq![Seq::<char>::empty()]);
    }
    if way.len() == 0 {
        assert(joined(way, "/"@) =~= Seq::empty());
        assert(n =~= lead);
        if absolute {
            let p = pieces(lead);
            assert(p.drop_last() =~= seq![Seq::<char>::empty()]);
            assert(p.drop_last().drop_last() =~= Seq::empty());
            assert(walk(p.drop_last().drop_last(), true) == Seq::<Seq<char>>::empty());
            assert(walk(p.drop_last(), true) == Seq::<Seq<char>>::empty());
            assert(walk(p, true) == Seq::<Seq<char>>::empty());
        } else {
            let p = pieces(lead);
            assert(p.drop_last() =~= Seq::empty());
            assert(walk(p, false) == Seq::<Seq<char>>::empty());
        }
    } else {
        lemma_pieces_joined(lead, way);
        assert(n == lead + joined(way, "/"@));
        lemma_joined_starts(way);
        if absolute {
            let p = pieces(n);
            assert(pieces(lead).drop_last() =~= seq![Seq::<char>::empty()]);
            assert(p =~= seq![Seq::<char>::empty()] + way);
            lemma_walk_behind_nothing(way, true);
        } else {
            assert(pieces(lead).drop_last() =~= Seq::empty());
            assert(pieces(n) =~= way);
            assert(n =~= joined(way, "/"@));
            assert(way[0].contains(way[0][0]));
            assert(n[0] == way[0][0]);
        }
    }
}

/// What is joined begins with the first part.
proof fn lemma_joined_starts(parts: Seq<Seq<char>>)
    requires
        parts.len() > 0,
        forall|i: int| 0 <= i < parts.len() ==> is_name(#[trigger] parts[i]),
    ensures
        joined(parts, "/"@).len() > 0,
        joined(parts, "/"@)[0] == parts[0][0],
    decreases parts.len(),
{
    assert(is_name(parts[0]));
    if parts.len() > 1 {
        let t = parts.drop_last();
        assert forall|i: int| 0 <= i < t.len() implies is_name(#[trigger] t[i]) by {
            assert(t[i] == parts[i]);
        }
        lemma_joined_starts(t);
    }
}

/// An empty piece in front leads nowhere.
proof fn lemma_walk_behind_nothing(parts: Seq<Seq<char>>, absolute: bool)
    ensures
        walk(seq![Seq::<char>::empty()] + parts, absolute) == walk(parts, absolute),
    decreases parts.len(),
{
    let whole = seq![Seq::<char>::empty()] + parts;
    if parts.len() == 0 {
        assert(whole =~= seq![Seq::<char>::empty()]);
        assert(whole.drop_last() =~= Seq::empty());
        assert(walk(whole.drop_last(), absolute) == Seq::<Seq<char>>::empty());
    } else {
        lemma_walk_behind_nothing(parts.drop_last(), absolute);
        assert(whole.drop_last() =~= seq![Seq::<char>::empty()] + parts.drop_last());
        assert(whole.last() == parts.last());
    }
}

// ---------------------------------------------------------------------
// The caller's directory
// ---------------------------------------------------------------------

/// Where the search for the caller's directory stands.
pub enum PlaceView {
    /// This is to be done next.
    Ask(ActionView),
    /// The directory, and how many events it took to find it.
    At { dir: Seq<char>, used: int },
}

/// Where the search for the caller's directory stands.
#[derive(Debug)]
pub enum Place {
    Ask(Action),
    At { dir: String, used: usize },
}

impl View for Place {
    type V = PlaceView;

    open spec fn view(&self) -> PlaceView {
        match *self {
            Place::Ask(a) => PlaceView::Ask(a@),
            Place::At { dir, used } => PlaceView::At { dir: dir@, used: used as int },
        }
    }
}

/// The search for an agent's directory: the one in its row, else the server's.
pub open spec fn place_of(agent_id: Seq<char>, h: Seq<EventView>) -> PlaceView {
    if h.len() == 0 {
        PlaceView::Ask(ActionView::GetAgent { agent_id })
    } else {
        match h[0] {
            EventView::Agent(Some(row)) => if row.working_directory.len() > 0 {
                PlaceView::At { dir: row.working_directory, used: 1 }
            } else {
                server_place(h)
            },
            _ => server_place(h),
        }
    }
}

/// The server's directory.
pub open spec fn server_place(h: Seq<EventView>) -> PlaceView {
    if h.len() == 1 {
        PlaceView::Ask(ActionView::CurrentDir)
    } else {
        PlaceView::At {
            dir: match h[1] {
                EventView::Text(Some(dir)) => dir,
                _ => ""@,
            },
            used: 2,
        }
    }
}

/// The search for an agent's directory.
pub fn working_directory_for(agent_id: &str, history: &Vec<Event>) -> (r: Place)
    ensures
        r@ == place_of(agent_id@, events(history@)),
        r matches Place::At { used, .. } ==> 1 <= used <= 2 && used <= history@.len(),
{
    if history.len() == 0 {
        return Place::Ask(Action::GetAgent { agent_id: own(agent_id) });
    }
    match &history[0] {
        Event::Agent(Some(row)) => {
            if !row.working_directory.as_str().is_empty() {
                return Place::At { dir: own(row.working_directory.as_str()), used: 1 };
            }
        },
        _ => {},
    }
    if history.len() == 1 {
        return Place::Ask(Action::CurrentDir);
    }
    match &history[1] {
        Event::Text(Some(dir)) => Place::At { dir: own(dir.as_str()), used: 2 },
        _ => Place::At { dir: own(""), used: 2 },
    }
}

/// What a caller who may not use files reads on a check.
pub const CHECK_DENIED: &'static str =
    "Unauthorized: agent token with files.use capability required to check file status";

/// What a caller who may not use files reads on an update.
pub const UPDATE_DENIED: &'static str =
    "Unauthorized: agent token with files.use capability required to update file status";

/// Whether the caller is an agent that may use files.
pub open spec fn file_capable(p: Option<PrincipalView>) -> bool {
    match p {
        Some(x) => x.kind == PrincipalKind::AgentBearer && caller_has(p, Capability::FilesUse),
        None => false,
    }
}

/// Whether the caller is an agent that may use files.
pub fn is_file_capable_agent(principal: Option<&Principal>) -> (r: bool)
    ensures
        r == file_capable(caller_view(principal)),
{
    match principal {
        Some(p) => p.kind == PrincipalKind::AgentBearer && p.has_capability(Capability::FilesUse),
        None => false,
    }
}

/// The caller's agent id, or nothing.
pub open spec fn caller_name(c: CallView) -> Seq<char> {
    text_or(caller_agent(c.principal), ""@)
}

/// The caller's agent id, or nothing.
pub fn name_of<'a>(call: &'a Call) -> (r: &'a str)
    ensures
        r@ == caller_name(call@),
{
    match agent_of(call.caller()) {
        Some(id) => id,
        None => "",
    }
}

/// The claim of an event; none where it has none.
pub open spec fn claim_in(e: EventView) -> Option<ClaimView> {
    match e {
        EventView::Holder(c) => c,
        _ => None,
    }
}

/// A file as a caller named it and as it was resolved.
pub open spec fn file_label(path: Seq<char>, resolved: Seq<char>) -> Seq<char> {
    "File '"@ + path + "' (resolved: "@ + resolved + ")"@
}

fn label(path: &str, resolved: &str) -> (r: String)
    ensures
        r@ == file_label(path@, resolved@),
{
    cat5("File '", path, "' (resolved: ", resolved, ")")
}

// ---------------------------------------------------------------------
// check_file_status
// ---------------------------------------------------------------------

/// What `check_file_status` says of a file.
pub open spec fn file_status_view(
    path: Seq<char>,
    resolved: Seq<char>,
    caller: Seq<char>,
    claim: Option<ClaimView>,
) -> ActionView {
    match claim {
        Some(c) => done_view(
            JsonView::Object(
                map![
                "filepath"@ => JsonView::Text(resolved),
                "original_path"@ => JsonView::Text(path),
                "in_use"@ => JsonView::Bool(true),
                "agent_id"@ => JsonView::Text(c.agent_id),
                "status"@ => JsonView::Text(c.status),
                "timestamp"@ => JsonView::Text(c.timestamp)
            ],
            ),
            if c.agent_id == caller {
                file_label(path, resolved) + " is currently being used by YOU ("@ + caller
                    + ") since "@ + c.timestamp + ". Status: "@ + c.status
            } else {
                file_label(path, resolved) + " is currently being used by agent '"@ + c.agent_id
                    + "' since "@ + c.timestamp + ". Status: "@ + c.status
            },
        ),
        None => done_view(
            JsonView::Object(
                map![
                "filepath"@ => JsonView::Text(resolved),
                "original_path"@ => JsonView::Text(path),
                "in_use"@ => JsonView::Bool(false)
            ],
            ),
            file_label(path, resolved)
                + " is not currently being used by any agent according to the file map."@,
        ),
    }
}

/// The dialogue of `check_file_status`.
pub open spec fn check_file_status_next(c: CallView, h: Seq<EventView>) -> ActionView {
    match nonempty_field(c.arguments, "filepath"@) {
        None => invalid_view(Some("filepath"@), "filepath is required and must be a string."@),
        Some(path) => match place_of(caller_name(c), h) {
            PlaceView::Ask(a) => a,
            PlaceView::At { dir, used } => {
                let resolved = resolved_path(dir, path);
                if h.len() == used {
                    ActionView::FileHolder { path: resolved }
                } else {
                    file_status_view(path, resolved, caller_name(c), claim_in(h[used]))
                }
            },
        },
    }
}

/// `check_file_status`: who uses a file.
pub struct CheckFileStatusTool;

impl CheckFileStatusTool {
    fn status(path: &str, resolved: &str, caller: &str, claim: Option<&Claim>) -> (r: Action)
        ensures
            r@ == file_status_view(
                path@,
                resolved@,
                caller@,
                match claim {
                    Some(c) => Some(c@),
                    None => None,
                },
            ),
    {
        let name: String = label(path, resolved);
        let mut f: Fields = Fields::new();
        f.put("filepath", jtext(resolved));
        f.put("original_path", jtext(path));
        match claim {
            Some(c) => {
                f.put("in_use", Json::Bool(true));
                f.put("agent_id", jtext(c.agent_id.as_str()));
                f.put("status", jtext(c.status.as_str()));
                f.put("timestamp", jtext(c.timestamp.as_str()));
                let message: String = if same(c.agent_id.as_str(), caller) {
                    cat7(
                        name.as_str(),
                        " is currently being used by YOU (",
                        caller,
                        ") since ",
                        c.timestamp.as_str(),
                        ". Status: ",
                        c.status.as_str(),
                    )
                } else {
                    cat7(
                        name.as_str(),
                        " is currently being used by agent '",
                        c.agent_id.as_str(),
                        "' since ",
                        c.timestamp.as_str(),
                        ". Status: ",
                        c.status.as_str(),
                    )
                };
                done(f.done(), message)
            },
            None => {
                f.put("in_use", Json::Bool(false));
                done(
                    f.done(),
                    cat2(
                        name.as_str(),
                        " is not currently being used by any agent according to the file map.",
                    ),
                )
            },
        }
    }

    /// What to do after `history`.
    pub fn next(call: &Call, history: &Vec<Event>) -> (r: Action)
        ensures
            r@ == check_file_status_next(call@, events(history@)),
    {
        let path: &str = match nonempty(&call.arguments, "filepath") {
            Some(p) => p,
            None => {
                return invalid("filepath", "filepath is required and must be a string.");
            },
        };
        let caller: &str = name_of(call);
        match working_directory_for(caller, history) {
            Place::Ask(a) => a,
            Place::At { dir, used } => {
                let resolved: String = resolve_abs_filepath(dir.as_str(), path);
                if history.len() == used {
                    return Action::FileHolder { path: resolved };
                }
                match &history[used] {
                    Event::Holder(Some(c)) => CheckFileStatusTool::status(
                        path,
                        resolved.as_str(),
                        caller,
                        Some(c),
                    ),
                    _ => CheckFileStatusTool::status(path, resolved.as_str(), caller, None),
                }
            },
        }
    }
}

// ---------------------------------------------------------------------
// update_file_status
// ---------------------------------------------------------------------

/// Whether a status is one that a file can be given.
pub open spec fn is_file_status(s: Seq<char>) -> bool {
    s == "editing"@ || s == "reading"@ || s == "reviewing"@ || s == "released"@
}

fn known_status(s: &str) -> (r: bool)
    ensures
        r == is_file_status(s@),
{
    same(s, "editing") || same(s, "reading") || same(s, "reviewing") || same(s, "released")
}

/// The refusal for a file that another agent holds.
pub open spec fn held_view(path: Seq<char>, resolved: Seq<char>, c: ClaimView) -> ActionView {
    conflict_view(
        file_label(path, resolved) + " is already claimed by agent '"@ + c.agent_id + "' since "@
            + c.timestamp + " (status: "@ + c.status
            + "). This is an advisory lock with no auto-expiry -- it frees only when '"@
            + c.agent_id
            + "' releases it. Use check_file_status for current holder/timestamp, coordinate with that agent, or work on a different file."@,
    )
}

/// The part of `update_file_status` that follows the look at the holder, which
/// event `at - 1` gave: a claim or a release, and what came of it.
pub open spec fn claim_or_release(
    c: CallView,
    path: Seq<char>,
    resolved: Seq<char>,
    status: Seq<char>,
    h: Seq<EventView>,
    at: int,
) -> ActionView {
    if status == "released"@ {
        if h.len() == at {
            ActionView::ReleaseFile { path: resolved }
        } else if h[at] == EventView::Changed(true) {
            done_view(
                JsonView::Object(
                    map![
                    "filepath"@ => JsonView::Text(resolved),
                    "original_path"@ => JsonView::Text(path),
                    "status"@ => JsonView::Text("released"@)
                ],
                ),
                file_label(path, resolved) + " has been released."@,
            )
        } else {
            done_view(
                JsonView::Object(
                    map![
                    "filepath"@ => JsonView::Text(resolved),
                    "original_path"@ => JsonView::Text(path),
                    "in_use"@ => JsonView::Bool(false)
                ],
                ),
                file_label(path, resolved)
                    + " was not found in the active file map (already considered released or never tracked)."@,
            )
        }
    } else if h.len() == at {
        ActionView::ClaimFile {
            path: resolved,
            agent_id: caller_name(c),
            status,
            timestamp: c.now,
        }
    } else {
        done_view(
            JsonView::Object(
                map![
                "filepath"@ => JsonView::Text(resolved),
                "original_path"@ => JsonView::Text(path),
                "agent_id"@ => JsonView::Text(caller_name(c)),
                "status"@ => JsonView::Text(status)
            ],
            ),
            file_label(path, resolved) + " is now registered to agent '"@ + caller_name(c)
                + "' with status '"@ + status + "'."@,
        )
    }
}

/// The dialogue of `update_file_status`: find the file, see who holds it, and
/// claim or release it unless another agent does.
pub open spec fn update_file_status_next(c: CallView, h: Seq<EventView>) -> ActionView {
    match (nonempty_field(c.arguments, "filepath"@), nonempty_field(c.arguments, "status"@)) {
        (None, _) => invalid_view(
            Some("filepath"@),
            "filepath is required and must be a string."@,
        ),
        (_, None) => invalid_view(Some("status"@), "status is required and must be a string."@),
        (Some(path), Some(status)) => if !is_file_status(status) {
            invalid_view(
                Some("status"@),
                "Invalid status: '"@ + status
                    + "'. Must be one of: editing, reading, reviewing, released"@,
            )
        } else {
            match place_of(caller_name(c), h) {
                PlaceView::Ask(a) => a,
                PlaceView::At { dir, used } => {
                    let resolved = resolved_path(dir, path);
                    if h.len() == used {
                        ActionView::FileHolder { path: resolved }
                    } else {
                        match claim_in(h[used]) {
                            Some(claim) => if claim.agent_id != caller_name(c) {
                                held_view(path, resolved, claim)
                            } else {
                                claim_or_release(c, path, resolved, status, h, used + 1)
                            },
                            None => claim_or_release(c, path, resolved, status, h, used + 1),
                        }
                    }
                },
            }
        },
    }
}

/// A file that another agent holds is neither claimed nor released: the file
/// map stays as it is.
pub proof fn foreign_claims_stand(c: CallView, h: Seq<EventView>)
    requires
        update_file_status_next(c, h) is ClaimFile || update_file_status_next(c, h) is ReleaseFile,
    ensures
        match place_of(caller_name(c), h) {
            PlaceView::At { used, .. } => h.len() == used + 1 && match claim_in(h[used]) {
                Some(claim) => claim.agent_id == caller_name(c),
                None => true,
            },
            PlaceView::Ask(_) => false,
        },
{
}

/// What a claim enters is what a check by the same agent then reports: the
/// file in use, by the agent itself, with the status claimed.
pub proof fn a_claim_is_what_a_check_reports(
    path: Seq<char>,
    resolved: Seq<char>,
    caller: Seq<char>,
    claim: ClaimView,
)
    requires
        claim.agent_id == caller,
    ensures
        match file_status_view(path, resolved, caller, Some(claim)) {
            ActionView::Finish(ResultView::Success { data: Some(data), message }) => {
                &&& crate::json::bool_field(data, "in_use"@) == Some(true)
                &&& crate::json::text_field(data, "agent_id"@) == Some(caller)
                &&& crate::json::text_field(data, "status"@) == Some(claim.status)
            },
            _ => false,
        },
{
    reveal_strlit("filepath");
    reveal_strlit("original_path");
    reveal_strlit("in_use");
    reveal_strlit("agent_id");
    reveal_strlit("status");
    reveal_strlit("timestamp");
    assert("in_use"@[0] == 'i' && "agent_id"@[0] == 'a' && "status"@[0] == 's' && "timestamp"@[0]
        == 't');
}

/// `update_file_status`: claims or releases a file.
pub struct UpdateFileStatusTool;

impl UpdateFileStatusTool {
    fn held(path: &str, resolved: &str, c: &Claim) -> (r: Action)
        ensures
            r@ == held_view(path@, resolved@, c@),
    {
        let name: String = label(path, resolved);
        let start: String = cat7(
            name.as_str(),
            " is already claimed by agent '",
            c.agent_id.as_str(),
            "' since ",
            c.timestamp.as_str(),
            " (status: ",
            c.status.as_str(),
        );
        let middle: String = cat3(
            start.as_str(),
            "). This is an advisory lock with no auto-expiry -- it frees only when '",
            c.agent_id.as_str(),
        );
        conflict(
            cat2(
                middle.as_str(),
                "' releases it. Use check_file_status for current holder/timestamp, coordinate with that agent, or work on a different file.",
            ),
        )
    }

    fn perform(
        call: &Call,
        path: &str,
        resolved: &str,
        status: &str,
        history: &Vec<Event>,
        at: usize,
    ) -> (r: Action)
        requires
            at <= history@.len(),
        ensures
            r@ == claim_or_release(
                call@,
                path@,
                resolved@,
                status@,
                events(history@),
                at as int,
            ),
    {
        let name: String = label(path, resolved);
        let mut f: Fields = Fields::new();
        f.put("filepath", jtext(resolved));
        f.put("original_path", jtext(path));
        if same(status, "released") {
            if history.len() == at {
                return Action::ReleaseFile { path: own(resolved) };
            }
            let freed: bool = match &history[at] {
                Event::Changed(b) => *b,
                _ => false,
            };
            if freed {
                f.put("status", jtext("released"));
                done(f.done(), cat2(name.as_str(), " has been released."))
            } else {
                f.put("in_use", Json::Bool(false));
                done(
                    f.done(),
                    cat2(
                        name.as_str(),
                        " was not found in the active file map (already considered released or never tracked).",
                    ),
                )
            }
        } else {
            let caller: &str = name_of(call);
            if history.len() == at {
                return Action::ClaimFile {
                    path: own(resolved),
                    agent_id: own(caller),
                    status: own(status),
                    timestamp: own(call.now.as_str()),
                };
            }
            f.put("agent_id", jtext(caller));
            f.put("status", jtext(status));
            let start: String = cat5(
                name.as_str(),
                " is now registered to agent '",
                caller,
                "' with status '",
                status,
            );
            done(f.done(), cat2(start.as_str(), "'."))
        }
    }

    /// What to do after `history`.
    pub fn next(call: &Call, history: &Vec<Event>) -> (r: Action)
        ensures
            r@ == update_file_status_next(call@, events(history@)),
    {
        let path: &str = match nonempty(&call.arguments, "filepath") {
            Some(p) => p,
            None => {
                return invalid("filepath", "filepath is required and must be a string.");
            },
        };
        let status: &str = match nonempty(&call.arguments, "status") {
            Some(s) => s,
            None => {
                return invalid("status", "status is required and must be a string.");
            },
        };
        if !known_status(status) {
            let m: String = cat3(
                "Invalid status: '",
                status,
                "'. Must be one of: editing, reading, reviewing, released",
            );
            return invalid("status", m.as_str());
        }
        let caller: &str = name_of(call);
        match working_directory_for(caller, history) {
            Place::Ask(a) => a,
            Place::At { dir, used } => {
                let resolved: String = resolve_abs_filepath(dir.as_str(), path);
                if history.len() == used {
                    return Action::FileHolder { path: resolved };
                }
                match &history[used] {
                    Event::Holder(Some(c)) => {
                        if !same(c.agent_id.as_str(), caller) {
                            return UpdateFileStatusTool::held(path, resolved.as_str(), c);
                        }
                    },
                    _ => {},
                }
                UpdateFileStatusTool::perform(
                    call,
                    path,
                    resolved.as_str(),
                    status,
                    history,
                    used + 1,
                )
            },
        }
    }
}

} // verus!

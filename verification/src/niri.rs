//! A live mirror of the compositor's state: its workspaces, sorted by
//! index, and the focused window's title.
//!
//! The compositor speaks newline-delimited JSON over a local socket; the
//! sockets themselves live outside the engine, which receives the drained
//! lines, folds each event into the mirror, and reports whether anything
//! observable changed.
use vstd::prelude::*;

verus! {

use vstd::string::*;

/// One workspace as the compositor reports it.
#[derive(Clone, Copy, PartialEq, Eq, Structural, Debug)]
pub struct Workspace {
    pub id: u64,
    pub idx: u8,
    pub is_focused: bool,
}

/// One window as a window-list snapshot reports it.
pub struct WindowInfo {
    pub id: u64,
    pub title: String,
    pub is_focused: bool,
}

/// A compositor event, reduced to the plain values the mirror folds in.
/// Anything unrecognized or malformed becomes `Unknown`, which changes
/// nothing: a strange line is never fatal.
pub enum NiriEvent {
    WorkspaceActivated { id: u64, focused: bool },
    WorkspacesChanged(Vec<Workspace>),
    WindowsChanged(Vec<WindowInfo>),
    WindowFocusChanged(Option<u64>),
    WindowOpenedOrChanged { id: u64, title: String },
    WindowClosed { id: u64 },
    Unknown,
}

/// Declares serde_json's `Value` so parsed JSON can pass through
/// signatures; the value itself stays opaque and is only read through the
/// accessors below.
#[verifier::external_type_specification]
#[verifier::external_body]
pub struct ExValue(serde_json::Value);

/// Relies on serde_json's `from_str`: parses one line into a JSON value,
/// `None` when the line is not valid JSON.
#[verifier::external_body]
fn json_parse(line: &str) -> (r: Option<serde_json::Value>) {
    serde_json::from_str::<serde_json::Value>(line).ok()
}

/// Relies on `Value::get` with a string key: the value under this key of
/// a JSON object, `None` elsewhere.
#[verifier::external_body]
fn json_get<'a>(v: &'a serde_json::Value, key: &str) -> (r: Option<&'a serde_json::Value>) {
    v.get(key)
}

/// Relies on `Value::get` with an index: the element of a JSON array,
/// `None` elsewhere.
#[verifier::external_body]
fn json_get_index<'a>(v: &'a serde_json::Value, i: usize) -> (r: Option<&'a serde_json::Value>) {
    v.get(i)
}

/// Relies on `Value::as_u64`: the value of a non-negative JSON integer
/// that fits in 64 bits.
#[verifier::external_body]
fn json_as_u64(v: &serde_json::Value) -> (r: Option<u64>) {
    v.as_u64()
}

/// Relies on `Value::as_bool`: the value of a JSON boolean.
#[verifier::external_body]
fn json_as_bool(v: &serde_json::Value) -> (r: Option<bool>) {
    v.as_bool()
}

/// Relies on `Value::as_str`: the contents of a JSON string, copied out.
#[verifier::external_body]
fn json_as_str(v: &serde_json::Value) -> (r: Option<String>) {
    match v.as_str() {
        Some(s) => Some(s.to_owned()),
        None => None,
    }
}

/// Relies on `Value::as_array`: how many elements a JSON array has.
#[verifier::external_body]
fn json_array_len(v: &serde_json::Value) -> (r: Option<usize>) {
    match v.as_array() {
        Some(a) => Some(a.len()),
        None => None,
    }
}

/// Reads one workspace out of a JSON value: its id and index are
/// required, focus defaults to false.
pub fn parse_workspace(w: &serde_json::Value) -> (r: Option<Workspace>) {
    let id = match json_get(w, "id") {
        Some(v) => match json_as_u64(v) {
            Some(n) => n,
            None => return None,
        },
        None => return None,
    };
    let idx = match json_get(w, "idx") {
        Some(v) => match json_as_u64(v) {
            Some(n) => #[verifier::truncate] (n as u8),
            None => return None,
        },
        None => return None,
    };
    let is_focused = match json_get(w, "is_focused") {
        Some(v) => match json_as_bool(v) {
            Some(b) => b,
            None => false,
        },
        None => false,
    };
    Some(Workspace { id, idx, is_focused })
}

/// Reads the id and, where required, the boolean under the given keys of
/// an event body.
fn parse_u64_field(inner: &serde_json::Value, key: &str) -> (r: Option<u64>) {
    match json_get(inner, key) {
        Some(v) => json_as_u64(v),
        None => None,
    }
}

/// Classifies and decodes one line of the event stream. Empty lines,
/// lines that are not JSON, and event kinds this mirror does not track
/// all come back as `Unknown`.
pub fn parse_event_line(line: &str) -> (r: NiriEvent) {
    let v = match json_parse(line) {
        Some(v) => v,
        None => return NiriEvent::Unknown,
    };
    if let Some(inner) = json_get(&v, "WorkspaceActivated") {
        let id = match parse_u64_field(inner, "id") {
            Some(n) => n,
            None => return NiriEvent::Unknown,
        };
        let focused = match json_get(inner, "focused") {
            Some(f) => match json_as_bool(f) {
                Some(b) => b,
                None => return NiriEvent::Unknown,
            },
            None => return NiriEvent::Unknown,
        };
        return NiriEvent::WorkspaceActivated { id, focused };
    }
    if let Some(inner) = json_get(&v, "WorkspacesChanged") {
        let arr = match json_get(inner, "workspaces") {
            Some(a) => a,
            None => return NiriEvent::Unknown,
        };
        let n = match json_array_len(arr) {
            Some(n) => n,
            None => return NiriEvent::Unknown,
        };
        let mut list: Vec<Workspace> = Vec::new();
        let mut i: usize = 0;
        while i < n
            decreases n - i,
        {
            if let Some(elem) = json_get_index(arr, i) {
                if let Some(ws) = parse_workspace(elem) {
                    list.push(ws);
                }
            }
            i += 1;
        }
        return NiriEvent::WorkspacesChanged(list);
    }
    if let Some(inner) = json_get(&v, "WindowsChanged") {
        let arr = match json_get(inner, "windows") {
            Some(a) => a,
            None => return NiriEvent::Unknown,
        };
        let n = match json_array_len(arr) {
            Some(n) => n,
            None => return NiriEvent::Unknown,
        };
        let mut list: Vec<WindowInfo> = Vec::new();
        let mut i: usize = 0;
        while i < n
            decreases n - i,
        {
            if let Some(w) = json_get_index(arr, i) {
                let id = parse_u64_field(w, "id");
                let title = match json_get(w, "title") {
                    Some(t) => json_as_str(t),
                    None => None,
                };
                if let (Some(id), Some(title)) = (id, title) {
                    let is_focused = match json_get(w, "is_focused") {
                        Some(f) => match json_as_bool(f) {
                            Some(b) => b,
                            None => false,
                        },
                        None => false,
                    };
                    list.push(WindowInfo { id, title, is_focused });
                }
            }
            i += 1;
        }
        return NiriEvent::WindowsChanged(list);
    }
    if let Some(inner) = json_get(&v, "WindowFocusChanged") {
        return NiriEvent::WindowFocusChanged(parse_u64_field(inner, "id"));
    }
    if let Some(inner) = json_get(&v, "WindowOpenedOrChanged") {
        let w = match json_get(inner, "window") {
            Some(w) => w,
            None => return NiriEvent::Unknown,
        };
        let id = match parse_u64_field(w, "id") {
            Some(n) => n,
            None => return NiriEvent::Unknown,
        };
        let title = match json_get(w, "title") {
            Some(t) => match json_as_str(t) {
                Some(s) => s,
                None => return NiriEvent::Unknown,
            },
            None => return NiriEvent::Unknown,
        };
        return NiriEvent::WindowOpenedOrChanged { id, title };
    }
    if let Some(inner) = json_get(&v, "WindowClosed") {
        let id = match parse_u64_field(inner, "id") {
            Some(n) => n,
            None => return NiriEvent::Unknown,
        };
        return NiriEvent::WindowClosed { id };
    }
    NiriEvent::Unknown
}

/// Inserts a workspace into a run already sorted by `idx`, after any
/// entries with the same index: the stable insertion step.
pub open spec fn spec_insert_ws(s: Seq<Workspace>, w: Workspace) -> Seq<Workspace>
    decreases s.len(),
{
    if s.len() == 0 {
        seq![w]
    } else if w.idx < s.last().idx {
        spec_insert_ws(s.drop_last(), w).push(s.last())
    } else {
        s.push(w)
    }
}

/// The workspace list sorted by `idx`, stably: the exact order the mirror
/// keeps its workspaces in.
pub open spec fn spec_sort_ws(s: Seq<Workspace>) -> Seq<Workspace>
    decreases s.len(),
{
    if s.len() == 0 {
        Seq::empty()
    } else {
        spec_insert_ws(spec_sort_ws(s.drop_last()), s.last())
    }
}

proof fn lemma_insert_ws_at(s: Seq<Workspace>, w: Workspace, pos: int)
    requires
        0 <= pos <= s.len(),
        forall|k: int| pos <= k < s.len() ==> s[k].idx > w.idx,
        pos > 0 ==> s[pos - 1].idx <= w.idx,
    ensures
        spec_insert_ws(s, w) =~= s.take(pos).push(w) + s.skip(pos),
    decreases s.len() - pos,
{
    if pos == s.len() {
        if s.len() == 0 {
            assert(spec_insert_ws(s, w) =~= s.take(pos).push(w) + s.skip(pos));
        } else {
            assert(!(w.idx < s.last().idx));
            assert(s.push(w) =~= s.take(pos).push(w) + s.skip(pos));
        }
    } else {
        assert(s[s.len() - 1].idx > w.idx);
        assert(w.idx < s.last().idx);
        lemma_insert_ws_at(s.drop_last(), w, pos);
        assert(s.drop_last().take(pos) =~= s.take(pos));
        assert((s.take(pos).push(w) + s.drop_last().skip(pos)).push(s.last())
            =~= s.take(pos).push(w) + s.skip(pos));
    }
}

/// Sorts workspaces by index, stably, exactly as the sorted-order spec
/// says.
pub fn sort_workspaces(v: Vec<Workspace>) -> (r: Vec<Workspace>)
    ensures
        r@ == spec_sort_ws(v@),
{
    let mut out: Vec<Workspace> = Vec::new();
    let mut i: usize = 0;
    while i < v.len()
        invariant
            i <= v@.len(),
            out@ == spec_sort_ws(v@.take(i as int)),
        decreases v@.len() - i,
    {
        let w = v[i];
        let mut pos = out.len();
        while pos > 0 && out[pos - 1].idx > w.idx
            invariant
                pos <= out@.len(),
                forall|k: int| pos <= k < out@.len() ==> out@[k].idx > w.idx,
            decreases pos,
        {
            pos -= 1;
        }
        proof {
            lemma_insert_ws_at(out@, w, pos as int);
        }
        out.insert(pos, w);
        proof {
            assert(v@.take(i + 1).drop_last() =~= v@.take(i as int));
            assert(v@.take(i + 1).last() == v@[i as int]);
        }
        i += 1;
    }
    proof {
        assert(v@.take(v@.len() as int) =~= v@);
    }
    out
}

/// Two workspace lists are the same, element for element.
pub fn workspaces_eq(a: &[Workspace], b: &[Workspace]) -> (r: bool)
    ensures
        r == (a@ =~= b@),
{
    if a.len() != b.len() {
        return false;
    }
    let mut i: usize = 0;
    while i < a.len()
        invariant
            i <= a@.len(),
            a@.len() == b@.len(),
            forall|k: int| 0 <= k < i ==> a@[k] == b@[k],
        decreases a@.len() - i,
    {
        let x = a[i];
        let y = b[i];
        if x.id != y.id || x.idx != y.idx || x.is_focused != y.is_focused {
            return false;
        }
        i += 1;
    }
    true
}

/// The live mirror itself. `workspaces` and `focused_window_title` are
/// the observable fields the row's layers are rebuilt from; the window
/// table and focused-window id only serve to recompute the title.
pub struct NiriState {
    pub workspaces: Vec<Workspace>,
    pub focused_window_title: Option<String>,
    pub windows: Vec<(u64, String)>,
    pub focused_window_id: Option<u64>,
}

/// An optional title, read as its character sequence.
pub open spec fn spec_opt_view(o: Option<String>) -> Option<Seq<char>> {
    match o {
        Some(s) => Some(s@),
        None => None,
    }
}

/// The window table, read as id and title-character pairs.
pub open spec fn spec_wins_view(s: Seq<(u64, String)>) -> Seq<(u64, Seq<char>)> {
    s.map_values(|p: (u64, String)| (p.0, p.1@))
}

/// The title stored under an id: the first pair that carries it.
pub open spec fn spec_win_lookup(wv: Seq<(u64, Seq<char>)>, id: u64) -> Option<Seq<char>>
    decreases wv.len(),
{
    if wv.len() == 0 {
        None
    } else if wv[0].0 == id {
        Some(wv[0].1)
    } else {
        spec_win_lookup(wv.skip(1), id)
    }
}

/// The window table with every pair carrying this id taken out.
pub open spec fn spec_win_remove(wv: Seq<(u64, Seq<char>)>, id: u64) -> Seq<(u64, Seq<char>)>
    decreases wv.len(),
{
    if wv.len() == 0 {
        Seq::empty()
    } else {
        let rest = spec_win_remove(wv.drop_last(), id);
        if wv.last().0 == id {
            rest
        } else {
            rest.push(wv.last())
        }
    }
}

/// The window table with this id now carrying this title and nothing
/// else: any old pair is taken out and the new one goes at the end.
pub open spec fn spec_win_upsert(wv: Seq<(u64, Seq<char>)>, id: u64, title: Seq<char>) -> Seq<(u64, Seq<char>)> {
    spec_win_remove(wv, id).push((id, title))
}

/// What folding a window-list snapshot yields: the rebuilt window table,
/// the focused window's id, and its title; a later entry wins on both.
pub open spec fn spec_fold_wins(list: Seq<WindowInfo>) -> (Seq<(u64, Seq<char>)>, Option<u64>, Option<Seq<char>>)
    decreases list.len(),
{
    if list.len() == 0 {
        (Seq::empty(), None::<u64>, None::<Seq<char>>)
    } else {
        let (m, fid, ft) = spec_fold_wins(list.drop_last());
        let w = list.last();
        (
            spec_win_upsert(m, w.id, w.title@),
            if w.is_focused { Some(w.id) } else { fid },
            if w.is_focused { Some(w.title@) } else { ft },
        )
    }
}

/// How one event folds into the mirror: the exact new state and whether
/// anything observable, the workspace list or the focused title, changed.
pub open spec fn spec_apply_rel(pre: NiriState, ev: NiriEvent, post: NiriState, changed: bool) -> bool {
    let quiet = !changed ==> post.workspaces@ =~= pre.workspaces@
        && spec_opt_view(post.focused_window_title) == spec_opt_view(pre.focused_window_title);
    quiet && match ev {
        NiriEvent::Unknown => post == pre && !changed,
        NiriEvent::WorkspaceActivated { id, focused } => {
            &&& post.workspaces@ =~= pre.workspaces@.map_values(
                |w: Workspace| Workspace { id: w.id, idx: w.idx, is_focused: focused && w.id == id })
            &&& post.windows == pre.windows
            &&& post.focused_window_id == pre.focused_window_id
            &&& post.focused_window_title == pre.focused_window_title
            &&& changed == (exists|k: int| 0 <= k < pre.workspaces@.len()
                && (#[trigger] pre.workspaces@[k]).is_focused
                    != (focused && pre.workspaces@[k].id == id))
        },
        NiriEvent::WorkspacesChanged(list) => {
            &&& changed == !(pre.workspaces@ =~= spec_sort_ws(list@))
            &&& post.workspaces@ =~= spec_sort_ws(list@)
            &&& post.windows == pre.windows
            &&& post.focused_window_id == pre.focused_window_id
            &&& post.focused_window_title == pre.focused_window_title
        },
        NiriEvent::WindowsChanged(list) => {
            let (m, fid, ft) = spec_fold_wins(list@);
            &&& spec_wins_view(post.windows@) =~= m
            &&& post.focused_window_id == fid
            &&& post.workspaces == pre.workspaces
            &&& changed == (ft != spec_opt_view(pre.focused_window_title))
            &&& spec_opt_view(post.focused_window_title)
                == (if changed { ft } else { spec_opt_view(pre.focused_window_title) })
        },
        NiriEvent::WindowFocusChanged(nid) => {
            if nid == pre.focused_window_id {
                post == pre && !changed
            } else {
                let nt = match nid {
                    Some(i) => spec_win_lookup(spec_wins_view(pre.windows@), i),
                    None => None,
                };
                &&& post.focused_window_id == nid
                &&& post.windows == pre.windows
                &&& post.workspaces == pre.workspaces
                &&& changed == (nt != spec_opt_view(pre.focused_window_title))
                &&& spec_opt_view(post.focused_window_title)
                    == (if changed { nt } else { spec_opt_view(pre.focused_window_title) })
            }
        },
        NiriEvent::WindowOpenedOrChanged { id, title } => {
            &&& spec_wins_view(post.windows@) =~= spec_win_upsert(spec_wins_view(pre.windows@), id, title@)
            &&& post.workspaces == pre.workspaces
            &&& post.focused_window_id == pre.focused_window_id
            &&& changed == (pre.focused_window_id == Some(id)
                && Some(title@) != spec_opt_view(pre.focused_window_title))
            &&& spec_opt_view(post.focused_window_title)
                == (if changed { Some(title@) } else { spec_opt_view(pre.focused_window_title) })
        },
        NiriEvent::WindowClosed { id } => {
            &&& spec_wins_view(post.windows@) =~= spec_win_remove(spec_wins_view(pre.windows@), id)
            &&& post.workspaces == pre.workspaces
            &&& changed == (pre.focused_window_id == Some(id)
                && pre.focused_window_title is Some)
            &&& post.focused_window_id
                == (if pre.focused_window_id == Some(id) { None } else { pre.focused_window_id })
            &&& spec_opt_view(post.focused_window_title)
                == (if changed { None } else { spec_opt_view(pre.focused_window_title) })
        },
    }
}

/// Whether two optional titles read the same.
fn opt_title_eq(a: &Option<String>, b: &Option<String>) -> (r: bool)
    ensures
        r == (spec_opt_view(*a) == spec_opt_view(*b)),
{
    match (a, b) {
        (None, None) => true,
        (Some(x), Some(y)) => crate::str_eq(x.as_str(), y.as_str()),
        _ => false,
    }
}

/// Rebuilds the window table without any pair carrying this id.
fn win_remove(v: &Vec<(u64, String)>, id: u64) -> (r: Vec<(u64, String)>)
    ensures
        spec_wins_view(r@) =~= spec_win_remove(spec_wins_view(v@), id),
{
    let mut out: Vec<(u64, String)> = Vec::new();
    let mut i: usize = 0;
    while i < v.len()
        invariant
            i <= v@.len(),
            spec_wins_view(out@) =~= spec_win_remove(spec_wins_view(v@.take(i as int)), id),
        decreases v@.len() - i,
    {
        proof {
            assert(spec_wins_view(v@.take(i + 1)).drop_last() =~= spec_wins_view(v@.take(i as int)));
            assert(spec_wins_view(v@.take(i + 1)).last() == (v@[i as int].0, v@[i as int].1@));
        }
        if v[i].0 != id {
            let title = v[i].1.clone();
            let key = v[i].0;
            out.push((key, title));
        }
        i += 1;
    }
    proof {
        assert(v@.take(v@.len() as int) =~= v@);
        assert(spec_wins_view(v@.take(v@.len() as int)) =~= spec_wins_view(v@));
    }
    out
}

/// Looks up the title stored under an id.
fn win_lookup(v: &Vec<(u64, String)>, id: u64) -> (r: Option<String>)
    ensures
        spec_opt_view(r) == spec_win_lookup(spec_wins_view(v@), id),
{
    let mut i: usize = 0;
    proof {
        assert(spec_wins_view(v@).skip(0) =~= spec_wins_view(v@));
    }
    while i < v.len()
        invariant
            i <= v@.len(),
            spec_win_lookup(spec_wins_view(v@), id)
                == spec_win_lookup(spec_wins_view(v@).skip(i as int), id),
            forall|k: int| 0 <= k < i ==> v@[k].0 != id,
        decreases v@.len() - i,
    {
        if v[i].0 == id {
            proof {
                assert(spec_wins_view(v@).skip(i as int)[0] == (v@[i as int].0, v@[i as int].1@));
            }
            return Some(v[i].1.clone());
        }
        proof {
            assert(spec_wins_view(v@).skip(i as int).skip(1)
                =~= spec_wins_view(v@).skip(i + 1));
        }
        i += 1;
    }
    proof {
        assert(spec_wins_view(v@).skip(v@.len() as int) =~= Seq::<(u64, Seq<char>)>::empty());
    }
    None
}

impl NiriState {
    /// An empty mirror: no workspaces, no windows, no focused title.
    pub fn new() -> (r: NiriState)
        ensures
            r.workspaces@.len() == 0,
            r.focused_window_title is None,
            r.windows@.len() == 0,
            r.focused_window_id is None,
    {
        NiriState {
            workspaces: Vec::new(),
            focused_window_title: None,
            windows: Vec::new(),
            focused_window_id: None,
        }
    }

    /// Folds one event into the mirror; true iff something observable,
    /// the workspace list or the focused window's title, changed.
    pub fn apply_event(&mut self, ev: NiriEvent) -> (changed: bool)
        ensures
            spec_apply_rel(*old(self), ev, *final(self), changed),
    {
        let ghost pre = *old(self);
        let ghost evg = ev;
        match ev {
            NiriEvent::Unknown => false,
            NiriEvent::WorkspaceActivated { id, focused } => {
                let mut changed = false;
                let n = self.workspaces.len();
                let mut k: usize = 0;
                while k < n
                    invariant
                        n == self.workspaces@.len(),
                        k <= n,
                        self.workspaces@.len() == pre.workspaces@.len(),
                        self.windows == pre.windows,
                        self.focused_window_id == pre.focused_window_id,
                        self.focused_window_title == pre.focused_window_title,
                        forall|j: int| k <= j < n
                            ==> #[trigger] self.workspaces@[j] == pre.workspaces@[j],
                        forall|j: int| 0 <= j < k ==> #[trigger] self.workspaces@[j]
                            == (Workspace { id: pre.workspaces@[j].id, idx: pre.workspaces@[j].idx,
                                is_focused: focused && pre.workspaces@[j].id == id }),
                        changed == (exists|j: int| 0 <= j < k
                            && (#[trigger] pre.workspaces@[j]).is_focused
                                != (focused && pre.workspaces@[j].id == id)),
                    decreases n - k,
                {
                    let was = self.workspaces[k].is_focused;
                    let now = focused && self.workspaces[k].id == id;
                    if was != now {
                        changed = true;
                    }
                    self.workspaces[k].is_focused = now;
                    k += 1;
                }
                proof {
                    assert(self.workspaces@ =~= pre.workspaces@.map_values(
                        |w: Workspace| Workspace { id: w.id, idx: w.idx,
                            is_focused: focused && w.id == id }));
                    if !changed {
                        assert(self.workspaces@ =~= pre.workspaces@);
                    }
                }
                changed
            },
            NiriEvent::WorkspacesChanged(list) => {
                let sorted = sort_workspaces(list);
                if !workspaces_eq(self.workspaces.as_slice(), sorted.as_slice()) {
                    self.workspaces = sorted;
                    true
                } else {
                    false
                }
            },
            NiriEvent::WindowsChanged(list) => {
                let mut wins: Vec<(u64, String)> = Vec::new();
                let mut fid: Option<u64> = None;
                let mut ft: Option<String> = None;
                let n = list.len();
                let mut i: usize = 0;
                while i < n
                    invariant
                        n == list@.len(),
                        i <= n,
                        spec_wins_view(wins@) =~= spec_fold_wins(list@.take(i as int)).0,
                        fid == spec_fold_wins(list@.take(i as int)).1,
                        spec_opt_view(ft) == spec_fold_wins(list@.take(i as int)).2,
                    decreases n - i,
                {
                    proof {
                        assert(list@.take(i + 1).drop_last() =~= list@.take(i as int));
                        assert(list@.take(i + 1).last() == list@[i as int]);
                    }
                    let w = &list[i];
                    let removed = win_remove(&wins, w.id);
                    wins = removed;
                    wins.push((w.id, w.title.clone()));
                    proof {
                        assert(spec_wins_view(wins@).drop_last()
                            =~= spec_wins_view(wins@.drop_last()));
                        assert(spec_wins_view(wins@)
                            =~= spec_win_upsert(spec_fold_wins(list@.take(i as int)).0,
                                list@[i as int].id, list@[i as int].title@));
                    }
                    if w.is_focused {
                        fid = Some(w.id);
                        ft = Some(w.title.clone());
                    }
                    i += 1;
                }
                proof {
                    assert(list@.take(n as int) =~= list@);
                }
                self.windows = wins;
                self.focused_window_id = fid;
                if !opt_title_eq(&ft, &self.focused_window_title) {
                    self.focused_window_title = ft;
                    true
                } else {
                    false
                }
            },
            NiriEvent::WindowFocusChanged(nid) => {
                let same = match (nid, self.focused_window_id) {
                    (None, None) => true,
                    (Some(a), Some(b)) => a == b,
                    _ => false,
                };
                if same {
                    return false;
                }
                self.focused_window_id = nid;
                let nt = match nid {
                    Some(i) => win_lookup(&self.windows, i),
                    None => None,
                };
                if !opt_title_eq(&nt, &self.focused_window_title) {
                    self.focused_window_title = nt;
                    true
                } else {
                    false
                }
            },
            NiriEvent::WindowOpenedOrChanged { id, title } => {
                let removed = win_remove(&self.windows, id);
                self.windows = removed;
                self.windows.push((id, title.clone()));
                proof {
                    assert(spec_wins_view(self.windows@).drop_last()
                        =~= spec_wins_view(self.windows@.drop_last()));
                }
                let focused_here = match self.focused_window_id {
                    Some(f) => f == id,
                    None => false,
                };
                if focused_here {
                    let nt = Some(title);
                    if !opt_title_eq(&nt, &self.focused_window_title) {
                        self.focused_window_title = nt;
                        return true;
                    }
                }
                false
            },
            NiriEvent::WindowClosed { id } => {
                let removed = win_remove(&self.windows, id);
                self.windows = removed;
                let focused_here = match self.focused_window_id {
                    Some(f) => f == id,
                    None => false,
                };
                if focused_here {
                    self.focused_window_id = None;
                    if self.focused_window_title.is_some() {
                        self.focused_window_title = None;
                        return true;
                    }
                }
                false
            },
        }
    }

    /// Folds a drained batch of events into the mirror, in arrival order;
    /// true iff any single step changed something observable.
    pub fn apply_events(&mut self, events: Vec<NiriEvent>) -> (changed: bool)
        ensures
            spec_fold_events(*old(self), events@, *final(self), changed),
            !changed ==> final(self).workspaces@ =~= old(self).workspaces@
                && spec_opt_view(final(self).focused_window_title)
                    == spec_opt_view(old(self).focused_window_title),
    {
        let ghost orig = events@;
        let mut events = events;
        let mut changed = false;
        let ghost mut i: int = 0;
        proof {
            assert(orig.take(0) =~= Seq::<NiriEvent>::empty());
        }
        while events.len() > 0
            invariant
                0 <= i,
                i + events@.len() == orig.len(),
                events@ =~= orig.skip(i),
                spec_fold_events(*old(self), orig.take(i), *self, changed),
                !changed ==> self.workspaces@ =~= old(self).workspaces@
                    && spec_opt_view(self.focused_window_title)
                        == spec_opt_view(old(self).focused_window_title),
            decreases events@.len(),
        {
            let ghost pre = *self;
            let ghost changed0 = changed;
            let ev = events.remove(0);
            proof {
                assert(orig.skip(i)[0] == orig[i]);
                assert(orig.skip(i).skip(1) =~= orig.skip(i + 1));
            }
            let step = self.apply_event(ev);
            if step {
                changed = true;
            }
            proof {
                assert(orig.take(i + 1).drop_last() =~= orig.take(i));
                assert(orig.take(i + 1).last() == orig[i]);
                assert(spec_fold_events(*old(self), orig.take(i + 1).drop_last(), pre, changed0));
                assert(spec_apply_rel(pre, orig.take(i + 1).last(), *self, step));
                assert(changed == (changed0 || step));
                assert(orig.take(i + 1).len() == i + 1);
                assert(spec_fold_step(pre, changed0, step));
                assert(spec_fold_events(*old(self), orig.take(i + 1), *self, changed));
                i = i + 1;
            }
        }
        proof {
            assert(orig.take(i) =~= orig);
        }
        changed
    }
}

/// Names one candidate intermediate state and step flags of a fold, so
/// the chain below has a stable term to quantify over.
pub open spec fn spec_fold_step(mid: NiriState, c1: bool, c2: bool) -> bool {
    true
}

/// The mirror's states chain through a batch of events: each event folds
/// in by `spec_apply_rel`, and the batch changed something observable iff
/// some single step did.
pub open spec fn spec_fold_events(pre: NiriState, events: Seq<NiriEvent>, post: NiriState, changed: bool) -> bool
    decreases events.len(),
{
    if events.len() == 0 {
        post == pre && !changed
    } else {
        exists|mid: NiriState, c1: bool, c2: bool|
            #![trigger spec_fold_step(mid, c1, c2)]
            spec_fold_events(pre, events.drop_last(), mid, c1)
                && spec_apply_rel(mid, events.last(), post, c2)
                && changed == (c1 || c2)
    }
}

/// The decimal digit characters of a byte value, no leading zeros.
pub open spec fn spec_dec_chars(n: u8) -> Seq<char> {
    if n < 10 {
        spec_digit_seq((n % 10) as u8)
    } else if n < 100 {
        spec_digit_seq((n / 10) as u8) + spec_digit_seq((n % 10) as u8)
    } else {
        spec_digit_seq((n / 100) as u8) + spec_digit_seq(((n / 10) % 10) as u8)
            + spec_digit_seq((n % 10) as u8)
    }
}

/// The one-character sequence for a decimal digit.
pub open spec fn spec_digit_seq(d: u8) -> Seq<char> {
    if d == 0 { "0"@ }
    else if d == 1 { "1"@ }
    else if d == 2 { "2"@ }
    else if d == 3 { "3"@ }
    else if d == 4 { "4"@ }
    else if d == 5 { "5"@ }
    else if d == 6 { "6"@ }
    else if d == 7 { "7"@ }
    else if d == 8 { "8"@ }
    else { "9"@ }
}

/// One decimal digit as a string.
fn digit_str(d: u8) -> (r: &'static str)
    requires
        d < 10,
    ensures
        r@ == spec_digit_seq(d),
{
    if d == 0 { "0" }
    else if d == 1 { "1" }
    else if d == 2 { "2" }
    else if d == 3 { "3" }
    else if d == 4 { "4" }
    else if d == 5 { "5" }
    else if d == 6 { "6" }
    else if d == 7 { "7" }
    else if d == 8 { "8" }
    else { "9" }
}

/// The one-shot action request that asks the compositor to focus the
/// workspace with this index, ready to write to the action socket,
/// newline included.
pub fn focus_workspace_request(idx: u8) -> (r: String)
    ensures
        r@ == "{\"Action\":{\"FocusWorkspace\":{\"reference\":{\"Index\":"@
            + spec_dec_chars(idx) + "}}}}\n"@,
{
    let mut s = String::from_str("{\"Action\":{\"FocusWorkspace\":{\"reference\":{\"Index\":");
    if idx >= 100 {
        s.append(digit_str(idx / 100));
        s.append(digit_str((idx / 10) % 10));
        s.append(digit_str(idx % 10));
    } else if idx >= 10 {
        s.append(digit_str(idx / 10));
        s.append(digit_str(idx % 10));
    } else {
        s.append(digit_str(idx % 10));
    }
    s.append("}}}}\n");
    s
}

/// Applying one workspace snapshot leaves the mirror sorted exactly as
/// the snapshot sorts; applying the same snapshot again changes nothing.
/// The first application reports a change precisely when the mirror held
/// something else before.
pub proof fn lemma_snapshot_applied_twice(pre: NiriState, mid: NiriState, post: NiriState,
    l1: Vec<Workspace>, l2: Vec<Workspace>, c1: bool, c2: bool)
    requires
        l1@ =~= l2@,
        spec_apply_rel(pre, NiriEvent::WorkspacesChanged(l1), mid, c1),
        spec_apply_rel(mid, NiriEvent::WorkspacesChanged(l2), post, c2),
    ensures
        c1 == !(pre.workspaces@ =~= spec_sort_ws(l1@)),
        !c2,
        post.workspaces@ =~= spec_sort_ws(l1@),
{
    assert(l1@ == l2@);
    assert(mid.workspaces@ =~= spec_sort_ws(l1@));
}

} // verus!

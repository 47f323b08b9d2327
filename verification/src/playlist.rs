//! The playlist: entries as the player reports them, incremental search over
//! them, and jumping the viewport to a given entry.

use vstd::prelude::*;
use crate::text::{has_substring, str_has_substring};
use crate::viewport::{center_window_spec, ViewportState};

verus! {

/// One track of the playlist. `id` is the entry's stable row index, `title`
/// may be empty (the filename then stands in for it), and at most one entry
/// of a playlist is `current`.
#[derive(Clone, Debug)]
pub struct PlaylistEntry {
    pub id: usize,
    pub filename: String,
    pub title: String,
    pub current: bool,
}

/// The ordered playlist.
#[derive(Clone, Debug)]
pub struct Playlist {
    pub entries: Vec<PlaylistEntry>,
}

impl Playlist {
    /// The invariant the player promises of every playlist it reports:
    /// entry ids are unique and at most one entry is marked current.
    pub open spec fn wf(self) -> bool {
        &&& forall|i: int, j: int|
            0 <= i < j < self.entries@.len() ==> self.entries@[i].id != self.entries@[j].id
        &&& forall|i: int, j: int|
            0 <= i < j < self.entries@.len() ==> !(self.entries@[i].current
                && self.entries@[j].current)
    }

    pub fn len(&self) -> (n: usize)
        ensures
            n == self.entries@.len(),
    {
        self.entries.len()
    }
}

/// Whether one entry matches a search pattern: the pattern occurs in its
/// filename or in its title, case-sensitive, as typed.
pub open spec fn entry_matches(e: PlaylistEntry, pat: Seq<char>) -> bool {
    has_substring(e.filename@, pat) || has_substring(e.title@, pat)
}

/// The ids of the entries matching `pat`, in playlist order.
pub open spec fn matching_ids(entries: Seq<PlaylistEntry>, pat: Seq<char>) -> Seq<usize>
    decreases entries.len(),
{
    if entries.len() == 0 {
        Seq::empty()
    } else {
        matching_ids(entries.drop_last(), pat) + (if entry_matches(entries.last(), pat) {
            seq![entries.last().id]
        } else {
            Seq::<usize>::empty()
        })
    }
}

/// What a committed search returns: nothing for the empty pattern, otherwise
/// the matching ids in playlist order.
pub open spec fn search_spec(entries: Seq<PlaylistEntry>, pat: Seq<char>) -> Seq<usize> {
    if pat.len() == 0 {
        Seq::empty()
    } else {
        matching_ids(entries, pat)
    }
}

/// Search the playlist for entries whose filename or title contains
/// `search_pattern`; the result follows playlist order.
pub fn search_playlist(playlist: &Playlist, search_pattern: &str) -> (r: Vec<usize>)
    ensures
        r@ == search_spec(playlist.entries@, search_pattern@),
{
    let mut output: Vec<usize> = Vec::new();
    if search_pattern.is_empty() {
        return output;
    }
    let n: usize = playlist.entries.len();
    let mut i: usize = 0;
    while i < n
        invariant
            n == playlist.entries@.len(),
            search_pattern@.len() > 0,
            i <= n,
            output@ == matching_ids(playlist.entries@.take(i as int), search_pattern@),
        decreases n - i,
    {
        let e = &playlist.entries[i];
        if str_has_substring(e.filename.as_str(), search_pattern) || str_has_substring(
            e.title.as_str(),
            search_pattern,
        ) {
            output.push(e.id);
        }
        proof {
            assert(playlist.entries@.take(i + 1).drop_last() =~= playlist.entries@.take(i as int));
            assert(playlist.entries@.take(i + 1).last() == playlist.entries@[i as int]);
        }
        i += 1;
    }
    proof {
        assert(playlist.entries@.take(n as int) =~= playlist.entries@);
    }
    output
}

/// The index of the first entry marked current, or the playlist length when
/// no entry is.
pub open spec fn first_current_index(entries: Seq<PlaylistEntry>) -> nat
    decreases entries.len(),
{
    if entries.len() == 0 {
        0
    } else if entries[0].current {
        0
    } else {
        (1 + first_current_index(entries.skip(1))) as nat
    }
}

/// Law: `first_current_index` is at most the length, points at a current
/// entry whenever one exists, and nothing before it is current.
pub proof fn lemma_first_current_index(entries: Seq<PlaylistEntry>)
    ensures
        first_current_index(entries) <= entries.len(),
        first_current_index(entries) < entries.len() ==> entries[first_current_index(entries) as int].current,
        forall|k: int| 0 <= k < first_current_index(entries) ==> !entries[k].current,
        first_current_index(entries) == entries.len() ==> forall|k: int|
            0 <= k < entries.len() ==> !entries[k].current,
    decreases entries.len(),
{
    if entries.len() > 0 && !entries[0].current {
        lemma_first_current_index(entries.skip(1));
        assert(forall|k: int|
            1 <= k < entries.len() ==> entries[k] == entries.skip(1)[k - 1]);
    }
}

/// The window centered on `id` for this playlist and the height the given
/// window implies, or `None` when `id` is no row of the playlist. The caller
/// must not apply a `None` result.
pub fn try_center_id(playlist: &Playlist, canvas: &ViewportState, id: usize) -> (r: Option<
    ViewportState,
>)
    requires
        canvas.valid(
            playlist.entries@.len(),
            (canvas.bottom_line - canvas.top_line) as nat,
        ),
        playlist.entries@.len() + (canvas.bottom_line - canvas.top_line) <= usize::MAX,
    ensures
        id < playlist.entries@.len() ==> r == Some(
            center_window_spec(
                playlist.entries@.len(),
                (canvas.bottom_line - canvas.top_line) as nat,
                id as nat,
            ),
        ),
        id >= playlist.entries@.len() ==> r is None,
        r is Some ==> r.unwrap().valid(
            playlist.entries@.len(),
            (canvas.bottom_line - canvas.top_line) as nat,
        ),
{
    let line_count: usize = canvas.bottom_line - canvas.top_line;
    let n: usize = playlist.entries.len();
    if id < n {
        Some(canvas.center_on(n, line_count, id))
    } else {
        None
    }
}

/// Center the viewport on the entry that is playing now; on a playlist with
/// no current entry this falls back to the first row, and on an empty
/// playlist it returns `None`.
pub fn jump_to_current(playlist: &Playlist, playlist_canvas: &ViewportState) -> (r: Option<
    ViewportState,
>)
    requires
        playlist_canvas.valid(
            playlist.entries@.len(),
            (playlist_canvas.bottom_line - playlist_canvas.top_line) as nat,
        ),
        playlist.entries@.len() + (playlist_canvas.bottom_line - playlist_canvas.top_line)
            <= usize::MAX,
    ensures
        ({
            let n = playlist.entries@.len();
            let h = (playlist_canvas.bottom_line - playlist_canvas.top_line) as nat;
            let f = first_current_index(playlist.entries@);
            let tgt: nat = if f < n {
                f
            } else {
                0
            };
            &&& n > 0 ==> r == Some(center_window_spec(n, h, tgt))
            &&& n == 0 ==> r is None
            &&& r is Some ==> r.unwrap().valid(n, h)
        }),
{
    proof {
        lemma_first_current_index(playlist.entries@);
    }
    let n: usize = playlist.entries.len();
    let mut current_id: usize = 0;
    let mut i: usize = 0;
    let mut found: bool = false;
    while i < n && !found
        invariant
            n == playlist.entries@.len(),
            i <= n,
            !found ==> current_id == 0 && forall|k: int|
                0 <= k < i ==> !playlist.entries@[k].current,
            found ==> i < n && current_id == i && playlist.entries@[i as int].current
                && forall|k: int| 0 <= k < i ==> !playlist.entries@[k].current,
        decreases n - i + (if found { 0int } else { 1int }),
    {
        if playlist.entries[i].current {
            current_id = i;
            found = true;
        } else {
            i += 1;
        }
    }
    proof {
        let f = first_current_index(playlist.entries@);
        if found {
            assert(current_id == f);
        } else {
            assert(f == n);
        }
    }
    try_center_id(playlist, playlist_canvas, current_id)
}

} // verus!

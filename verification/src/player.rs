//! The player state store: the one shared snapshot of player-reported facts,
//! how each property notification changes it, and the search-result cursor.
//!
//! Times are whole seconds and the playback speed is hundredths, so that
//! every transition here is exact; the process edge converts the player's
//! raw numbers once, on arrival.

use vstd::prelude::*;
use crate::playlist::{search_spec, search_playlist, try_center_id, Playlist};
use crate::repaint::{Formatting, Repaint, UpdateStatusBar, UpdateTopBar};
use crate::viewport::{center_window_spec, ViewportState};

verus! {

/// The two tags the view reads from the player's metadata mapping.
#[derive(Clone, Debug)]
pub struct Metadata {
    pub title: Option<String>,
    pub artist: Option<String>,
}

/// Everything the player has reported, plus the committed search results and
/// the cursor into them.
pub struct PlayerState {
    pub duration: u64,
    pub is_muted: bool,
    pub is_paused: bool,
    pub metadata: Option<Metadata>,
    pub playlist: Playlist,
    pub search_results: Vec<usize>,
    pub search_cursor: usize,
    pub speed_centi: u64,
    pub time_pos: u64,
    pub volume: u64,
}

/// One property-change notification, already reduced to plain values.
pub enum PropertyEvent {
    Duration(Option<u64>),
    Metadata(Option<Metadata>),
    Mute(bool),
    Pause(bool),
    PlaylistChange(Playlist),
    Speed(u64),
    TimePos(u64),
    Volume(u64),
}

impl PlayerState {
    /// The store invariant: when search results exist, the cursor points at
    /// one of them.
    pub open spec fn wf(self) -> bool {
        self.search_results@.len() > 0 ==> (self.search_cursor as int)
            < self.search_results@.len()
    }

    /// The state before the first notification arrives.
    pub fn initial(playlist: Playlist, metadata: Option<Metadata>) -> (s: PlayerState)
        ensures
            s.wf(),
            s.duration == 0 && s.time_pos == 0,
            s.playlist == playlist,
            s.metadata == metadata,
            s.search_results@.len() == 0 && s.search_cursor == 0,
            !s.is_muted && !s.is_paused,
            s.speed_centi == 0 && s.volume == 0,
    {
        PlayerState {
            duration: 0,
            is_muted: false,
            is_paused: false,
            metadata,
            playlist,
            search_results: Vec::new(),
            search_cursor: 0,
            speed_centi: 0,
            time_pos: 0,
            volume: 0,
        }
    }

    /// Apply one property notification to the store and return the repaint
    /// requests it must enqueue, in order.
    pub fn apply_event(&mut self, event: PropertyEvent) -> (r: Vec<Repaint>)
        ensures
            (old(self).wf() ==> final(self).wf()),
            (event matches PropertyEvent::Duration(Some(d)) ==> *final(self) == (PlayerState {
                duration: d,
                ..*old(self)
            }) && r@.len() == 1 && (r@[0] matches Repaint::StatusBar(UpdateStatusBar::Time))),
            (event matches PropertyEvent::Duration(None) ==> *final(self) == (PlayerState {
                duration: 0,
                time_pos: 0,
                ..*old(self)
            }) && r@.len() == 1 && (r@[0] matches Repaint::StatusBar(UpdateStatusBar::Clear))),
            (event matches PropertyEvent::Metadata(Some(m)) ==> *final(self) == (PlayerState {
                metadata: Some(m),
                ..*old(self)
            }) && r@.len() == 1 && (r@[0] matches Repaint::TopBar(UpdateTopBar::Metadata))),
            (event matches PropertyEvent::Metadata(None) ==> *final(self) == (PlayerState {
                metadata: None,
                ..*old(self)
            }) && r@.len() == 3 && (r@[0] matches Repaint::TopBar(UpdateTopBar::Clear))
                && (r@[1] matches Repaint::TopBar(UpdateTopBar::Speed))
                && (r@[2] matches Repaint::TopBar(UpdateTopBar::Volume))),
            (event matches PropertyEvent::Mute(m) ==> *final(self) == (PlayerState {
                is_muted: m,
                ..*old(self)
            }) && r@.len() == 1 && (r@[0] matches Repaint::StatusBar(
                UpdateStatusBar::Message(t, f),
            ) && f is Blinking && t@ == (if m {
                "Muted"@
            } else {
                "     "@
            }))),
            (event matches PropertyEvent::Pause(true) ==> *final(self) == (PlayerState {
                is_paused: true,
                ..*old(self)
            }) && r@.len() == 1 && (r@[0] matches Repaint::StatusBar(
                UpdateStatusBar::Message(t, f),
            ) && f is Blinking && t@ == "Paused"@)),
            (event matches PropertyEvent::Pause(false) ==> *final(self) == (PlayerState {
                is_paused: false,
                ..*old(self)
            }) && r@.len() == 1 && (r@[0] matches Repaint::StatusBar(UpdateStatusBar::Clear))),
            (event matches PropertyEvent::PlaylistChange(pl) ==> *final(self) == (PlayerState {
                playlist: pl,
                ..*old(self)
            }) && r@.len() == 1 && (r@[0] matches Repaint::Playlist {
                clear_win,
                scroll_to_beginning,
            } && clear_win == (pl.entries@.len() != old(self).playlist.entries@.len())
                && scroll_to_beginning == clear_win)),
            (event matches PropertyEvent::Speed(s) ==> *final(self) == (PlayerState {
                speed_centi: s,
                ..*old(self)
            }) && r@.len() == 1 && (r@[0] matches Repaint::TopBar(UpdateTopBar::Speed))),
            (event matches PropertyEvent::TimePos(t) ==> *final(self) == (PlayerState {
                time_pos: t,
                ..*old(self)
            }) && r@.len() == 1 && (r@[0] matches Repaint::StatusBar(UpdateStatusBar::Time))),
            (event matches PropertyEvent::Volume(v) ==> *final(self) == (PlayerState {
                volume: v,
                ..*old(self)
            }) && r@.len() == 1 && (r@[0] matches Repaint::TopBar(UpdateTopBar::Volume))),
    {
        let mut r: Vec<Repaint> = Vec::new();
        match event {
            PropertyEvent::Duration(Some(d)) => {
                self.duration = d;
                r.push(Repaint::StatusBar(UpdateStatusBar::Time));
            },
            PropertyEvent::Duration(None) => {
                self.duration = 0;
                self.time_pos = 0;
                r.push(Repaint::StatusBar(UpdateStatusBar::Clear));
            },
            PropertyEvent::Metadata(Some(m)) => {
                self.metadata = Some(m);
                r.push(Repaint::TopBar(UpdateTopBar::Metadata));
            },
            PropertyEvent::Metadata(None) => {
                self.metadata = None;
                r.push(Repaint::TopBar(UpdateTopBar::Clear));
                r.push(Repaint::TopBar(UpdateTopBar::Speed));
                r.push(Repaint::TopBar(UpdateTopBar::Volume));
            },
            PropertyEvent::Mute(m) => {
                self.is_muted = m;
                let text = if m {
                    String::from_str("Muted")
                } else {
                    String::from_str("     ")
                };
                r.push(Repaint::StatusBar(UpdateStatusBar::Message(text, Formatting::Blinking)));
            },
            PropertyEvent::Pause(p) => {
                self.is_paused = p;
                if p {
                    r.push(
                        Repaint::StatusBar(
                            UpdateStatusBar::Message(
                                String::from_str("Paused"),
                                Formatting::Blinking,
                            ),
                        ),
                    );
                } else {
                    r.push(Repaint::StatusBar(UpdateStatusBar::Clear));
                }
            },
            PropertyEvent::PlaylistChange(pl) => {
                let changed = pl.entries.len() != self.playlist.entries.len();
                self.playlist = pl;
                r.push(Repaint::Playlist { clear_win: changed, scroll_to_beginning: changed });
            },
            PropertyEvent::Speed(s) => {
                self.speed_centi = s;
                r.push(Repaint::TopBar(UpdateTopBar::Speed));
            },
            PropertyEvent::TimePos(t) => {
                self.time_pos = t;
                r.push(Repaint::StatusBar(UpdateStatusBar::Time));
            },
            PropertyEvent::Volume(v) => {
                self.volume = v;
                r.push(Repaint::TopBar(UpdateTopBar::Volume));
            },
        }
        r
    }

    /// Advance the search cursor to the next match, wrapping to the first
    /// after the last; with no results this changes nothing.
    pub fn next_search_match(&mut self) -> (changed: bool)
        requires
            old(self).wf(),
        ensures
            final(self).wf(),
            (old(self).search_results@.len() == 0 ==> !changed && *final(self) == *old(self)),
            (old(self).search_results@.len() > 0 ==> changed && *final(self) == (PlayerState {
                search_cursor: final(self).search_cursor,
                ..*old(self)
            }) && final(self).search_cursor == (old(self).search_cursor + 1) % (
            old(self).search_results@.len() as int)),
    {
        if self.search_results.len() == 0 {
            return false;
        }
        proof {
            let len = self.search_results@.len();
            let c = self.search_cursor as nat;
            if c + 1 < len {
                vstd::arithmetic::div_mod::lemma_small_mod(c + 1, len);
            } else {
                assert((c + 1) as int % len as int == 0) by {
                    vstd::arithmetic::div_mod::lemma_mod_self_0(len as int);
                }
            }
        }
        if self.search_cursor < self.search_results.len() - 1 {
            self.search_cursor = self.search_cursor + 1;
        } else {
            self.search_cursor = 0;
        }
        true
    }
}

/// What committing a search leads to on the screen.
#[derive(Clone, Copy, PartialEq, Eq, Structural, Debug)]
pub enum SearchOutcome {
    /// The pattern was empty: any shown search state is cleared.
    Cleared,
    /// At least one match; the viewport window to center its first hit.
    Centered(ViewportState),
    /// At least one match, but its id is no row of the playlist, so the
    /// window stays as it is.
    Unmoved,
    /// No entry matched.
    NotFound,
}

/// Commit a search: store the matches for `pattern` with the cursor on the
/// first one, and say how the view must react.
pub fn commit_search(player: &mut PlayerState, canvas: &ViewportState, pattern: &str) -> (r:
    SearchOutcome)
    requires
        canvas.valid(
            old(player).playlist.entries@.len(),
            (canvas.bottom_line - canvas.top_line) as nat,
        ),
        old(player).playlist.entries@.len() + (canvas.bottom_line - canvas.top_line)
            <= usize::MAX,
    ensures
        *final(player) == (PlayerState {
            search_results: final(player).search_results,
            search_cursor: 0,
            ..*old(player)
        }),
        final(player).search_results@ == search_spec(old(player).playlist.entries@, pattern@),
        final(player).wf(),
        ({
            let results = final(player).search_results@;
            let n = old(player).playlist.entries@.len();
            let h = (canvas.bottom_line - canvas.top_line) as nat;
            &&& pattern@.len() == 0 ==> r is Cleared
            &&& pattern@.len() > 0 && results.len() == 0 ==> r is NotFound
            &&& results.len() > 0 && (results[0] as nat) < n ==> r == SearchOutcome::Centered(
                center_window_spec(n, h, results[0] as nat),
            )
            &&& results.len() > 0 && (results[0] as nat) >= n ==> r is Unmoved
        }),
{
    if pattern.is_empty() {
        player.search_results = Vec::new();
        player.search_cursor = 0;
        return SearchOutcome::Cleared;
    }
    let results = search_playlist(&player.playlist, pattern);
    player.search_results = results;
    player.search_cursor = 0;
    if player.search_results.len() > 0 {
        let first = player.search_results[0];
        match try_center_id(&player.playlist, canvas, first) {
            Some(c) => SearchOutcome::Centered(c),
            None => SearchOutcome::Unmoved,
        }
    } else {
        SearchOutcome::NotFound
    }
}

/// Advance to the next search match and center the viewport on it; `None`
/// when there are no results or the match's id is no row of the playlist.
pub fn select_next_match(player: &mut PlayerState, canvas: &ViewportState) -> (r: Option<
    ViewportState,
>)
    requires
        old(player).wf(),
        canvas.valid(
            old(player).playlist.entries@.len(),
            (canvas.bottom_line - canvas.top_line) as nat,
        ),
        old(player).playlist.entries@.len() + (canvas.bottom_line - canvas.top_line)
            <= usize::MAX,
    ensures
        final(player).wf(),
        (old(player).search_results@.len() == 0 ==> *final(player) == *old(player) && (
        r is None)),
        (old(player).search_results@.len() > 0 ==> ({
            let n = old(player).playlist.entries@.len();
            let h = (canvas.bottom_line - canvas.top_line) as nat;
            let cursor = (old(player).search_cursor + 1) % (old(player).search_results@.len()
                as int);
            let target = old(player).search_results@[cursor];
            &&& *final(player) == (PlayerState {
                search_cursor: cursor as usize,
                ..*old(player)
            })
            &&& (target as nat) < n ==> r == Some(center_window_spec(n, h, target as nat))
            &&& (target as nat) >= n ==> r is None
        })),
{
    if !player.next_search_match() {
        return None;
    }
    let target = player.search_results[player.search_cursor];
    try_center_id(&player.playlist, canvas, target)
}

} // verus!

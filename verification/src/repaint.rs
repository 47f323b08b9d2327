//! Repaint requests: the messages the two producer threads enqueue and the
//! render loop consumes, one per pane redraw, in FIFO order, never coalesced.

use vstd::prelude::*;

verus! {

/// How status-bar text is drawn.
#[derive(Clone, Copy, PartialEq, Eq, Structural, Debug)]
pub enum Formatting {
    Normal,
    Blinking,
}

/// What to redraw on the status bar.
#[derive(Clone, PartialEq, Eq, Debug)]
pub enum UpdateStatusBar {
    Clear,
    Time,
    Message(String, Formatting),
}

/// What to redraw on the top info bar.
#[derive(Clone, Copy, PartialEq, Eq, Structural, Debug)]
pub enum UpdateTopBar {
    Clear,
    Metadata,
    Speed,
    Volume,
}

/// One repaint request. Created by a producer, consumed exactly once by the
/// render loop, never mutated after it is enqueued.
#[derive(Clone, PartialEq, Eq, Debug)]
pub enum Repaint {
    Playlist { clear_win: bool, scroll_to_beginning: bool },
    StatusBar(UpdateStatusBar),
    TopBar(UpdateTopBar),
}

} // verus!

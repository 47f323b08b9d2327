//! The playlist viewport: which rows are visible and which row is selected.
//!
//! All functions here are pure: they take the playlist length, the viewport
//! height in rows and the current window, and return a new window. Every
//! operation preserves the window invariant [`ViewportState::valid`].

use vstd::prelude::*;

verus! {

/// The scroll window of the playlist pane.
///
/// Rows `top_line .. bottom_line` are the visible slice of the playlist and
/// `selected_line` is the highlighted row.
#[derive(Clone, Copy, PartialEq, Eq, Structural, Debug)]
pub struct ViewportState {
    pub top_line: usize,
    pub bottom_line: usize,
    pub selected_line: usize,
}

/// One navigation request from the keyboard.
#[derive(Clone, Copy, PartialEq, Eq, Structural, Debug)]
pub enum NavOp {
    Up,
    Down,
    PageUp,
    PageDown,
}

impl ViewportState {
    /// The window invariant, for a playlist of length `n` seen through a
    /// viewport of `h` rows: the window is exactly `h` rows tall, the
    /// selection is a valid row (or 0 for an empty playlist) inside the
    /// window, and a playlist that fits entirely is shown from its start.
    pub open spec fn valid(self, n: nat, h: nat) -> bool {
        &&& self.bottom_line == self.top_line + h
        &&& (self.selected_line as int) < vstd::math::max(1, n as int)
        &&& self.top_line <= self.selected_line <= self.bottom_line
        &&& n <= h ==> self.top_line == 0
    }

    /// The window every session starts from.
    pub fn initial(h: usize) -> (v: ViewportState)
        ensures
            v.top_line == 0,
            v.selected_line == 0,
            v.bottom_line == h,
            forall|n: nat| v.valid(n, h as nat),
    {
        ViewportState { top_line: 0, bottom_line: h, selected_line: 0 }
    }

    /// Move the selection one row up; scroll when it would leave the window.
    pub fn scroll_up(&self, n: usize, h: usize) -> (r: ViewportState)
        requires
            self.valid(n as nat, h as nat),
        ensures
            r == scroll_up_spec(*self, h as nat),
            r.valid(n as nat, h as nat),
            n == 0 ==> r == *self,
    {
        let top_line: usize = if self.selected_line == self.top_line && self.top_line > 0 {
            self.top_line - 1
        } else {
            self.top_line
        };
        let selected_line: usize = if self.selected_line > 0 {
            self.selected_line - 1
        } else {
            self.selected_line
        };
        ViewportState { top_line, bottom_line: top_line + h, selected_line }
    }

    /// Move the selection one row down; scroll when it would leave the window.
    pub fn scroll_down(&self, n: usize, h: usize) -> (r: ViewportState)
        requires
            h >= 1,
            self.valid(n as nat, h as nat),
        ensures
            r == scroll_down_spec(*self, n as nat, h as nat),
            r.valid(n as nat, h as nat),
            n == 0 ==> r == *self,
    {
        let selected_line: usize = if n > 0 && self.selected_line < n - 1 {
            self.selected_line + 1
        } else {
            self.selected_line
        };
        let top_line: usize = if selected_line >= self.bottom_line && self.bottom_line < n {
            self.top_line + 1
        } else {
            self.top_line
        };
        ViewportState { top_line, bottom_line: top_line + h, selected_line }
    }

    /// Move one full page up, snapping to the first row near the start.
    pub fn page_up(&self, n: usize, h: usize) -> (r: ViewportState)
        requires
            self.valid(n as nat, h as nat),
        ensures
            r == page_up_spec(*self, h as nat),
            r.valid(n as nat, h as nat),
            n == 0 ==> r == *self,
    {
        if self.top_line >= h {
            let top_line: usize = self.top_line - h;
            ViewportState {
                top_line,
                bottom_line: top_line + h,
                selected_line: self.selected_line - h,
            }
        } else {
            ViewportState { top_line: 0, bottom_line: h, selected_line: 0 }
        }
    }

    /// Move one full page down, snapping to the last row near the end.
    pub fn page_down(&self, n: usize, h: usize) -> (r: ViewportState)
        requires
            self.valid(n as nat, h as nat),
        ensures
            r == page_down_spec(*self, n as nat, h as nat),
            r.valid(n as nat, h as nat),
            n == 0 ==> r == *self,
    {
        if n > h {
            if self.bottom_line <= n - h {
                let top_line: usize = self.top_line + h;
                let moved: usize = self.selected_line + h;
                let selected_line: usize = if moved < n - 1 {
                    moved
                } else {
                    n - 1
                };
                ViewportState { top_line, bottom_line: top_line + h, selected_line }
            } else {
                let top_line: usize = n - h;
                ViewportState { top_line, bottom_line: n, selected_line: n - 1 }
            }
        } else {
            let selected_line: usize = if n > 0 {
                n - 1
            } else {
                0
            };
            ViewportState { top_line: self.top_line, bottom_line: self.bottom_line, selected_line }
        }
    }

    /// The window that shows row `id` as close to the vertical middle as the
    /// playlist boundaries allow, with row `id` selected.
    pub fn center_on(&self, n: usize, h: usize, id: usize) -> (r: ViewportState)
        requires
            id < n,
            n + h <= usize::MAX,
        ensures
            r == center_window_spec(n as nat, h as nat, id as nat),
            r.valid(n as nat, h as nat),
    {
        let half: usize = h / 2;
        let top_line: usize = if n <= h {
            0
        } else if id < half {
            0
        } else if id > n - half {
            n - h
        } else {
            id - half
        };
        ViewportState { top_line, bottom_line: top_line + h, selected_line: id }
    }

    /// The window the render loop repairs this one to before drawing, for
    /// the playlist length it found under the lock: an out-of-range
    /// selection falls back to the first row, the window is re-anchored
    /// around the selection, and `scroll_to_top` resets the view whole.
    /// A window that is already valid is returned unchanged.
    pub fn corrected(&self, n: usize, h: usize, scroll_to_top: bool) -> (r: ViewportState)
        requires
            n + h <= usize::MAX,
        ensures
            r == correct_viewport_spec(*self, n as nat, h as nat, scroll_to_top),
            r.valid(n as nat, h as nat),
            (scroll_to_top ==> r.top_line == 0 && r.selected_line == 0),
            (!scroll_to_top && self.valid(n as nat, h as nat) ==> r == *self),
    {
        let selected_line: usize = if scroll_to_top || self.selected_line >= n {
            0
        } else {
            self.selected_line
        };
        let anchor: usize = if scroll_to_top || n <= h {
            0
        } else {
            self.top_line
        };
        let anchor: usize = if anchor > selected_line {
            selected_line
        } else {
            anchor
        };
        let top_line: usize = if selected_line - anchor > h {
            selected_line - h
        } else {
            anchor
        };
        ViewportState { top_line, bottom_line: top_line + h, selected_line }
    }
}

/// What [`ViewportState::corrected`] returns.
pub open spec fn correct_viewport_spec(
    v: ViewportState,
    n: nat,
    h: nat,
    scroll_to_top: bool,
) -> ViewportState {
    let sel = if scroll_to_top || v.selected_line >= n {
        0usize
    } else {
        v.selected_line
    };
    let top0 = if scroll_to_top || n <= h {
        0usize
    } else {
        v.top_line
    };
    let top1 = if top0 > sel {
        sel
    } else {
        top0
    };
    let top = if sel > top1 + h {
        (sel - h) as usize
    } else {
        top1
    };
    ViewportState { top_line: top, bottom_line: (top + h) as usize, selected_line: sel }
}

/// The centered window for target row `id` of a playlist of length `n`, seen
/// through `h` rows: `[0, h)` near the start, `[n - h, n)` near the end (or
/// when everything fits), and `[id - h/2, id - h/2 + h)` in between.
pub open spec fn center_window_spec(n: nat, h: nat, id: nat) -> ViewportState {
    let half = h / 2;
    let top = if n <= h {
        0
    } else if id < half {
        0
    } else if id > n - half {
        (n - h) as usize
    } else {
        (id - half) as usize
    };
    ViewportState {
        top_line: top,
        bottom_line: (top + h) as usize,
        selected_line: id as usize,
    }
}

/// What [`ViewportState::scroll_up`] returns.
pub open spec fn scroll_up_spec(v: ViewportState, h: nat) -> ViewportState {
    let top = if v.selected_line == v.top_line && v.top_line > 0 {
        (v.top_line - 1) as usize
    } else {
        v.top_line
    };
    let sel = if v.selected_line > 0 {
        (v.selected_line - 1) as usize
    } else {
        v.selected_line
    };
    ViewportState { top_line: top, bottom_line: (top + h) as usize, selected_line: sel }
}

/// What [`ViewportState::scroll_down`] returns.
pub open spec fn scroll_down_spec(v: ViewportState, n: nat, h: nat) -> ViewportState {
    let sel = if v.selected_line + 1 < n {
        (v.selected_line + 1) as usize
    } else {
        v.selected_line
    };
    let top = if sel >= v.top_line + h && v.top_line + h < n {
        (v.top_line + 1) as usize
    } else {
        v.top_line
    };
    ViewportState { top_line: top, bottom_line: (top + h) as usize, selected_line: sel }
}

/// What [`ViewportState::page_up`] returns.
pub open spec fn page_up_spec(v: ViewportState, h: nat) -> ViewportState {
    if v.top_line >= h {
        let top = (v.top_line - h) as usize;
        ViewportState {
            top_line: top,
            bottom_line: (top + h) as usize,
            selected_line: (v.selected_line - h) as usize,
        }
    } else {
        ViewportState { top_line: 0, bottom_line: h as usize, selected_line: 0 }
    }
}

/// What [`ViewportState::page_down`] returns.
pub open spec fn page_down_spec(v: ViewportState, n: nat, h: nat) -> ViewportState {
    if n > h {
        if v.top_line + 2 * h <= n {
            let top = (v.top_line + h) as usize;
            let sel = vstd::math::min(v.selected_line + h, n - 1) as usize;
            ViewportState { top_line: top, bottom_line: (top + h) as usize, selected_line: sel }
        } else {
            ViewportState {
                top_line: (n - h) as usize,
                bottom_line: n as usize,
                selected_line: (n - 1) as usize,
            }
        }
    } else {
        let sel = if n > 0 {
            (n - 1) as usize
        } else {
            0usize
        };
        ViewportState { top_line: v.top_line, bottom_line: v.bottom_line, selected_line: sel }
    }
}

/// One navigation step, as a mathematical function.
pub open spec fn nav_step(v: ViewportState, op: NavOp, n: nat, h: nat) -> ViewportState {
    match op {
        NavOp::Up => scroll_up_spec(v, h),
        NavOp::Down => scroll_down_spec(v, n, h),
        NavOp::PageUp => page_up_spec(v, h),
        NavOp::PageDown => page_down_spec(v, n, h),
    }
}

/// The window after a whole sequence of navigation steps.
pub open spec fn nav_run(v: ViewportState, ops: Seq<NavOp>, n: nat, h: nat) -> ViewportState
    decreases ops.len(),
{
    if ops.len() == 0 {
        v
    } else {
        nav_run(nav_step(v, ops[0], n, h), ops.skip(1), n, h)
    }
}

/// Law: one navigation step keeps the window invariant, and on an empty
/// playlist it changes nothing.
pub proof fn lemma_nav_step_valid(v: ViewportState, op: NavOp, n: nat, h: nat)
    requires
        h >= 1,
        n <= usize::MAX,
        v.valid(n, h),
    ensures
        nav_step(v, op, n, h).valid(n, h),
        n == 0 ==> nav_step(v, op, n, h) == v,
{
}

/// Law: for every playlist length, every sequence of navigation operations
/// keeps the selection within `[0, max(1, n) - 1]` and inside the window;
/// on an empty playlist the whole sequence is a no-op.
pub proof fn lemma_nav_run_valid(v: ViewportState, ops: Seq<NavOp>, n: nat, h: nat)
    requires
        h >= 1,
        n <= usize::MAX,
        v.valid(n, h),
    ensures
        nav_run(v, ops, n, h).valid(n, h),
        n == 0 ==> nav_run(v, ops, n, h) == v,
    decreases ops.len(),
{
    if ops.len() > 0 {
        lemma_nav_step_valid(v, ops[0], n, h);
        lemma_nav_run_valid(nav_step(v, ops[0], n, h), ops.skip(1), n, h);
    }
}

} // verus!

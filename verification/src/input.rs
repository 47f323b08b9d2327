//! Keystroke handling: the keybinding table as a pure function from key code
//! to action, and the modal line editor of the incremental search prompt.

use vstd::prelude::*;
use vstd::string::{StrSliceExecFns, StringExecFns};

verus! {

/// The conventional curses key codes the bindings use.
pub const KEY_DOWN: i32 = 258;

pub const KEY_UP: i32 = 259;

pub const KEY_LEFT: i32 = 260;

pub const KEY_RIGHT: i32 = 261;

pub const KEY_NPAGE: i32 = 338;

pub const KEY_PPAGE: i32 = 339;

pub const KEY_ENTER: i32 = 10;

pub const KEY_ESC: i32 = 27;

pub const KEY_BACKSPACE: i32 = 127;

/// What one keystroke asks of the player or the view.
#[derive(Clone, Copy, PartialEq, Eq, Structural, Debug)]
pub enum Action {
    MoveUp,
    MoveDown,
    PageUp,
    PageDown,
    SeekBackward,
    SeekForward,
    PlaySelected,
    RestartCurrent,
    NextTrack,
    PreviousTrack,
    VolumeUp,
    VolumeDown,
    SpeedUp,
    SpeedDown,
    ToggleMute,
    NextMatch,
    JumpToCurrent,
    TogglePause,
    Quit,
    RemoveSelected,
    Stop,
    EnterSearch,
    RefreshPlaylist,
    Shuffle,
    Ignore,
}

/// The keybinding table as a mathematical function.
pub open spec fn action_spec(ch: int) -> Action {
    if ch == KEY_UP {
        Action::MoveUp
    } else if ch == KEY_DOWN {
        Action::MoveDown
    } else if ch == KEY_PPAGE {
        Action::PageUp
    } else if ch == KEY_NPAGE {
        Action::PageDown
    } else if ch == KEY_LEFT {
        Action::SeekBackward
    } else if ch == KEY_RIGHT {
        Action::SeekForward
    } else if ch == KEY_ENTER {
        Action::PlaySelected
    } else if ch == KEY_BACKSPACE {
        Action::RestartCurrent
    } else if ch == '>' as int {
        Action::NextTrack
    } else if ch == '<' as int {
        Action::PreviousTrack
    } else if ch == '+' as int {
        Action::VolumeUp
    } else if ch == '-' as int {
        Action::VolumeDown
    } else if ch == ']' as int {
        Action::SpeedUp
    } else if ch == '[' as int {
        Action::SpeedDown
    } else if ch == 'm' as int {
        Action::ToggleMute
    } else if ch == 'n' as int {
        Action::NextMatch
    } else if ch == 'o' as int {
        Action::JumpToCurrent
    } else if ch == 'p' as int {
        Action::TogglePause
    } else if ch == 'q' as int {
        Action::Quit
    } else if ch == 'r' as int {
        Action::RemoveSelected
    } else if ch == 's' as int {
        Action::Stop
    } else if ch == '/' as int {
        Action::EnterSearch
    } else if ch == 'u' as int {
        Action::RefreshPlaylist
    } else if ch == 'z' as int {
        Action::Shuffle
    } else {
        Action::Ignore
    }
}

/// The action bound to one keystroke; anything unbound is ignored.
pub fn action_for_key(ch: i32) -> (a: Action)
    ensures
        a == action_spec(ch as int),
{
    if ch == KEY_UP {
        Action::MoveUp
    } else if ch == KEY_DOWN {
        Action::MoveDown
    } else if ch == KEY_PPAGE {
        Action::PageUp
    } else if ch == KEY_NPAGE {
        Action::PageDown
    } else if ch == KEY_LEFT {
        Action::SeekBackward
    } else if ch == KEY_RIGHT {
        Action::SeekForward
    } else if ch == KEY_ENTER {
        Action::PlaySelected
    } else if ch == KEY_BACKSPACE {
        Action::RestartCurrent
    } else if ch == '>' as i32 {
        Action::NextTrack
    } else if ch == '<' as i32 {
        Action::PreviousTrack
    } else if ch == '+' as i32 {
        Action::VolumeUp
    } else if ch == '-' as i32 {
        Action::VolumeDown
    } else if ch == ']' as i32 {
        Action::SpeedUp
    } else if ch == '[' as i32 {
        Action::SpeedDown
    } else if ch == 'm' as i32 {
        Action::ToggleMute
    } else if ch == 'n' as i32 {
        Action::NextMatch
    } else if ch == 'o' as i32 {
        Action::JumpToCurrent
    } else if ch == 'p' as i32 {
        Action::TogglePause
    } else if ch == 'q' as i32 {
        Action::Quit
    } else if ch == 'r' as i32 {
        Action::RemoveSelected
    } else if ch == 's' as i32 {
        Action::Stop
    } else if ch == '/' as i32 {
        Action::EnterSearch
    } else if ch == 'u' as i32 {
        Action::RefreshPlaylist
    } else if ch == 'z' as i32 {
        Action::Shuffle
    } else {
        Action::Ignore
    }
}

/// How the search prompt reacted to one keystroke.
#[derive(Clone, Copy, PartialEq, Eq, Structural, Debug)]
pub enum SearchStep {
    /// The prompt was dismissed without searching.
    Cancelled,
    /// The pattern as it stands is to be searched for.
    Committed,
    /// The pattern changed; the prompt line is redrawn.
    Edited,
    /// The keystroke carried no character and was skipped.
    Ignored,
}

/// A key code that carries a character the pattern can hold: a non-negative
/// unicode scalar value.
pub open spec fn is_text_key(ch: int) -> bool {
    0 <= ch && (ch < 0xD800 || (0xE000 <= ch && ch <= 0x10FFFF))
}

/// Relies on char::from_u32: `Some` exactly for unicode scalar values (not a
/// surrogate, at most U+10FFFF), and the returned character is that value.
pub assume_specification[ char::from_u32 ](i: u32) -> (r: Option<char>)
    ensures
        (r is Some <==> (i < 0xD800 || (0xE000 <= i && i <= 0x10FFFF))),
        (r is Some ==> r->0 as u32 == i),
;

/// Relies on String::push: appends exactly the given character.
#[verifier::external_body]
fn push_char(s: &mut String, c: char)
    ensures
        final(s)@ == old(s)@.push(c),
{
    s.push(c);
}

/// One keystroke of the modal search prompt: escape cancels, enter commits,
/// backspace removes the last character, a character key appends, and a
/// keystroke that carries no character is skipped so that it cannot corrupt
/// the pattern.
pub fn search_input_step(pattern: &mut String, ch: i32) -> (r: SearchStep)
    ensures
        (ch == KEY_ESC ==> r == SearchStep::Cancelled && final(pattern)@ == old(pattern)@),
        (ch == KEY_ENTER ==> r == SearchStep::Committed && final(pattern)@ == old(pattern)@),
        (ch == KEY_BACKSPACE ==> r == SearchStep::Edited && final(pattern)@ == old(
            pattern,
        )@.take(vstd::math::max(old(pattern)@.len() as int - 1, 0))),
        (ch != KEY_ESC && ch != KEY_ENTER && ch != KEY_BACKSPACE && is_text_key(ch as int)
            ==> r == SearchStep::Edited && (exists|c: char|
            c as u32 == ch && final(pattern)@ == old(pattern)@.push(c))),
        (ch != KEY_ESC && ch != KEY_ENTER && ch != KEY_BACKSPACE && !is_text_key(ch as int)
            ==> r == SearchStep::Ignored && final(pattern)@ == old(pattern)@),
{
    if ch == KEY_ESC {
        SearchStep::Cancelled
    } else if ch == KEY_ENTER {
        SearchStep::Committed
    } else if ch == KEY_BACKSPACE {
        let len: usize = pattern.as_str().unicode_len();
        if len > 0 {
            let shortened: String = pattern.as_str().substring_char(0, len - 1).to_owned();
            *pattern = shortened;
        }
        proof {
            assert(pattern@ =~= old(pattern)@.take(
                vstd::math::max(old(pattern)@.len() as int - 1, 0),
            ));
        }
        SearchStep::Edited
    } else if ch >= 0 {
        match char::from_u32(ch as u32) {
            Some(c) => {
                push_char(pattern, c);
                SearchStep::Edited
            },
            None => SearchStep::Ignored,
        }
    } else {
        SearchStep::Ignored
    }
}

} // verus!

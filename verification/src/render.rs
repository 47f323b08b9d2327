//! Pure rendering: the exact text of every pane element. The render loop
//! computes its output here and only hands finished lines to the terminal.

use vstd::prelude::*;
use vstd::string::{StrSliceExecFns, StringExecFns};
use crate::numfmt::{
    dec_digits, get_pretty_time, percentage, percentage_spec, pretty_time_spec, two_digits,
    u64_to_dec, u64_two_digits,
};
use crate::player::Metadata;
use crate::playlist::{Playlist, PlaylistEntry};
use crate::viewport::ViewportState;

verus! {

/// `n` spaces.
pub open spec fn spaces(n: nat) -> Seq<char> {
    Seq::new(n, |i: int| ' ')
}

/// The gap between an entry's number and its name: wider for shorter
/// numbers, and holding the playing marker on the current entry.
pub open spec fn marker_spec(id: nat, current: bool) -> Seq<char> {
    if current {
        if id < 10 {
            seq![' ', ' ', ' ', '\u{25B6}', ' ']
        } else if id < 100 {
            seq![' ', ' ', '\u{25B6}', ' ']
        } else {
            seq![' ', '\u{25B6}', ' ']
        }
    } else {
        if id < 10 {
            seq![' ', ' ', ' ', ' ', ' ']
        } else if id < 100 {
            seq![' ', ' ', ' ', ' ']
        } else {
            seq![' ', ' ', ' ']
        }
    }
}

/// What a playlist row shows for an entry: its title, or its filename when
/// the title is empty.
pub open spec fn display_name_spec(e: PlaylistEntry) -> Seq<char> {
    if e.title@.len() == 0 {
        e.filename@
    } else {
        e.title@
    }
}

/// A playlist row before fitting: number, marker gap, name.
pub open spec fn row_base_spec(e: PlaylistEntry) -> Seq<char> {
    dec_digits(e.id as nat) + marker_spec(e.id as nat, e.current) + display_name_spec(e)
}

/// A playlist row fitted to the pane: truncated with an ellipsis when too
/// wide, padded with spaces to the full width otherwise.
pub open spec fn row_text_spec(e: PlaylistEntry, width: nat) -> Seq<char> {
    let base = row_base_spec(e);
    if base.len() > width {
        base.take(width - 3) + seq!['.', '.', '.']
    } else {
        base + spaces((width - base.len()) as nat)
    }
}

fn marker(id: usize, current: bool) -> (r: &'static str)
    ensures
        r@ == marker_spec(id as nat, current),
{
    proof {
        reveal_strlit("   \u{25B6} ");
        reveal_strlit("  \u{25B6} ");
        reveal_strlit(" \u{25B6} ");
        reveal_strlit("     ");
        reveal_strlit("    ");
        reveal_strlit("   ");
    }
    let r: &'static str = if current {
        if id < 10 {
            "   \u{25B6} "
        } else if id < 100 {
            "  \u{25B6} "
        } else {
            " \u{25B6} "
        }
    } else {
        if id < 10 {
            "     "
        } else if id < 100 {
            "    "
        } else {
            "   "
        }
    };
    proof {
        assert(r@ =~= marker_spec(id as nat, current));
    }
    r
}

/// One playlist row, exactly `width` characters.
pub fn format_row(e: &PlaylistEntry, width: usize) -> (r: String)
    requires
        3 <= width,
    ensures
        r@ == row_text_spec(*e, width as nat),
        r@.len() == width,
{
    let mut s = u64_to_dec(e.id as u64);
    s.append(marker(e.id, e.current));
    if e.title.as_str().is_empty() {
        s.append(e.filename.as_str());
    } else {
        s.append(e.title.as_str());
    }
    let ghost base: Seq<char> = row_base_spec(*e);
    proof {
        assert(s@ =~= base);
    }
    let len: usize = s.as_str().unicode_len();
    if len > width {
        let prefix = s.as_str().substring_char(0, width - 3);
        let mut out = prefix.to_owned();
        proof {
            reveal_strlit("...");
        }
        out.append("...");
        proof {
            assert(out@ =~= row_text_spec(*e, width as nat));
        }
        out
    } else {
        proof {
            reveal_strlit(" ");
            assert(s@ =~= base + spaces((len - base.len()) as nat));
        }
        let mut k: usize = len;
        while k < width
            invariant
                base.len() <= k <= width,
                s@ == base + spaces((k - base.len()) as nat),
            decreases width - k,
        {
            s.append(" ");
            proof {
                reveal_strlit(" ");
                assert(base + spaces((k - base.len()) as nat) + " "@ =~= base + spaces(
                    (k + 1 - base.len()) as nat,
                ));
            }
            k += 1;
        }
        proof {
            assert(s@ =~= row_text_spec(*e, width as nat));
        }
        s
    }
}

/// One visible playlist row, with the attributes it is drawn with.
pub struct Row {
    pub text: String,
    pub selected: bool,
    pub current: bool,
}

/// What the playlist pane shows: a placeholder line on an empty playlist,
/// otherwise the visible rows.
pub enum PlaylistPane {
    Empty(String),
    Rows(Vec<Row>),
}

/// The full content of the playlist pane for the given window: the rows from
/// `top_line` up to `bottom_line` or the playlist's end, each fitted to
/// `width`, the selected one and the current one marked.
pub fn render_playlist_rows(playlist: &Playlist, canvas: &ViewportState, width: usize) -> (p:
    PlaylistPane)
    requires
        3 <= width,
    ensures
        (playlist.entries@.len() == 0 ==> (p matches PlaylistPane::Empty(m)
            && m@ == "Playlist is empty"@)),
        (playlist.entries@.len() > 0 ==> (p matches PlaylistPane::Rows(rows) && {
            let lo = canvas.top_line as int;
            let hi = vstd::math::min(
                canvas.bottom_line as int,
                playlist.entries@.len() as int,
            );
            &&& rows@.len() == (if lo <= hi {
                hi - lo
            } else {
                0
            })
            &&& forall|k: int|
                0 <= k < rows@.len() ==> (#[trigger] rows@[k]).text@ == row_text_spec(
                    playlist.entries@[lo + k],
                    width as nat,
                ) && rows@[k].selected == (lo + k == canvas.selected_line)
                    && rows@[k].current == playlist.entries@[lo + k].current
        })),

{
    let n: usize = playlist.entries.len();
    if n == 0 {
        return PlaylistPane::Empty(String::from_str("Playlist is empty"));
    }
    let hi: usize = if canvas.bottom_line < n {
        canvas.bottom_line
    } else {
        n
    };
    let mut rows: Vec<Row> = Vec::new();
    let mut i: usize = canvas.top_line;
    if i > hi {
        return PlaylistPane::Rows(rows);
    }
    while i < hi
        invariant
            canvas.top_line <= i <= hi,
            hi == vstd::math::min(canvas.bottom_line as int, playlist.entries@.len() as int),
            hi <= playlist.entries@.len(),
            3 <= width,
            rows@.len() == i - canvas.top_line,
            forall|k: int|
                0 <= k < rows@.len() ==> (#[trigger] rows@[k]).text@ == row_text_spec(
                    playlist.entries@[canvas.top_line + k],
                    width as nat,
                ) && rows@[k].selected == (canvas.top_line + k == canvas.selected_line)
                    && rows@[k].current == playlist.entries@[canvas.top_line + k].current,
        decreases hi - i,
    {
        let e = &playlist.entries[i];
        let text = format_row(e, width);
        rows.push(Row { text, selected: i == canvas.selected_line, current: e.current });
        i += 1;
    }
    PlaylistPane::Rows(rows)
}

/// Where the progress bar switches from filled to empty.
pub open spec fn bar_boundary_spec(width: nat, pct: nat) -> int {
    vstd::math::min((width * pct / 100) as int, width as int)
}

/// The glyph at position `i` of a progress bar with the given boundary.
pub open spec fn bar_char_spec(i: int, boundary: int) -> char {
    if i < boundary {
        '='
    } else if i == boundary {
        '>'
    } else {
        '-'
    }
}

/// The progress bar line: `width` glyphs, filled up to the elapsed
/// proportion, a cursor at the boundary, empty beyond it.
pub fn progress_bar(width: usize, pct: u64) -> (r: String)
    ensures
        r@.len() == width,
        forall|i: int|
            0 <= i < width ==> r@[i] == bar_char_spec(
                i,
                bar_boundary_spec(width as nat, pct as nat),
            ),
{
    let p: u64 = if pct > 100 {
        100
    } else {
        pct
    };
    proof {
        assert((width as int) * (p as int) <= (width as int) * 100) by (nonlinear_arith)
            requires
                0 <= width as int,
                p as int <= 100,
        ;
    }
    let wide: u128 = (width as u128) * (p as u128) / 100;
    let boundary: usize = if wide >= width as u128 {
        width
    } else {
        wide as usize
    };
    proof {
        if pct > 100 {
            assert((width as int) * (pct as int) / 100 >= (width as int) * 100 / 100)
                by (nonlinear_arith)
                requires
                    100 <= pct as int,
                    0 <= width as int,
            ;
            assert((width as int) * 100 / 100 == width as int) by (nonlinear_arith);
        }
        assert(boundary as int == bar_boundary_spec(width as nat, pct as nat));
        reveal_strlit("=");
        reveal_strlit(">");
        reveal_strlit("-");
    }
    let mut s = String::new();
    let mut i: usize = 0;
    while i < width
        invariant
            i <= width,
            s@.len() == i,
            boundary as int == bar_boundary_spec(width as nat, pct as nat),
            "="@ == seq!['='] && ">"@ == seq!['>'] && "-"@ == seq!['-'],
            forall|k: int| 0 <= k < i ==> s@[k] == bar_char_spec(k, boundary as int),
        decreases width - i,
    {
        if i < boundary {
            s.append("=");
        } else if i == boundary {
            s.append(">");
        } else {
            s.append("-");
        }
        i += 1;
    }
    s
}

/// The status-bar time text: elapsed, total, and the elapsed percentage.
pub open spec fn time_text_spec(time_pos: nat, duration: nat) -> Seq<char> {
    seq![' ', ' ', ' ', ' '] + pretty_time_spec(time_pos) + seq![' ', '/', ' ']
        + pretty_time_spec(duration) + seq![' ', '('] + dec_digits(
        percentage_spec(time_pos, duration),
    ) + seq!['%', ')']
}

/// The right-aligned "elapsed / total (pct%)" status line.
pub fn format_time_text(time_pos: u64, duration: u64) -> (r: String)
    requires
        time_pos <= u64::MAX / 100,
    ensures
        r@ == time_text_spec(time_pos as nat, duration as nat),
{
    proof {
        reveal_strlit("    ");
        reveal_strlit(" / ");
        reveal_strlit(" (");
        reveal_strlit("%)");
    }
    let mut s = String::from_str("    ");
    let elapsed = get_pretty_time(time_pos);
    s.append(elapsed.as_str());
    s.append(" / ");
    let total = get_pretty_time(duration);
    s.append(total.as_str());
    s.append(" (");
    let pct = u64_to_dec(percentage(time_pos, duration));
    s.append(pct.as_str());
    s.append("%)");
    proof {
        assert(s@ =~= time_text_spec(time_pos as nat, duration as nat));
    }
    s
}

/// The column a line of length `len` starts at to sit against the right edge
/// of a pane `width` columns wide.
pub fn right_align_col(width: usize, len: usize) -> (c: usize)
    ensures
        c == if len <= width {
            (width - len) as int
        } else {
            0
        },
{
    if len <= width {
        width - len
    } else {
        0
    }
}

/// The top-bar speed text, the speed in hundredths shown with two decimals.
pub open spec fn speed_text_spec(centi: nat) -> Seq<char> {
    "  Speed: "@ + dec_digits(centi / 100) + seq!['.'] + two_digits(centi % 100) + seq![' ']
}

/// The right-aligned speed display.
pub fn speed_text(speed_centi: u64) -> (r: String)
    ensures
        r@ == speed_text_spec(speed_centi as nat),
{
    proof {
        reveal_strlit("  Speed: ");
        reveal_strlit(".");
        reveal_strlit(" ");
    }
    let mut s = String::from_str("  Speed: ");
    let whole = u64_to_dec(speed_centi / 100);
    s.append(whole.as_str());
    s.append(".");
    let frac = u64_two_digits(speed_centi % 100);
    s.append(frac.as_str());
    s.append(" ");
    proof {
        assert(s@ =~= speed_text_spec(speed_centi as nat));
    }
    s
}

/// The top-bar volume text, in whole percent.
pub open spec fn volume_text_spec(volume: nat) -> Seq<char> {
    "  Volume: "@ + dec_digits(volume) + seq!['%']
}

/// The right-aligned volume display.
pub fn volume_text(volume: u64) -> (r: String)
    ensures
        r@ == volume_text_spec(volume as nat),
{
    proof {
        reveal_strlit("  Volume: ");
        reveal_strlit("%");
    }
    let mut s = String::from_str("  Volume: ");
    let v = u64_to_dec(volume);
    s.append(v.as_str());
    s.append("%");
    proof {
        assert(s@ =~= volume_text_spec(volume as nat));
    }
    s
}

/// The title the metadata reports, if any.
pub open spec fn title_of(md: Option<Metadata>) -> Option<Seq<char>> {
    match md {
        Some(m) => match m.title {
            Some(t) => Some(t@),
            None => None,
        },
        None => None,
    }
}

/// The artist the metadata reports, if any.
pub open spec fn artist_of(md: Option<Metadata>) -> Option<Seq<char>> {
    match md {
        Some(m) => match m.artist {
            Some(a) => Some(a@),
            None => None,
        },
        None => None,
    }
}

/// The top-bar title line: the metadata title, else the player's own title
/// property, else a placeholder.
pub open spec fn title_line_spec(md: Option<Metadata>, fallback: Option<Seq<char>>) -> Seq<
    char,
> {
    "Title:  "@ + (if title_of(md) is Some {
        title_of(md)->0
    } else if fallback is Some {
        fallback->0
    } else {
        "<empty>"@
    })
}

/// The title line of the top bar.
pub fn metadata_title_line(metadata: &Option<Metadata>, fallback: &Option<String>) -> (r:
    String)
    ensures
        r@ == title_line_spec(
            *metadata,
            match *fallback {
                Some(f) => Some(f@),
                None => None,
            },
        ),
{
    proof {
        reveal_strlit("Title:  ");
        reveal_strlit("<empty>");
    }
    let mut s = String::from_str("Title:  ");
    let mut done: bool = false;
    if let Some(m) = metadata {
        if let Some(t) = &m.title {
            s.append(t.as_str());
            done = true;
        }
    }
    if !done {
        match fallback {
            Some(f) => s.append(f.as_str()),
            None => s.append("<empty>"),
        }
    }
    s
}

/// The top-bar artist line: the metadata artist, else a placeholder.
pub open spec fn artist_line_spec(md: Option<Metadata>) -> Seq<char> {
    "Artist: "@ + (if artist_of(md) is Some {
        artist_of(md)->0
    } else {
        "<empty>"@
    })
}

/// The artist line of the top bar.
pub fn metadata_artist_line(metadata: &Option<Metadata>) -> (r: String)
    ensures
        r@ == artist_line_spec(*metadata),
{
    proof {
        reveal_strlit("Artist: ");
        reveal_strlit("<empty>");
    }
    let mut s = String::from_str("Artist: ");
    let mut done: bool = false;
    if let Some(m) = metadata {
        if let Some(a) = &m.artist {
            s.append(a.as_str());
            done = true;
        }
    }
    if !done {
        s.append("<empty>");
    }
    s
}

/// The transient status text for a failed player command.
pub fn error_message(detail: &str) -> (r: String)
    ensures
        r@ == "Error: "@ + detail@,
{
    proof {
        reveal_strlit("Error: ");
    }
    let mut s = String::from_str("Error: ");
    s.append(detail);
    s
}

} // verus!

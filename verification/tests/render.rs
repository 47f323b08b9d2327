use mpvtui::player::Metadata;
use mpvtui::playlist::{Playlist, PlaylistEntry};
use mpvtui::render::{
    error_message, format_row, format_time_text, metadata_artist_line, metadata_title_line,
    progress_bar, render_playlist_rows, right_align_col, speed_text, volume_text, PlaylistPane,
};
use mpvtui::viewport::ViewportState;

fn entry(id: usize, filename: &str, title: &str, current: bool) -> PlaylistEntry {
    PlaylistEntry { id, filename: String::from(filename), title: String::from(title), current }
}

fn window(top: usize, bottom: usize, selected: usize) -> ViewportState {
    ViewportState { top_line: top, bottom_line: bottom, selected_line: selected }
}

#[test]
fn row_shows_id_marker_and_title() {
    let e = entry(3, "three.mp3", "Three", true);
    assert_eq!(format_row(&e, 16), "3   \u{25B6} Three     ");
}

#[test]
fn row_without_marker_keeps_the_gap() {
    let e = entry(3, "three.mp3", "Three", false);
    assert_eq!(format_row(&e, 16), "3     Three     ");
}

#[test]
fn row_falls_back_to_filename() {
    let e = entry(0, "nameless.mp3", "", false);
    assert_eq!(format_row(&e, 20), "0     nameless.mp3  ");
}

#[test]
fn row_marker_gap_narrows_for_wider_ids() {
    assert_eq!(format_row(&entry(7, "f", "T", true), 10), "7   \u{25B6} T   ");
    assert_eq!(format_row(&entry(42, "f", "T", true), 10), "42  \u{25B6} T   ");
    assert_eq!(format_row(&entry(420, "f", "T", true), 10), "420 \u{25B6} T   ");
}

#[test]
fn row_truncates_with_ellipsis() {
    let e = entry(1, "f", "A very long title indeed", false);
    let row = format_row(&e, 12);
    assert_eq!(row.chars().count(), 12);
    assert_eq!(row, "1     A v...");
}

#[test]
fn empty_playlist_shows_placeholder() {
    let pl = Playlist { entries: vec![] };
    match render_playlist_rows(&pl, &window(0, 5, 0), 20) {
        PlaylistPane::Empty(m) => assert_eq!(m, "Playlist is empty"),
        PlaylistPane::Rows(_) => panic!("expected the placeholder"),
    }
}

#[test]
fn visible_rows_follow_the_window() {
    let pl = Playlist {
        entries: (0..10).map(|i| entry(i, "f.mp3", &format!("T{}", i), i == 4)).collect(),
    };
    match render_playlist_rows(&pl, &window(3, 6, 4), 10) {
        PlaylistPane::Rows(rows) => {
            assert_eq!(rows.len(), 3);
            assert_eq!(rows[0].text, "3     T3  ");
            assert!(!rows[0].selected && !rows[0].current);
            assert_eq!(rows[1].text, "4   \u{25B6} T4  ");
            assert!(rows[1].selected && rows[1].current);
            assert_eq!(rows[2].text, "5     T5  ");
        }
        PlaylistPane::Empty(_) => panic!("expected rows"),
    }
}

#[test]
fn rows_stop_at_the_playlist_end() {
    let pl = Playlist { entries: (0..4).map(|i| entry(i, "f", "T", false)).collect() };
    match render_playlist_rows(&pl, &window(2, 8, 2), 8) {
        PlaylistPane::Rows(rows) => assert_eq!(rows.len(), 2),
        PlaylistPane::Empty(_) => panic!("expected rows"),
    }
}

#[test]
fn progress_bar_halfway() {
    assert_eq!(progress_bar(10, 50), "=====>----");
}

#[test]
fn progress_bar_at_start() {
    assert_eq!(progress_bar(10, 0), ">---------");
}

#[test]
fn progress_bar_at_full() {
    assert_eq!(progress_bar(10, 100), "==========");
}

#[test]
fn progress_bar_beyond_full_stays_full() {
    assert_eq!(progress_bar(10, 250), "==========");
}

#[test]
fn time_text_shows_elapsed_total_and_percent() {
    assert_eq!(format_time_text(65, 130), "    01:05 / 02:10 (50%)");
}

#[test]
fn time_text_with_zero_duration() {
    assert_eq!(format_time_text(0, 0), "    00:00 / 00:00 (0%)");
}

#[test]
fn right_alignment_column() {
    assert_eq!(right_align_col(80, 10), 70);
    assert_eq!(right_align_col(5, 10), 0);
}

#[test]
fn speed_line_shows_two_decimals() {
    assert_eq!(speed_text(100), "  Speed: 1.00 ");
    assert_eq!(speed_text(105), "  Speed: 1.05 ");
    assert_eq!(speed_text(95), "  Speed: 0.95 ");
    assert_eq!(speed_text(250), "  Speed: 2.50 ");
}

#[test]
fn volume_line_shows_percent() {
    assert_eq!(volume_text(50), "  Volume: 50%");
    assert_eq!(volume_text(0), "  Volume: 0%");
}

#[test]
fn title_line_prefers_metadata() {
    let md = Some(Metadata { title: Some(String::from("Song")), artist: None });
    let fb = Some(String::from("stream name"));
    assert_eq!(metadata_title_line(&md, &fb), "Title:  Song");
}

#[test]
fn title_line_falls_back_to_player_title() {
    let md = Some(Metadata { title: None, artist: None });
    let fb = Some(String::from("stream name"));
    assert_eq!(metadata_title_line(&md, &fb), "Title:  stream name");
}

#[test]
fn title_line_placeholder_when_nothing_known() {
    assert_eq!(metadata_title_line(&None, &None), "Title:  <empty>");
}

#[test]
fn artist_line_from_metadata() {
    let md = Some(Metadata { title: None, artist: Some(String::from("Band")) });
    assert_eq!(metadata_artist_line(&md), "Artist: Band");
}

#[test]
fn artist_line_placeholder() {
    let md = Some(Metadata { title: Some(String::from("Song")), artist: None });
    assert_eq!(metadata_artist_line(&md), "Artist: <empty>");
    assert_eq!(metadata_artist_line(&None), "Artist: <empty>");
}

#[test]
fn error_text_names_the_failure() {
    assert_eq!(error_message("seek failed"), "Error: seek failed");
}

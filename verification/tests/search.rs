use mpvtui::player::{commit_search, select_next_match, PlayerState, SearchOutcome};
use mpvtui::playlist::{search_playlist, Playlist, PlaylistEntry};
use mpvtui::viewport::ViewportState;

fn entry(id: usize, filename: &str, title: &str) -> PlaylistEntry {
    PlaylistEntry {
        id,
        filename: String::from(filename),
        title: String::from(title),
        current: false,
    }
}

fn titled_playlist(titles: &[&str]) -> Playlist {
    Playlist {
        entries: titles
            .iter()
            .enumerate()
            .map(|(i, t)| entry(i, "song.mp3", t))
            .collect(),
    }
}

fn window(top: usize, bottom: usize, selected: usize) -> ViewportState {
    ViewportState { top_line: top, bottom_line: bottom, selected_line: selected }
}

#[test]
fn search_finds_matching_titles_in_order() {
    let pl = titled_playlist(&["Alpha", "Beta", "Alphabet"]);
    assert_eq!(search_playlist(&pl, "Alpha"), vec![0, 2]);
}

#[test]
fn search_empty_pattern_finds_nothing() {
    let pl = titled_playlist(&["Alpha", "Beta", "Alphabet"]);
    assert_eq!(search_playlist(&pl, ""), Vec::<usize>::new());
}

#[test]
fn search_is_case_sensitive() {
    let pl = titled_playlist(&["Alpha", "Beta", "Alphabet"]);
    assert_eq!(search_playlist(&pl, "alpha"), Vec::<usize>::new());
}

#[test]
fn search_matches_filenames_too() {
    let pl = Playlist {
        entries: vec![
            entry(0, "intro.mp3", ""),
            entry(1, "outro.mp3", "Closing"),
            entry(2, "interlude.ogg", ""),
        ],
    };
    assert_eq!(search_playlist(&pl, "intr"), vec![0]);
    assert_eq!(search_playlist(&pl, "o.mp3"), vec![0, 1]);
}

#[test]
fn search_inside_the_middle_of_a_word() {
    let pl = titled_playlist(&["abcdef"]);
    assert_eq!(search_playlist(&pl, "cde"), vec![0]);
    assert_eq!(search_playlist(&pl, "cf"), Vec::<usize>::new());
}

#[test]
fn search_empty_playlist() {
    let pl = titled_playlist(&[]);
    assert_eq!(search_playlist(&pl, "x"), Vec::<usize>::new());
}

#[test]
fn commit_search_centers_on_first_match() {
    let titles: Vec<String> = (0..100).map(|i| format!("track {}", i)).collect();
    let title_refs: Vec<&str> = titles.iter().map(|s| s.as_str()).collect();
    let pl = titled_playlist(&title_refs);
    let mut player = PlayerState::initial(pl, None);
    let canvas = window(0, 20, 0);
    let outcome = commit_search(&mut player, &canvas, "track 50");
    assert_eq!(outcome, SearchOutcome::Centered(window(40, 60, 50)));
    assert_eq!(player.search_results, vec![50]);
    assert_eq!(player.search_cursor, 0);
}

#[test]
fn commit_search_empty_pattern_clears() {
    let pl = titled_playlist(&["Alpha"]);
    let mut player = PlayerState::initial(pl, None);
    player.search_results = vec![0];
    let canvas = window(0, 20, 0);
    let outcome = commit_search(&mut player, &canvas, "");
    assert_eq!(outcome, SearchOutcome::Cleared);
    assert!(player.search_results.is_empty());
}

#[test]
fn commit_search_without_matches_reports_not_found() {
    let pl = titled_playlist(&["Alpha", "Beta"]);
    let mut player = PlayerState::initial(pl, None);
    let canvas = window(0, 20, 0);
    let outcome = commit_search(&mut player, &canvas, "Gamma");
    assert_eq!(outcome, SearchOutcome::NotFound);
    assert!(player.search_results.is_empty());
}

#[test]
fn commit_search_with_foreign_id_leaves_window() {
    let pl = Playlist { entries: vec![entry(9, "only.mp3", "Only")] };
    let mut player = PlayerState::initial(pl, None);
    let canvas = window(0, 20, 0);
    let outcome = commit_search(&mut player, &canvas, "Only");
    assert_eq!(outcome, SearchOutcome::Unmoved);
    assert_eq!(player.search_results, vec![9]);
}

#[test]
fn next_match_cycles_through_results() {
    let titles: Vec<String> = (0..100)
        .map(|i| if i % 30 == 10 { String::from("hit") } else { format!("track {}", i) })
        .collect();
    let title_refs: Vec<&str> = titles.iter().map(|s| s.as_str()).collect();
    let pl = titled_playlist(&title_refs);
    let mut player = PlayerState::initial(pl, None);
    let canvas = window(0, 20, 0);
    let outcome = commit_search(&mut player, &canvas, "hit");
    assert_eq!(player.search_results, vec![10, 40, 70]);
    assert!(matches!(outcome, SearchOutcome::Centered(_)));
    let mut cursors = Vec::new();
    for _ in 0..5 {
        let centered = select_next_match(&mut player, &canvas);
        assert!(centered.is_some());
        cursors.push(player.search_cursor);
    }
    assert_eq!(cursors, vec![1, 2, 0, 1, 2]);
}

#[test]
fn next_match_without_results_does_nothing() {
    let pl = titled_playlist(&["Alpha"]);
    let mut player = PlayerState::initial(pl, None);
    let canvas = window(0, 20, 0);
    assert!(select_next_match(&mut player, &canvas).is_none());
    assert_eq!(player.search_cursor, 0);
}

#[test]
fn next_match_centers_each_hit() {
    let titles: Vec<String> = (0..100)
        .map(|i| if i == 5 || i == 50 { String::from("hit") } else { format!("track {}", i) })
        .collect();
    let title_refs: Vec<&str> = titles.iter().map(|s| s.as_str()).collect();
    let pl = titled_playlist(&title_refs);
    let mut player = PlayerState::initial(pl, None);
    let canvas = window(0, 20, 0);
    commit_search(&mut player, &canvas, "hit");
    let v = select_next_match(&mut player, &canvas).unwrap();
    assert_eq!(v, window(40, 60, 50));
    let v = select_next_match(&mut player, &canvas).unwrap();
    assert_eq!(v, window(0, 20, 5));
}

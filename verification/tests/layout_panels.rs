use reverb::layout::{
    draw_line_cells, progress_bar_text, push_helper, push_width_aware, right_third_geometry, song_name_line, spaces,
    time_text,
};
use reverb::panel::{playlist_panel_lines, queue_panel_lines, right_panel_layout};
use reverb::player::{autoskip_action, song_duration_gone, time_left, AutoskipAction, AutoskipFollowUp, NANOS_PER_SECOND};
use reverb::song::{ExternalSong, LocalSong, PlaceholderExternalSong, Song, SongInfo};

fn local(title: &str, artist: &str) -> Song {
    Song {
        song_type: ExternalSong::LOCAL(LocalSong { song_path: "p".to_string(), duration_nanos: 5 }),
        info: SongInfo { title: title.to_string(), artists: vec![artist.to_string()] },
    }
}

fn youtube(title: &str, artist: &str) -> Song {
    Song {
        song_type: ExternalSong::YOUTUBE(PlaceholderExternalSong),
        info: SongInfo { title: title.to_string(), artists: vec![artist.to_string()] },
    }
}

#[test]
fn push_width_aware_fits_on_the_line() {
    let mut line = "ab".to_string();
    let mut list: Vec<String> = Vec::new();
    push_width_aware(&mut line, "cd", "  ", " ", &mut list, 10);
    assert_eq!(line, "ab cd");
    assert!(list.is_empty());
    let mut empty = String::new();
    push_width_aware(&mut empty, "xy", "  ", " ", &mut list, 10);
    assert_eq!(empty, "xy");
}

#[test]
fn push_width_aware_starts_a_new_line() {
    let mut line = "abcdef".to_string();
    let mut list: Vec<String> = Vec::new();
    push_width_aware(&mut line, "ghij", "> ", " ", &mut list, 10);
    assert_eq!(list, vec!["abcdef    ".to_string()]);
    assert_eq!(line, "> ghij");
}

#[test]
fn push_width_aware_cuts_what_cannot_fit() {
    let mut line = "ab".to_string();
    let mut list: Vec<String> = Vec::new();
    push_width_aware(&mut line, "abcdefghijklmnop", "> ", " ", &mut list, 10);
    assert_eq!(list, vec!["ab        ".to_string(), "> abcde...".to_string()]);
    assert_eq!(line, "");
    assert!(list.iter().all(|l| l.chars().count() == 10));
}

#[test]
fn song_name_is_padded_or_cut() {
    assert_eq!(song_name_line("Hello", 8), "Hello   ");
    assert_eq!(song_name_line("Hello world", 8), "Hello...");
}

#[test]
fn line_cells() {
    assert_eq!(draw_line_cells((2, 1), (2, 3)), vec![(2, 1, '|'), (2, 2, '|'), (2, 3, '|')]);
    assert_eq!(draw_line_cells((1, 4), (3, 4)), vec![(1, 4, '-'), (2, 4, '-'), (3, 4, '-')]);
    assert_eq!(draw_line_cells((5, 5), (3, 3)), vec![]);
    assert_eq!(draw_line_cells((2, 3), (2, 1)), vec![]);
}

#[test]
fn times_and_progress() {
    assert_eq!(time_text(75), "1:15");
    assert_eq!(time_text(5), "0:05");
    assert_eq!(time_text(3600 + 61), "1:01");
    assert_eq!(progress_bar_text(20, 30, 90, 3), "0:30[===       ]1:30");
    assert_eq!(spaces(3), "   ");
}

#[test]
fn right_third_reaches_the_edge() {
    assert_eq!(right_third_geometry(80), (54, 26));
    assert_eq!(right_third_geometry(0), (2, 0));
    for w in 2u16..200 {
        let (start, width) = right_third_geometry(w);
        assert_eq!(start + width, w);
    }
}

#[test]
fn queue_panel_lists_the_songs_after_the_current_one() {
    let songs = vec![local("Now", "X"), local("Song A", "Art"), youtube("B", "C"), local("Late", "Z")];
    assert_eq!(
        queue_panel_lines(20, 4, &songs),
        vec![
            "Queue:              ".to_string(),
            "1. Song A - Art     ".to_string(),
            "  (local)           ".to_string(),
            "2. B - C  (youtube) ".to_string(),
        ]
    );
}

#[test]
fn queue_panel_fills_with_blank_lines() {
    let songs = vec![local("Now", "X")];
    assert_eq!(
        queue_panel_lines(10, 3, &songs),
        vec!["Queue:    ".to_string(), "          ".to_string(), "          ".to_string()]
    );
    assert!(queue_panel_lines(6, 3, &songs).is_empty());
    assert!(queue_panel_lines(10, 0, &songs).is_empty());
}

#[test]
fn playlist_panel_heads_with_the_name() {
    let songs = vec![youtube("B", "C")];
    assert_eq!(
        playlist_panel_lines(20, 3, "Mix", &songs),
        vec![
            "Playlist:Mix        ".to_string(),
            "1. B - C  (youtube) ".to_string(),
            "                    ".to_string(),
        ]
    );
    assert!(playlist_panel_lines(8, 3, "Mix", &songs).is_empty());
}

#[test]
fn right_panel_wraps_words_and_blanks_the_rest() {
    let rows = right_panel_layout("hello world\nfoo", 10, 25);
    assert_eq!(
        rows,
        vec![
            (2, "hello     ".to_string()),
            (3, "  world   ".to_string()),
            (4, "foo       ".to_string()),
            (5, "          ".to_string()),
        ]
    );
}

#[test]
fn right_panel_stops_a_paragraph_at_the_limit() {
    let rows = right_panel_layout("a b c d e f", 3, 23);
    assert_eq!(rows, vec![(2, "a b".to_string()), (3, "   ".to_string())]);
}

#[test]
fn right_panel_stops_every_paragraph_at_the_limit() {
    let rows = right_panel_layout("a\nb\nc\nd", 26, 24);
    let line = |c: &str| format!("{:<26}", c);
    assert_eq!(rows, vec![(2, line("a")), (3, line("b")), (4, line(""))]);
    assert!(rows.iter().all(|(row, _)| (2..=4).contains(row)));
}

#[test]
fn right_panel_on_a_short_terminal_places_nothing() {
    assert!(right_panel_layout("hello", 10, 21).is_empty());
    assert_eq!(right_panel_layout("hello", 10, 22), vec![(2, "          ".to_string())]);
}

#[test]
fn autoskip_decisions() {
    assert_eq!(autoskip_action(false, 10, 3), AutoskipAction::Nothing);
    assert_eq!(autoskip_action(true, 10, 10), AutoskipAction::SkipNow);
    assert_eq!(
        autoskip_action(true, 10, 3),
        AutoskipAction::Wait { time_left: 7, then: AutoskipFollowUp::QueueNext }
    );
    assert_eq!(
        autoskip_action(true, 5 * NANOS_PER_SECOND, NANOS_PER_SECOND),
        AutoskipAction::Wait { time_left: 4 * NANOS_PER_SECOND, then: AutoskipFollowUp::UpdateAutoskip }
    );
}

#[test]
fn played_and_left_parts() {
    assert_eq!(song_duration_gone(4, 10), 4);
    assert_eq!(song_duration_gone(12, 10), 10);
    assert_eq!(time_left(4, 10), 6);
    assert_eq!(time_left(12, 10), 0);
    let position = 3u128;
    let duration = 9u128;
    let gone = song_duration_gone(position, duration);
    assert_eq!(
        autoskip_action(true, duration, gone),
        AutoskipAction::Wait { time_left: time_left(position, duration), then: AutoskipFollowUp::QueueNext }
    );
}

#[test]
fn older_line_builder() {
    let mut line = "Song".to_string();
    let mut list: Vec<String> = Vec::new();
    push_helper(&mut line, "Art", "  ", " - ", &mut list, 12);
    assert_eq!(line, "Song - Art");
    assert!(list.is_empty());
    push_helper(&mut line, "(local)", "  ", "  ", &mut list, 12);
    assert_eq!(list, vec!["Song - Art".to_string()]);
    assert_eq!(line, "  (local)");
    let mut short = "ab".to_string();
    push_helper(&mut short, "abcdefghijklmnop", "> ", " ", &mut list, 10);
    assert_eq!(list, vec!["Song - Art".to_string(), "ab".to_string(), "> abcde...".to_string()]);
    assert_eq!(short, "");
}

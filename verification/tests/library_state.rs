use std::collections::VecDeque;

use reverb::config::{Config, ServerConfig};
use reverb::connection::ConnectionStatus;
use reverb::failure::FailureType;
use reverb::internal::Internal;
use reverb::playlist::Playlist;
use reverb::queue::Queue;
use reverb::song::{
    parse_song_params, split_once_space, ExternalSong, ExternalType, LocalSong, PlaceholderExternalSong,
    Song, SongInfo,
};

fn song(title: &str) -> Song {
    Song {
        song_type: ExternalSong::LOCAL(LocalSong { song_path: format!("{}.mp3", title), duration_nanos: 7 }),
        info: SongInfo { title: title.to_string(), artists: vec!["Artist".to_string()] },
    }
}

fn titles(songs: &[Song]) -> Vec<String> {
    songs.iter().map(|s| s.info.title.clone()).collect()
}

fn queue_titles(q: &Queue) -> Vec<String> {
    titles(&q.get_songs())
}

#[test]
fn external_types_by_name() {
    assert_eq!(ExternalType::get_from_str("local").ok(), Some(ExternalType::LOCAL));
    assert_eq!(ExternalType::get_from_str("youtube").ok(), Some(ExternalType::YOUTUBE));
    let err = ExternalType::get_from_str("spotify").err().unwrap();
    assert_eq!(err.error_message(), "Unknown external type: spotify");
    assert_eq!(ExternalType::YOUTUBE.name(), "youtube");
    assert!(song("a").song_type.same_type(&ExternalType::LOCAL));
    assert_eq!(song("a").song_type.as_type(), ExternalType::LOCAL);
    assert_eq!(ExternalSong::YOUTUBE(PlaceholderExternalSong).as_type(), ExternalType::YOUTUBE);
}

#[test]
fn song_parameters() {
    let (t, info) = parse_song_params("local dir/my song.mp3").ok().unwrap();
    assert_eq!(t, ExternalType::LOCAL);
    assert_eq!(info, "dir/my song.mp3");
    assert_eq!(parse_song_params("local").err().unwrap().error_message(), "invalid song parameters: local");
    assert_eq!(split_once_space("a b c"), Some(("a".to_string(), "b c".to_string())));
    assert_eq!(split_once_space("abc"), None);
}

#[test]
fn song_info_from_tags() {
    let local = LocalSong { song_path: "/m/x.mp3".to_string(), duration_nanos: 9 };
    assert_eq!(local.get_duration(), 9);
    let info = local.info_from_tag(None, None);
    assert_eq!(info.title, "/m/x.mp3");
    assert_eq!(info.artists, vec!["Unknown Artist".to_string()]);
    let tagged = local.info_from_tag(Some("T".to_string()), Some(vec!["A".to_string()]));
    assert_eq!(tagged.title, "T");
    assert_eq!(tagged.artists, vec!["A".to_string()]);
}

#[test]
fn queue_moves_on_and_keeps_its_current_song() {
    let mut q = Queue::new(song("a"));
    q.add(song("b"));
    q.add(song("c"));
    assert_eq!(queue_titles(&q), vec!["a", "b", "c"]);
    assert_eq!(q.next().ok().unwrap().info.title, "b");
    assert_eq!(q.current_song().ok().unwrap().info.title, "b");
    q.clear();
    assert_eq!(queue_titles(&q), vec!["b"]);
    let err = q.next().err().unwrap();
    assert_eq!(err.error_message(), "Queue has only one song or is empty");
    assert_eq!(err.failure_type(), FailureType::Warning);
}

#[test]
fn queue_removal_rules() {
    let mut q = Queue::new(song("a"));
    assert_eq!(q.remove(1).err().unwrap().error_message(), "Cannot remove song from queue: only one song in queue");
    q.add(song("b"));
    assert_eq!(q.remove(0).err().unwrap().error_message(), "Cannot remove currently playing song from queue at index 0");
    assert_eq!(q.remove(5).err().unwrap().error_message(), "Invalid song index (too large): 5");
    assert!(q.remove(1).is_ok());
    assert_eq!(queue_titles(&q), vec!["a"]);
}

#[test]
fn queue_takes_a_playlist_in_reverse_at_the_front() {
    let mut q = Queue::new(song("now"));
    let mut p = Playlist::new("p", None);
    p.add(&song("x"));
    p.add(&song("y"));
    q.load_playlist(&p);
    assert_eq!(queue_titles(&q), vec!["y", "x", "now"]);
    q.replace_current(song("z"));
    assert_eq!(queue_titles(&q), vec!["z", "x", "now"]);
    let copy = q.copy();
    assert_eq!(queue_titles(&copy), vec!["z", "x", "now"]);
    let raw = Queue { queued_songs: VecDeque::new() };
    assert_eq!(raw.current_song().err().unwrap().error_message(), "Queue is empty");
}

#[test]
fn playlist_edits() {
    let mut p = Playlist::new("mix", Some(ExternalType::LOCAL));
    for t in ["a", "b", "c"] {
        p.add(&song(t));
    }
    assert!(p.move_song(0, 2).is_ok());
    assert_eq!(titles(&p.get_songs()), vec!["b", "c", "a"]);
    assert!(p.move_song(2, 0).is_ok());
    assert_eq!(titles(&p.get_songs()), vec!["a", "b", "c"]);
    assert_eq!(p.move_song(0, 3).err().unwrap().error_message(), "invalid song indices: from 0, to 3");
    assert_eq!(p.remove(3).err().unwrap().error_message(), "invalid song index: 3");
    assert_eq!(p.get_song(9).err().unwrap().error_message(), "invalid song index: 9");
    assert!(p.remove(1).is_ok());
    assert_eq!(titles(&p.iter()), vec!["a", "c"]);
    p.set_name("new");
    assert_eq!(p.get_name(), "new");
    assert_eq!(p.get_type(), Some(ExternalType::LOCAL));
    p.clear();
    assert!(p.get_songs().is_empty());
}

#[test]
fn adding_then_removing_the_last_song_restores_the_playlist() {
    let mut p = Playlist::new("mix", None);
    p.add(&song("a"));
    p.add(&song("b"));
    let before = titles(&p.get_songs());
    p.add(&song("c"));
    assert!(p.remove(2).is_ok());
    assert_eq!(titles(&p.get_songs()), before);
}

#[test]
fn client_state_keeps_playlists() {
    let mut state = Internal::new(Queue::new(song("now")));
    assert!(!state.has_playlist("mix"));
    let made = state.playlist_new("mix", None);
    assert_eq!(made.get_name(), "mix");
    assert!(state.has_playlist("mix"));
    let saved = state.playlist_add("mix", &song("a")).unwrap();
    assert_eq!(titles(&saved.get_songs()), vec!["a"]);
    assert_eq!(titles(&state.playlist_get_songs("mix").unwrap()), vec!["a"]);
    assert!(state.playlist_add("missing", &song("a")).is_none());
    assert!(state.playlist_get_songs("missing").is_none());
    let err = state.playlist_remove("mix", 4).unwrap().err().unwrap();
    assert_eq!(err.error_message(), "invalid song index: 4");
    assert_eq!(titles(&state.playlist_get_songs("mix").unwrap()), vec!["a"]);
    assert_eq!(state.playlist_get_song("mix", 0).unwrap().ok().unwrap().info.title, "a");
}

#[test]
fn renamed_playlist_stays_under_its_old_name() {
    let mut state = Internal::new(Queue::new(song("now")));
    state.playlist_new("old", None);
    let renamed = state.playlist_set_name("old", "fresh").unwrap();
    assert_eq!(renamed.get_name(), "fresh");
    assert!(state.has_playlist("old"));
    assert!(!state.has_playlist("fresh"));
}

#[test]
fn playlists_copy_and_merge() {
    let mut state = Internal::new(Queue::new(song("now")));
    let mut source = Playlist::new("src", Some(ExternalType::YOUTUBE));
    source.add(&song("a"));
    source.add(&song("b"));
    let copy = state.playlist_copy_to(&source, "dst");
    assert_eq!(copy.get_name(), "dst");
    assert_eq!(copy.get_type(), Some(ExternalType::YOUTUBE));
    assert_eq!(titles(&copy.get_songs()), vec!["a", "b"]);
    state.keep_playlist(source);
    let merged = state.playlist_add_playlist("src", "dst").unwrap();
    assert_eq!(titles(&merged.get_songs()), vec!["a", "b", "a", "b"]);
    assert!(state.playlist_add_playlist("src", "nowhere").is_none());
    let moved = state.playlist_move_song("dst", 3, 0).unwrap().ok().unwrap();
    assert_eq!(titles(&moved.get_songs()), vec!["b", "a", "b", "a"]);
    let cleared = state.playlist_clear("dst").unwrap();
    assert!(cleared.get_songs().is_empty());
}

#[test]
fn at_most_ten_playlists_are_kept() {
    let mut state = Internal::new(Queue::new(song("now")));
    for i in 0..11 {
        state.playlist_new(&format!("p{}", i), None);
    }
    assert!(!state.has_playlist("p0"));
    for i in 1..11 {
        assert!(state.has_playlist(&format!("p{}", i)));
    }
}

#[test]
fn client_state_queue() {
    let mut state = Internal::new(Queue::new(song("now")));
    state.queue_add(song("next"));
    assert_eq!(titles(&state.queue_get_songs()), vec!["now", "next"]);
    assert!(state.queue_remove(0).is_err());
    let played = state.queue_next().unwrap();
    assert_eq!(played.info.title, "next");
    assert!(state.queue_next().is_none());
    state.play_new(song("other"));
    assert_eq!(state.current_song().ok().unwrap().info.title, "other");
    let mut p = Playlist::new("p", None);
    p.add(&song("x"));
    state.queue_playlist(&p);
    assert_eq!(titles(&state.queue_get_songs()), vec!["x", "other"]);
    state.queue_clear();
    assert_eq!(queue_titles(&state.queue_get()), vec!["x"]);
}

#[test]
fn client_state_server_link() {
    let mut state = Internal::new(Queue::new(song("now")));
    let err = state.server_get_online_users("me").err().unwrap();
    assert_eq!(err.error_message(), "Not connected to server, cannot send message");
    assert!(state.connect_to_server().is_ok());
    assert_eq!(state.connect_to_server().err().unwrap().error_message(), "Already connecting to server");
    state.server_update_connection_status(ConnectionStatus::NotConnected);
    let err = state.server_set_echo_availability("me", true).err().unwrap();
    assert_eq!(err.error_message(), "Not connected to server, cannot send message");
}

#[test]
fn default_settings() {
    let c = Config::new_default();
    assert_eq!(c.data_folder, "data/");
    assert_eq!(c.local_song_folder_path, "/");
    let s = ServerConfig::new("1.2.3.4:5", "home", "cert.der");
    assert_eq!(s.server_address, "1.2.3.4:5");
    assert_eq!(s.server_name, "home");
    assert_eq!(s.server_cert_path, "cert.der");
}

#[test]
fn default_song_is_by_reverb() {
    let s = Song::default(LocalSong { song_path: "sample/default_song.mp3".to_string(), duration_nanos: 3 });
    assert_eq!(s.info.title, "Default Song");
    assert_eq!(s.info.artists, vec!["REVERB".to_string()]);
    match s.song_type {
        ExternalSong::LOCAL(l) => assert_eq!(l.song_path, "sample/default_song.mp3"),
        other => panic!("{:?}", other),
    }
}

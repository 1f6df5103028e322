use reverb::cli::{
    now_playing_line, playlist_listing, position_zero, read_request, song_listing, song_summary,
    text_starts_with, CliHandler, CliRequest,
};
use reverb::failure::FailureType;
use reverb::line_command::{read_line_request, trim_white_space, LineRequest};
use reverb::song::{ExternalSong, ExternalType, LocalSong, PlaceholderExternalSong, Song, SongInfo};

fn local_song(title: &str, artist: &str) -> Song {
    Song {
        song_type: ExternalSong::LOCAL(LocalSong { song_path: format!("/music/{}.mp3", title), duration_nanos: 1 }),
        info: SongInfo { title: title.to_string(), artists: vec![artist.to_string()] },
    }
}

fn warning_text(r: Result<CliRequest, reverb::failure::Failure>) -> String {
    let f = r.err().expect("a warning");
    assert_eq!(f.failure_type(), FailureType::Warning);
    f.error_message()
}

#[test]
fn simple_handlers_need_no_arguments() {
    assert!(matches!(read_request(CliHandler::Play, ""), Ok(CliRequest::Play)));
    assert!(matches!(read_request(CliHandler::PlayPause, ""), Ok(CliRequest::PlayPause)));
    assert!(matches!(read_request(CliHandler::Quit, ""), Ok(CliRequest::Quit)));
    assert!(matches!(read_request(CliHandler::Queue, ""), Ok(CliRequest::ShowQueue)));
    assert!(matches!(read_request(CliHandler::ServerConnect, ""), Ok(CliRequest::ServerConnect)));
}

#[test]
fn song_arguments() {
    match read_request(CliHandler::QueueAdd, "local my song.mp3") {
        Ok(CliRequest::QueueAdd(t, info)) => {
            assert_eq!(t, ExternalType::LOCAL);
            assert_eq!(info, "my song.mp3");
        }
        other => panic!("{:?}", other),
    }
    assert_eq!(warning_text(read_request(CliHandler::PlayNew, "local")), "invalid song parameters: local");
    assert_eq!(warning_text(read_request(CliHandler::PlayNew, "vinyl a")), "Unknown external type: vinyl");
}

#[test]
fn queue_remove_reads_the_index_as_given() {
    assert!(matches!(read_request(CliHandler::QueueRemove, "3"), Ok(CliRequest::QueueRemove(3))));
    assert_eq!(warning_text(read_request(CliHandler::QueueRemove, "x")), "invalid digit found in string");
    assert_eq!(warning_text(read_request(CliHandler::QueueRemove, "")), "cannot parse integer from empty string");
}

#[test]
fn playlist_positions_count_from_one() {
    assert!(matches!(read_request(CliHandler::PlaylistRemove, "3"), Ok(CliRequest::PlaylistRemove(2))));
    assert!(matches!(read_request(CliHandler::PlaylistGet, "1"), Ok(CliRequest::PlaylistGet(0))));
    assert!(matches!(read_request(CliHandler::PlaylistMove, "2 5"), Ok(CliRequest::PlaylistMove(1, 4))));
    assert!(position_zero(CliHandler::PlaylistRemove, "0"));
    assert!(position_zero(CliHandler::PlaylistMove, "0 3"));
    assert!(!position_zero(CliHandler::PlaylistMove, "1 3"));
    assert!(!position_zero(CliHandler::QueueRemove, "0"));
}

#[test]
fn playlist_move_refusals() {
    assert_eq!(warning_text(read_request(CliHandler::PlaylistMove, "2")), "Invalid input for move command: 2");
    assert_eq!(warning_text(read_request(CliHandler::PlaylistMove, "a b")), "Invalid song indices: from: a, to: b");
    assert_eq!(warning_text(read_request(CliHandler::PlaylistMove, "1 2 3")), "Invalid song indices: from: 1, to: 2 3");
}

#[test]
fn playlist_new_with_and_without_kind() {
    match read_request(CliHandler::PlaylistNew, "rock local") {
        Ok(CliRequest::PlaylistNew(name, Some(ExternalType::LOCAL))) => assert_eq!(name, "rock"),
        other => panic!("{:?}", other),
    }
    match read_request(CliHandler::PlaylistNew, "rock") {
        Ok(CliRequest::PlaylistNew(name, None)) => assert_eq!(name, "rock"),
        other => panic!("{:?}", other),
    }
    assert_eq!(warning_text(read_request(CliHandler::PlaylistNew, "rock jazz")), "Unknown external type: jazz");
}

#[test]
fn playlist_add_a_playlist_or_a_song() {
    match read_request(CliHandler::PlaylistAdd, "playlist other list") {
        Ok(CliRequest::PlaylistAddPlaylist(name)) => assert_eq!(name, "other list"),
        other => panic!("{:?}", other),
    }
    match read_request(CliHandler::PlaylistAdd, "youtube abc") {
        Ok(CliRequest::PlaylistAdd(ExternalType::YOUTUBE, info)) => assert_eq!(info, "abc"),
        other => panic!("{:?}", other),
    }
    assert!(text_starts_with("playlist x", "playlist "));
    assert!(!text_starts_with("playlis", "playlist "));
}

#[test]
fn server_add_takes_three_fields() {
    match read_request(CliHandler::ServerAdd, "home 10.0.0.1:4433 certs/my cert.der") {
        Ok(CliRequest::ServerAdd(n, a, c)) => {
            assert_eq!(n, "home");
            assert_eq!(a, "10.0.0.1:4433");
            assert_eq!(c, "certs/my cert.der");
        }
        other => panic!("{:?}", other),
    }
    assert_eq!(warning_text(read_request(CliHandler::ServerAdd, "home addr")), "Invalid input for server add command: home addr");
}

#[test]
fn text_arguments_pass_through() {
    match read_request(CliHandler::ServerQuery, "what is up") {
        Ok(CliRequest::ServerQuery(m)) => assert_eq!(m, "what is up"),
        other => panic!("{:?}", other),
    }
    match read_request(CliHandler::PlaylistRename, "new name") {
        Ok(CliRequest::PlaylistRename(m)) => assert_eq!(m, "new name"),
        other => panic!("{:?}", other),
    }
}

#[test]
fn listings_of_songs() {
    let songs = vec![local_song("One", "Ann"), local_song("Two", "Bo")];
    assert_eq!(song_summary(&songs[0]), "Ann - One");
    assert_eq!(now_playing_line(&songs[1]), "Currently playing: Bo - Two");
    assert_eq!(song_listing(&songs), vec!["0: Ann - One".to_string(), "1: Bo - Two".to_string()]);
    assert_eq!(
        playlist_listing("mix", &songs),
        vec!["mix:".to_string(), "0: Ann - One".to_string(), "1: Bo - Two".to_string()]
    );
    let youtube = Song {
        song_type: ExternalSong::YOUTUBE(PlaceholderExternalSong),
        info: SongInfo { title: "T".to_string(), artists: vec!["A".to_string(), "B".to_string()] },
    };
    assert_eq!(song_summary(&youtube), "A - T");
}

#[test]
fn older_interface_single_words() {
    assert!(matches!(read_line_request("  help \n"), Ok(LineRequest::Help)));
    assert!(matches!(read_line_request("h"), Ok(LineRequest::Help)));
    assert!(matches!(read_line_request(":q"), Ok(LineRequest::Quit)));
    assert!(matches!(read_line_request("song"), Ok(LineRequest::ShowSong)));
    assert_eq!(read_line_request("dance").err().unwrap(), "Unknown command: dance");
    assert_eq!(read_line_request("").err().unwrap(), "Unknown command: ");
}

#[test]
fn older_interface_composite_commands() {
    match read_line_request("play new local a b.mp3") {
        Ok(LineRequest::PlayNew(ExternalType::LOCAL, info)) => assert_eq!(info, "a b.mp3"),
        other => panic!("{:?}", other),
    }
    assert!(matches!(read_line_request("play help"), Ok(LineRequest::PlayHelp)));
    assert_eq!(read_line_request("play x y").err().unwrap(), "Unknown command: play x y");
    assert_eq!(read_line_request("play loud").err().unwrap(), "Unknown command: play loud");
    assert_eq!(read_line_request("dance now").err().unwrap(), "Unknown command: dance");
}

#[test]
fn older_interface_queue_commands() {
    assert!(matches!(read_line_request("queue remove 4"), Ok(LineRequest::QueueRemove(4))));
    assert_eq!(read_line_request("queue remove x").err().unwrap(), "Invalid song index: invalid digit found in string");
    assert!(matches!(read_line_request("queue playlist"), Ok(LineRequest::QueueCurrentPlaylist)));
    match read_line_request("queue playlist road trip") {
        Ok(LineRequest::QueuePlaylist(name)) => assert_eq!(name, "road trip"),
        other => panic!("{:?}", other),
    }
    assert_eq!(read_line_request("queue shuffle now").err().unwrap(), "Unknown command: queue shuffle now");
    assert_eq!(read_line_request("queue add local").err().unwrap(), "invalid song parameters: local");
}

#[test]
fn older_interface_playlist_commands() {
    assert!(matches!(read_line_request("playlist move 1 2"), Ok(LineRequest::PlaylistMove(1, 2))));
    assert_eq!(read_line_request("playlist move 1").err().unwrap(), "Invalid input for move command: 1");
    assert_eq!(read_line_request("playlist get x").err().unwrap(), "Invalid song index: x");
    assert!(matches!(read_line_request("playlist get 0"), Ok(LineRequest::PlaylistGet(0))));
    assert!(matches!(read_line_request("playlist name"), Ok(LineRequest::ShowPlaylistName)));
    match read_line_request("playlist name Chill") {
        Ok(LineRequest::PlaylistSetName(name)) => assert_eq!(name, "Chill"),
        other => panic!("{:?}", other),
    }
    match read_line_request("playlist new x youtube") {
        Ok(LineRequest::PlaylistNew(name, Some(ExternalType::YOUTUBE))) => assert_eq!(name, "x"),
        other => panic!("{:?}", other),
    }
    assert_eq!(read_line_request("playlist list").err().unwrap(), "Unknown command: playlist list");
}

#[test]
fn trim_agrees_with_str_trim() {
    for s in ["  a b  ", "\t\n", "", "x", "\u{3000}y\u{85}"] {
        assert_eq!(trim_white_space(s), s.trim());
    }
}

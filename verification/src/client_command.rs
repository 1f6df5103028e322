use std::sync::mpsc::Sender;
use std::time::Duration;
use vstd::prelude::*;

use crate::connection::ConnectionStatus;
use crate::failure::Failure;
use crate::packet::Packet;
use crate::song::{ExternalType, Song};

verus! {

/// What the parts of the client ask of the main loop.
#[derive(Debug)]
pub enum Command {
    Play,
    Pause,
    IsSongPlaying(Sender<bool>),
    PlayNew(Song),
    CurrentSong(Sender<Song>),
    PlaylistNew { name: String, external_type: Option<ExternalType> },
    PlaylistAdd(String, Song),
    PlaylistRemove(String, usize),
    PlaylistMoveSong { playlist: String, from: usize, to: usize },
    PlaylistGetSongs(String, Sender<Vec<Song>>),
    PlaylistSetName(String, String),
    PlaylistGetSong { playlist: String, song: Sender<Song>, index: usize },
    PlaylistCopyTo(String, String),
    PlaylistAddPlaylist(String, String),
    PlaylistClear(String),
    QueueShuffle,
    QueueAdd(Song),
    QueueRemove(usize),
    QueueNext,
    QueuePlaylist(String),
    QueueGetSongs(Sender<Vec<Song>>),
    QueueClear,
    Shutdown,
    UpdateAutoskip,
    SongDuration(Sender<Result<Duration, Failure>>),
    SongDurationGone(Sender<Result<Duration, Failure>>),
    ServerAdd(String, String, String),
    ServerConnect,
    ServerUpdateStatus(ConnectionStatus),
    ServerGetOnlineUsers,
    ServerResponse(Packet),
    ServerSetEchoAvailability(bool),
    ServerSendQuery(String),
    ServerSendNotify(String),
    Failure(Failure),
}

} // verus!

use lru::LruCache;
use std::collections::hash_map::RandomState;
use std::num::NonZeroUsize;
use vstd::prelude::*;

use crate::commands::PayloadView;
use crate::connection::{send_outcome, ConnectionStatus, InternetClient};
use crate::failure::{Failure, FailureType};
use crate::text::decimal;
use crate::playlist::{index_error, moved, Playlist, PlaylistView};
use crate::queue::Queue;
use crate::song::{song_views, ExternalType, Song, SongView};

verus! {

#[verifier::external_type_specification]
#[verifier::external_body]
#[verifier::reject_recursive_types(K)]
#[verifier::reject_recursive_types(V)]
#[verifier::reject_recursive_types(S)]
pub struct ExLruCache<K, V, S>(LruCache<K, V, S>);

/// The playlists a cache holds, by the name each was put under.
pub uninterp spec fn cached_playlists(cache: LruCache<String, Playlist, RandomState>) -> Map<Seq<char>, PlaylistView>;

/// The number of playlists a cache was made to hold.
pub uninterp spec fn cache_capacity(cache: LruCache<String, Playlist, RandomState>) -> nat;

/// The number of playlists the client keeps at hand.
pub const PLAYLIST_CACHE_SIZE: usize = 10;

/// A cache holds finitely many playlists, never more than it was made for.
pub open spec fn cache_bounded(contents: Map<Seq<char>, PlaylistView>, capacity: nat) -> bool {
    contents.dom().finite() && contents.len() <= capacity
}

/// What putting `value` under `key` makes of the contents `old` of a cache
/// of the given capacity: the key now holds the value; where the key was
/// there or room was left, nothing else changes; otherwise one other entry
/// (the one used least recently) leaves.
pub open spec fn put_into(
    old: Map<Seq<char>, PlaylistView>,
    new: Map<Seq<char>, PlaylistView>,
    key: Seq<char>,
    value: PlaylistView,
    capacity: nat,
) -> bool {
    &&& old.dom().contains(key) || old.len() < capacity ==> new == old.insert(key, value)
    &&& !old.dom().contains(key) && old.len() >= capacity ==> exists|gone: Seq<char>|
        old.dom().contains(gone) && new == old.remove(gone).insert(key, value)
}

/// Calls `lru::LruCache::with_hasher`, with the standard library's hasher. Claims that the new cache holds nothing and
/// was made for `capacity` playlists.
#[verifier::external_body]
fn cache_new(capacity: usize) -> (cache: LruCache<String, Playlist, RandomState>)
    requires
        capacity > 0,
    ensures
        cached_playlists(cache).dom() == Set::<Seq<char>>::empty(),
        cache_capacity(cache) == capacity,
{
    LruCache::with_hasher(NonZeroUsize::new(capacity).unwrap(), RandomState::new())
}

/// Calls `lru::LruCache::contains`. Claims that it tells whether a playlist
/// is held under `name`.
#[verifier::external_body]
fn cache_contains(cache: &LruCache<String, Playlist, RandomState>, name: &str) -> (b: bool)
    ensures
        b == cached_playlists(*cache).dom().contains(name@),
{
    cache.contains(name)
}

/// Calls `lru::LruCache::put`. Claims what its source shows: the playlist
/// is held under `name`, and where `name` was not held and the cache was
/// full, one other entry left; the capacity stays, and the cache never
/// holds more than it.
#[verifier::external_body]
fn cache_put(cache: &mut LruCache<String, Playlist, RandomState>, name: String, playlist: Playlist)
    ensures
        cache_capacity(*final(cache)) == cache_capacity(*old(cache)),
        put_into(
            cached_playlists(*old(cache)),
            cached_playlists(*final(cache)),
            name@,
            playlist@,
            cache_capacity(*old(cache)),
        ),
        cache_bounded(cached_playlists(*old(cache)), cache_capacity(*old(cache))) ==> cache_bounded(
            cached_playlists(*final(cache)),
            cache_capacity(*final(cache)),
        ),
{
    cache.put(name, playlist);
}

/// Calls `lru::LruCache::pop`. Claims that it takes out and returns the
/// playlist held under `name`, if any, and leaves the rest.
#[verifier::external_body]
fn cache_pop(cache: &mut LruCache<String, Playlist, RandomState>, name: &str) -> (r: Option<Playlist>)
    ensures
        cache_capacity(*final(cache)) == cache_capacity(*old(cache)),
        match r {
            Some(p) => cached_playlists(*old(cache)).dom().contains(name@) && p@ == cached_playlists(
                *old(cache),
            )[name@] && cached_playlists(*final(cache)) == cached_playlists(*old(cache)).remove(
                name@,
            ),
            None => !cached_playlists(*old(cache)).dom().contains(name@) && cached_playlists(
                *final(cache),
            ) == cached_playlists(*old(cache)),
        },
{
    cache.pop(name)
}

/// The client's state besides the player: the song queue, the connection
/// to the server, and the playlists kept at hand.
pub struct Internal {
    queue: Queue,
    server_connection: InternetClient,
    playlists: LruCache<String, Playlist, RandomState>,
}

impl Internal {
    /// The songs of the queue.
    pub closed spec fn queue_view(&self) -> Seq<SongView> {
        self.queue@
    }

    /// The playlists kept at hand, by the name each was kept under.
    pub closed spec fn playlists(&self) -> Map<Seq<char>, PlaylistView> {
        cached_playlists(self.playlists)
    }

    /// The connection to the server.
    pub closed spec fn connection(&self) -> InternetClient {
        self.server_connection
    }

    /// The queue holds its current song, and at most ten playlists are kept.
    pub closed spec fn wf(&self) -> bool {
        &&& self.queue.wf()
        &&& cache_capacity(self.playlists) == PLAYLIST_CACHE_SIZE
        &&& cache_bounded(cached_playlists(self.playlists), PLAYLIST_CACHE_SIZE as nat)
    }

    /// The state for a queue: not connected, no playlists kept.
    pub fn new(queue: Queue) -> (i: Internal)
        requires
            queue.wf(),
        ensures
            i.wf(),
            i.queue_view() == queue@,
            i.playlists() == Map::<Seq<char>, PlaylistView>::empty(),
            i.connection().connection_status is NotConnected,
            i.connection().group is None,
    {
        let i = Internal {
            queue,
            server_connection: InternetClient::new(),
            playlists: cache_new(PLAYLIST_CACHE_SIZE),
        };
        proof {
            assert(cached_playlists(i.playlists) =~= Map::<Seq<char>, PlaylistView>::empty());
        }
        i
    }

    /// Whether a playlist is kept under `name`.
    pub open spec fn has(&self, name: Seq<char>) -> bool {
        self.playlists().dom().contains(name)
    }

    /// The playlist kept under `name`.
    pub open spec fn kept(&self, name: Seq<char>) -> PlaylistView {
        self.playlists()[name]
    }

    /// Whether the queue and the connection are as in `other`.
    pub open spec fn same_queue_and_link(&self, other: &Internal) -> bool {
        self.queue_view() == other.queue_view() && self.connection() == other.connection()
    }

    /// Whether the playlists and the connection are as in `other`.
    pub open spec fn same_playlists_and_link(&self, other: &Internal) -> bool {
        self.playlists() == other.playlists() && self.connection() == other.connection()
    }

    /// Takes out the playlist kept under `name`, if any.
    fn take_playlist(&mut self, name: &str) -> (r: Option<Playlist>)
        requires
            old(self).wf(),
        ensures
            final(self).same_queue_and_link(&*old(self)),
            final(self).queue.wf(),
            cache_capacity(final(self).playlists) == PLAYLIST_CACHE_SIZE,
            cache_bounded(final(self).playlists(), PLAYLIST_CACHE_SIZE as nat),
            match r {
                Some(p) => old(self).has(name@) && p@ == old(self).kept(name@) && final(self).playlists()
                    == old(self).playlists().remove(name@),
                None => !old(self).has(name@) && final(self).playlists() == old(self).playlists(),
            },
    {
        let r = cache_pop(&mut self.playlists, name);
        proof {
            if r is Some {
                assert(cached_playlists(self.playlists) == cached_playlists(old(self).playlists).remove(name@));
                assert(self.playlists() == old(self).playlists().remove(name@));
                assert(old(self).has(name@));
                assert(r->0@ == old(self).kept(name@));
            }
        }
        r
    }

    /// Puts a playlist back under `name`, after it was taken out.
    fn put_back(&mut self, name: &str, playlist: Playlist)
        requires
            old(self).queue.wf(),
            cache_capacity(old(self).playlists) == PLAYLIST_CACHE_SIZE,
            cache_bounded(old(self).playlists(), PLAYLIST_CACHE_SIZE as nat),
            old(self).playlists().len() < PLAYLIST_CACHE_SIZE,
        ensures
            final(self).wf(),
            final(self).same_queue_and_link(&*old(self)),
            final(self).playlists() == old(self).playlists().insert(name@, playlist@),
    {
        cache_put(&mut self.playlists, String::from_str(name), playlist);
    }

    /// Whether a playlist is kept under `name`.
    pub fn has_playlist(&self, name: &str) -> (b: bool)
        ensures
            b == self.has(name@),
    {
        cache_contains(&self.playlists, name)
    }

    /// Keeps a playlist read from its file, under its own name.
    pub fn keep_playlist(&mut self, playlist: Playlist)
        requires
            old(self).wf(),
        ensures
            final(self).wf(),
            final(self).same_queue_and_link(&*old(self)),
            put_into(
                old(self).playlists(),
                final(self).playlists(),
                playlist.name@,
                playlist@,
                PLAYLIST_CACHE_SIZE as nat,
            ),
    {
        let name = playlist.get_name();
        cache_put(&mut self.playlists, name, playlist);
    }

    /// A new empty playlist, kept under its name; it comes back to be saved.
    pub fn playlist_new(&mut self, name: &str, external_type: Option<ExternalType>) -> (p: Playlist)
        requires
            old(self).wf(),
        ensures
            final(self).wf(),
            final(self).same_queue_and_link(&*old(self)),
            p@ == (PlaylistView { name: name@, songs: Seq::empty(), external_type }),
            put_into(old(self).playlists(), final(self).playlists(), name@, p@, PLAYLIST_CACHE_SIZE as nat),
    {
        let playlist = Playlist::new(name, external_type);
        let saved = playlist.copy();
        cache_put(&mut self.playlists, String::from_str(name), playlist);
        saved
    }

    /// Adds a copy of the song to the playlist kept under `name`, which comes
    /// back to be saved; `None` where no playlist is kept under that name.
    pub fn playlist_add(&mut self, name: &str, song: &Song) -> (r: Option<Playlist>)
        requires
            old(self).wf(),
        ensures
            final(self).wf(),
            final(self).same_queue_and_link(&*old(self)),
            match r {
                Some(p) => old(self).has(name@) && p@ == (PlaylistView {
                    songs: old(self).kept(name@).songs.push(song@),
                    ..old(self).kept(name@)
                }) && final(self).playlists() == old(self).playlists().insert(name@, p@),
                None => !old(self).has(name@) && final(self).playlists() == old(self).playlists(),
            },
    {
        match self.take_playlist(name) {
            Some(mut playlist) => {
                playlist.add(song);
                let saved = playlist.copy();
                self.put_back(name, playlist);
                Some(saved)
            },
            None => None,
        }
    }

    /// Takes the song at `index` out of the playlist kept under `name`, which
    /// comes back to be saved; the failure of an index past its end leaves it
    /// as it was. `None` where no playlist is kept under that name.
    pub fn playlist_remove(&mut self, name: &str, index: usize) -> (r: Option<Result<Playlist, Failure>>)
        requires
            old(self).wf(),
        ensures
            final(self).wf(),
            final(self).same_queue_and_link(&*old(self)),
            r is None <==> !old(self).has(name@),
            r is None ==> final(self).playlists() == old(self).playlists(),
            r matches Some(res) ==> (res is Ok <==> index < old(self).kept(name@).songs.len()),
            r matches Some(Ok(p)) ==> p@ == (PlaylistView {
                songs: old(self).kept(name@).songs.remove(index as int),
                ..old(self).kept(name@)
            }) && final(self).playlists() == old(self).playlists().insert(name@, p@),
            r matches Some(Err(f)) ==> f.kind() == FailureType::Warning && f.error_text() == index_error(
                index as nat,
            ) && final(self).playlists() == old(self).playlists(),
    {
        match self.take_playlist(name) {
            Some(mut playlist) => {
                let ghost before = playlist@;
                let result = playlist.remove(index);
                let saved = playlist.copy();
                self.put_back(name, playlist);
                match result {
                    Ok(()) => Some(Ok(saved)),
                    Err(f) => {
                        assert(saved@ == before);
                        assert(self.playlists() =~= old(self).playlists());
                        Some(Err(f))
                    },
                }
            },
            None => None,
        }
    }

    /// Moves the song at `from` to `to` in the playlist kept under `name`,
    /// which comes back to be saved; the failure of an index past its end
    /// leaves it as it was. `None` where no playlist is kept under that name.
    pub fn playlist_move_song(&mut self, name: &str, from: usize, to: usize) -> (r: Option<
        Result<Playlist, Failure>,
    >)
        requires
            old(self).wf(),
        ensures
            final(self).wf(),
            final(self).same_queue_and_link(&*old(self)),
            r is None <==> !old(self).has(name@),
            r is None ==> final(self).playlists() == old(self).playlists(),
            r matches Some(res) ==> (res is Ok <==> from < old(self).kept(name@).songs.len() && to
                < old(self).kept(name@).songs.len()),
            r matches Some(Ok(p)) ==> p@ == (PlaylistView {
                songs: moved(old(self).kept(name@).songs, from as int, to as int),
                ..old(self).kept(name@)
            }) && final(self).playlists() == old(self).playlists().insert(name@, p@),
            r matches Some(Err(f)) ==> f.kind() == FailureType::Warning && f.error_text()
                == "invalid song indices: from "@ + decimal(from as nat) + ", to "@ + decimal(to as nat)
                && final(self).playlists() == old(self).playlists(),
    {
        match self.take_playlist(name) {
            Some(mut playlist) => {
                let ghost before = playlist@;
                let result = playlist.move_song(from, to);
                let saved = playlist.copy();
                self.put_back(name, playlist);
                match result {
                    Ok(()) => Some(Ok(saved)),
                    Err(f) => {
                        assert(saved@ == before);
                        assert(self.playlists() =~= old(self).playlists());
                        Some(Err(f))
                    },
                }
            },
            None => None,
        }
    }

    /// Copies of the songs of the playlist kept under `name`; `None` where no
    /// playlist is kept under that name.
    pub fn playlist_get_songs(&mut self, name: &str) -> (r: Option<Vec<Song>>)
        requires
            old(self).wf(),
        ensures
            final(self).wf(),
            final(self).same_queue_and_link(&*old(self)),
            final(self).playlists() == old(self).playlists(),
            match r {
                Some(v) => old(self).has(name@) && song_views(v@) == old(self).kept(name@).songs,
                None => !old(self).has(name@),
            },
    {
        match self.take_playlist(name) {
            Some(playlist) => {
                let songs = playlist.get_songs();
                let ghost kept = playlist@;
                self.put_back(name, playlist);
                assert(self.playlists() =~= old(self).playlists());
                Some(songs)
            },
            None => None,
        }
    }

    /// The name of the playlist kept under `name` (the two differ once it is
    /// renamed); `None` where no playlist is kept under that name.
    pub fn playlist_get_name(&mut self, name: &str) -> (r: Option<String>)
        requires
            old(self).wf(),
        ensures
            final(self).wf(),
            final(self).same_queue_and_link(&*old(self)),
            final(self).playlists() == old(self).playlists(),
            match r {
                Some(n) => old(self).has(name@) && n@ == old(self).kept(name@).name,
                None => !old(self).has(name@),
            },
    {
        match self.take_playlist(name) {
            Some(playlist) => {
                let own = playlist.get_name();
                self.put_back(name, playlist);
                assert(self.playlists() =~= old(self).playlists());
                Some(own)
            },
            None => None,
        }
    }

    /// Renames the playlist kept under `name` (it stays kept under the old
    /// name); it comes back to be saved. `None` where no playlist is kept
    /// under that name.
    pub fn playlist_set_name(&mut self, name: &str, new_name: &str) -> (r: Option<Playlist>)
        requires
            old(self).wf(),
        ensures
            final(self).wf(),
            final(self).same_queue_and_link(&*old(self)),
            match r {
                Some(p) => old(self).has(name@) && p@ == (PlaylistView {
                    name: new_name@,
                    ..old(self).kept(name@)
                }) && final(self).playlists() == old(self).playlists().insert(name@, p@),
                None => !old(self).has(name@) && final(self).playlists() == old(self).playlists(),
            },
    {
        match self.take_playlist(name) {
            Some(mut playlist) => {
                playlist.set_name(new_name);
                let saved = playlist.copy();
                self.put_back(name, playlist);
                Some(saved)
            },
            None => None,
        }
    }

    /// A copy of the song at `index` of the playlist kept under `name`;
    /// `None` where no playlist is kept under that name.
    pub fn playlist_get_song(&mut self, name: &str, index: usize) -> (r: Option<Result<Song, Failure>>)
        requires
            old(self).wf(),
        ensures
            final(self).wf(),
            final(self).same_queue_and_link(&*old(self)),
            final(self).playlists() == old(self).playlists(),
            r is None <==> !old(self).has(name@),
            r matches Some(res) ==> (res is Ok <==> index < old(self).kept(name@).songs.len()),
            r matches Some(Ok(s)) ==> s@ == old(self).kept(name@).songs[index as int],
            r matches Some(Err(f)) ==> f.kind() == FailureType::Warning && f.error_text() == index_error(
                index as nat,
            ),
    {
        match self.take_playlist(name) {
            Some(playlist) => {
                let song = playlist.get_song(index);
                self.put_back(name, playlist);
                assert(self.playlists() =~= old(self).playlists());
                Some(song)
            },
            None => None,
        }
    }

    /// A copy of `source` under the name `name`, with its source kind and
    /// songs, kept under that name; it comes back to be saved.
    pub fn playlist_copy_to(&mut self, source: &Playlist, name: &str) -> (p: Playlist)
        requires
            old(self).wf(),
        ensures
            final(self).wf(),
            final(self).same_queue_and_link(&*old(self)),
            p@ == (PlaylistView { name: name@, songs: source@.songs, external_type: source@.external_type }),
            put_into(old(self).playlists(), final(self).playlists(), name@, p@, PLAYLIST_CACHE_SIZE as nat),
    {
        let mut copy = Playlist::new(name, source.get_type());
        let songs = source.iter();
        assert(source@.songs.take(0) =~= Seq::<SongView>::empty());
        let n = songs.len();
        for i in 0..n
            invariant
                n == songs@.len(),
                song_views(songs@) == source@.songs,
                copy@ == (PlaylistView {
                    name: name@,
                    songs: source@.songs.take(i as int),
                    external_type: source@.external_type,
                }),
        {
            copy.add(&songs[i]);
            assert(source@.songs.take(i + 1) =~= source@.songs.take(i as int).push(songs@[i as int]@));
        }
        assert(source@.songs.take(n as int) =~= source@.songs);
        let saved = copy.copy();
        cache_put(&mut self.playlists, String::from_str(name), copy);
        saved
    }

    /// Adds copies of the songs of the playlist kept under `from` to the one
    /// kept under `to`, which comes back to be saved; `None` where either is
    /// not kept.
    pub fn playlist_add_playlist(&mut self, from: &str, to: &str) -> (r: Option<Playlist>)
        requires
            old(self).wf(),
        ensures
            final(self).wf(),
            final(self).same_queue_and_link(&*old(self)),
            r is None <==> !old(self).has(from@) || !old(self).has(to@),
            r is None ==> final(self).playlists() == old(self).playlists(),
            r matches Some(p) ==> p@ == (PlaylistView {
                songs: old(self).kept(to@).songs + old(self).kept(from@).songs,
                ..old(self).kept(to@)
            }) && final(self).playlists() == old(self).playlists().insert(to@, p@),
    {
        let songs = match self.playlist_get_songs(from) {
            Some(songs) => songs,
            None => return None,
        };
        match self.take_playlist(to) {
            Some(mut playlist) => {
                let n = songs.len();
                let ghost start = playlist@;
                for i in 0..n
                    invariant
                        n == songs@.len(),
                        playlist@ == (PlaylistView {
                            songs: start.songs + song_views(songs@).take(i as int),
                            ..start
                        }),
                {
                    playlist.add(&songs[i]);
                    assert(start.songs + song_views(songs@).take(i + 1) =~= (start.songs + song_views(
                        songs@,
                    ).take(i as int)).push(songs@[i as int]@));
                }
                assert(song_views(songs@).take(n as int) =~= song_views(songs@));
                let saved = playlist.copy();
                self.put_back(to, playlist);
                Some(saved)
            },
            None => None,
        }
    }

    /// Takes every song out of the playlist kept under `name`, which comes
    /// back to be saved; `None` where no playlist is kept under that name.
    pub fn playlist_clear(&mut self, name: &str) -> (r: Option<Playlist>)
        requires
            old(self).wf(),
        ensures
            final(self).wf(),
            final(self).same_queue_and_link(&*old(self)),
            match r {
                Some(p) => old(self).has(name@) && p@ == (PlaylistView {
                    songs: Seq::empty(),
                    ..old(self).kept(name@)
                }) && final(self).playlists() == old(self).playlists().insert(name@, p@),
                None => !old(self).has(name@) && final(self).playlists() == old(self).playlists(),
            },
    {
        match self.take_playlist(name) {
            Some(mut playlist) => {
                playlist.clear();
                let saved = playlist.copy();
                self.put_back(name, playlist);
                Some(saved)
            },
            None => None,
        }
    }

    /// Puts a song at the end of the queue.
    pub fn queue_add(&mut self, song: Song)
        requires
            old(self).wf(),
        ensures
            final(self).wf(),
            final(self).same_playlists_and_link(&*old(self)),
            final(self).queue_view() == old(self).queue_view().push(song@),
    {
        self.queue.add(song);
    }

    /// Takes the song at `song_index` out of the queue; the current song and
    /// the last song left cannot be taken out.
    pub fn queue_remove(&mut self, song_index: usize) -> (r: Result<(), Failure>)
        requires
            old(self).wf(),
        ensures
            final(self).wf(),
            final(self).same_playlists_and_link(&*old(self)),
            r is Ok <==> old(self).queue_view().len() > 1 && 0 < song_index < old(self).queue_view().len(),
            r is Ok ==> final(self).queue_view() == old(self).queue_view().remove(song_index as int),
            r is Err ==> final(self).queue_view() == old(self).queue_view(),
            r matches Err(f) ==> f.kind() == FailureType::Warning && f.error_text() == (
            if old(self).queue_view().len() <= 1 {
                "Cannot remove song from queue: only one song in queue"@
            } else if song_index == 0 {
                "Cannot remove currently playing song from queue at index 0"@
            } else {
                "Invalid song index (too large): "@ + decimal(song_index as nat)
            }),
    {
        self.queue.remove(song_index)
    }

    /// A copy of the queue.
    pub fn queue_get(&self) -> (q: Queue)
        requires
            self.wf(),
        ensures
            q@ == self.queue_view(),
            q.wf(),
    {
        self.queue.copy()
    }

    /// Copies of the queued songs, the current one first.
    pub fn queue_get_songs(&self) -> (v: Vec<Song>)
        ensures
            song_views(v@) == self.queue_view(),
    {
        self.queue.get_songs()
    }

    /// Moves the queue on: the next song, now current, comes back to be
    /// played; a queue of one song stays as it is and gives nothing back.
    pub fn queue_next(&mut self) -> (r: Option<Song>)
        requires
            old(self).wf(),
        ensures
            final(self).wf(),
            final(self).same_playlists_and_link(&*old(self)),
            r is Some <==> old(self).queue_view().len() > 1,
            r matches Some(s) ==> final(self).queue_view() == old(self).queue_view().skip(1) && s@
                == old(self).queue_view()[1],
            r is None ==> final(self).queue_view() == old(self).queue_view(),
    {
        match self.queue.next() {
            Ok(song) => Some(song),
            Err(_) => None,
        }
    }

    /// Puts the playlist's songs at the front of the queue, the playlist's
    /// last song first.
    pub fn queue_playlist(&mut self, playlist: &Playlist)
        requires
            old(self).wf(),
        ensures
            final(self).wf(),
            final(self).same_playlists_and_link(&*old(self)),
            final(self).queue_view() == playlist@.songs.reverse() + old(self).queue_view(),
    {
        self.queue.load_playlist(playlist);
    }

    /// Takes every song but the current one out of the queue.
    pub fn queue_clear(&mut self)
        requires
            old(self).wf(),
        ensures
            final(self).wf(),
            final(self).same_playlists_and_link(&*old(self)),
            final(self).queue_view() == seq![old(self).queue_view()[0]],
    {
        self.queue.clear();
    }

    /// A copy of the current song.
    pub fn current_song(&self) -> (r: Result<Song, Failure>)
        requires
            self.wf(),
        ensures
            r matches Ok(s) && s@ == self.queue_view()[0],
    {
        self.queue.current_song()
    }

    /// Makes `song` the current song, in place of the one playing.
    pub fn play_new(&mut self, song: Song)
        requires
            old(self).wf(),
        ensures
            final(self).wf(),
            final(self).same_playlists_and_link(&*old(self)),
            final(self).queue_view() == old(self).queue_view().update(0, song@),
    {
        self.queue.replace_current(song);
    }

    /// Starts connecting to the server: refused while connected or
    /// connecting.
    pub fn connect_to_server(&mut self) -> (r: Result<(), Failure>)
        requires
            old(self).wf(),
        ensures
            final(self).wf(),
            final(self).queue_view() == old(self).queue_view(),
            final(self).playlists() == old(self).playlists(),
            match old(self).connection().connection_status {
                ConnectionStatus::Connected(_) => r matches Err(f) && f.kind() == FailureType::Warning
                    && f.error_text() == "Already connected to server"@ && final(self).connection()
                    == old(self).connection(),
                ConnectionStatus::Connecting => r matches Err(f) && f.kind() == FailureType::Warning
                    && f.error_text() == "Already connecting to server"@ && final(self).connection()
                    == old(self).connection(),
                ConnectionStatus::NotConnected => r is Ok && final(self).connection().connection_status is Connecting
                    && final(self).connection().group == old(self).connection().group,
            },
    {
        self.server_connection.connect()
    }

    /// Records the state of the link to the server.
    pub fn server_update_connection_status(&mut self, status: ConnectionStatus)
        requires
            old(self).wf(),
        ensures
            final(self).wf(),
            final(self).queue_view() == old(self).queue_view(),
            final(self).playlists() == old(self).playlists(),
            final(self).connection().connection_status == status,
            final(self).connection().group == old(self).connection().group,
    {
        self.server_connection.update_connection(status);
    }

    /// Asks the server for the users open to echoes, as `username`.
    pub fn server_get_online_users(&mut self, username: &str) -> (r: Result<(), Failure>)
        requires
            old(self).wf(),
        ensures
            final(self).wf(),
            final(self).playlists() == old(self).playlists(),
            final(self).queue_view() == old(self).queue_view(),
            send_outcome(old(self).connection(), final(self).connection(), username@, PayloadView::GetOnlineUsers, r),
    {
        self.server_connection.request_online_users(username)
    }

    /// Tells the server whether `username` is open to echoes.
    pub fn server_set_echo_availability(&mut self, username: &str, availability: bool) -> (r: Result<(), Failure>)
        requires
            old(self).wf(),
        ensures
            final(self).wf(),
            final(self).playlists() == old(self).playlists(),
            final(self).queue_view() == old(self).queue_view(),
            send_outcome(old(self).connection(), final(self).connection(), username@, PayloadView::SetEchoAvailability(availability), r),
    {
        self.server_connection.set_echo_availability(username, availability)
    }
}

/// A put into the cache holds the playlist under its name; any other name
/// it holds afterwards it held before, with the same playlist; and the
/// cache stays within its capacity.
pub proof fn lemma_put_holds(
    old: Map<Seq<char>, PlaylistView>,
    new: Map<Seq<char>, PlaylistView>,
    key: Seq<char>,
    value: PlaylistView,
    capacity: nat,
    other: Seq<char>,
)
    requires
        put_into(old, new, key, value, capacity),
        cache_bounded(old, capacity),
        capacity > 0,
    ensures
        new.dom().contains(key),
        new[key] == value,
        other != key && new.dom().contains(other) ==> old.dom().contains(other) && new[other]
            == old[other],
        cache_bounded(new, capacity),
{
    if old.dom().contains(key) || old.len() < capacity {
        assert(new == old.insert(key, value));
        if old.dom().contains(key) {
            assert(new.dom() =~= old.dom());
        } else {
            assert(new.dom() =~= old.dom().insert(key));
        }
    } else {
        let gone = choose|gone: Seq<char>|
            old.dom().contains(gone) && new == old.remove(gone).insert(key, value);
        assert(new.dom() =~= old.dom().remove(gone).insert(key));
        assert(old.dom().remove(gone).len() == old.len() - 1);
    }
}

/// What a read gives back of a write: once a playlist is written under a
/// name, the name holds it, and every other name holds what it held.
pub proof fn lemma_read_after_write(before: Internal, after: Internal, name: Seq<char>, written: PlaylistView, other: Seq<char>)
    requires
        after.playlists() == before.playlists().insert(name, written),
    ensures
        after.has(name),
        after.kept(name) == written,
        other != name ==> (after.has(other) == before.has(other)),
        other != name && before.has(other) ==> after.kept(other) == before.kept(other),
{
}

} // verus!

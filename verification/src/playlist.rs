use vstd::prelude::*;
use vstd::string::*;

use crate::failure::{Failure, FailureType};
use crate::song::{song_views, ExternalType, Song, SongView};
use crate::text::{decimal, format_usize};

verus! {

/// A named list of songs, optionally of one source kind.
#[derive(Debug)]
pub struct Playlist {
    pub name: String,
    pub songs: Vec<Song>,
    pub external_type: Option<ExternalType>,
}

/// A playlist as a mathematical value.
pub struct PlaylistView {
    pub name: Seq<char>,
    pub songs: Seq<SongView>,
    pub external_type: Option<ExternalType>,
}

impl View for Playlist {
    type V = PlaylistView;

    open spec fn view(&self) -> PlaylistView {
        PlaylistView {
            name: self.name@,
            songs: song_views(self.songs@),
            external_type: self.external_type,
        }
    }
}

/// `s` with the element at `from` taken out and put back in at `to`.
pub open spec fn moved<A>(s: Seq<A>, from: int, to: int) -> Seq<A> {
    s.remove(from).insert(to, s[from])
}

/// The failure text for an index that is not a position of a song.
pub open spec fn index_error(index: nat) -> Seq<char> {
    "invalid song index: "@ + decimal(index)
}

impl Playlist {
    /// The songs of the playlist, as values.
    pub open spec fn songs_view(&self) -> Seq<SongView> {
        song_views(self.songs@)
    }

    /// An empty playlist with the given name and source kind.
    pub fn new(name: &str, external_type: Option<ExternalType>) -> (p: Playlist)
        ensures
            p.name@ == name@,
            p.songs_view() == Seq::<SongView>::empty(),
            p.external_type == external_type,
    {
        let p = Playlist { name: String::from_str(name), songs: Vec::new(), external_type };
        assert(p.songs_view() =~= Seq::<SongView>::empty());
        p
    }

    /// Appends a copy of the song.
    pub fn add(&mut self, song: &Song)
        ensures
            final(self).songs_view() == old(self).songs_view().push(song@),
            final(self).name == old(self).name,
            final(self).external_type == old(self).external_type,
    {
        let ghost before = self.songs@;
        self.songs.push(song.clone());
        assert(song_views(self.songs@) =~= song_views(before).push(song@));
    }

    /// Takes out the song at `index`.
    pub fn remove(&mut self, index: usize) -> (r: Result<(), Failure>)
        ensures
            r is Ok <==> index < old(self).songs@.len(),
            r is Ok ==> final(self).songs_view() == old(self).songs_view().remove(index as int),
            r matches Err(f) ==> f.kind() == FailureType::Warning && f.error_text() == index_error(
                index as nat,
            ) && final(self).songs_view() == old(self).songs_view(),
            final(self).name == old(self).name,
            final(self).external_type == old(self).external_type,
    {
        if index >= self.songs.len() {
            let mut msg = String::from_str("invalid song index: ");
            msg.append(format_usize(index).as_str());
            Err(Failure::new(msg, FailureType::Warning))
        } else {
            let ghost before = self.songs@;
            self.songs.remove(index);
            assert(song_views(self.songs@) =~= song_views(before).remove(index as int));
            Ok(())
        }
    }

    /// Takes out every song.
    pub fn clear(&mut self)
        ensures
            final(self).songs_view() == Seq::<SongView>::empty(),
            final(self).name == old(self).name,
            final(self).external_type == old(self).external_type,
    {
        self.songs.clear();
        assert(song_views(self.songs@) =~= Seq::<SongView>::empty());
    }

    /// Copies of the songs, in order.
    pub fn get_songs(&self) -> (v: Vec<Song>)
        ensures
            song_views(v@) == self.songs_view(),
    {
        let mut v: Vec<Song> = Vec::new();
        let n = self.songs.len();
        for i in 0..n
            invariant
                n == self.songs@.len(),
                song_views(v@) == song_views(self.songs@).take(i as int),
        {
            v.push(self.songs[i].clone());
            assert(song_views(self.songs@).take(i + 1) =~= song_views(self.songs@).take(i as int).push(self.songs@[i as int]@));
            assert(song_views(v@) =~= song_views(self.songs@).take(i + 1));
        }
        assert(song_views(self.songs@).take(n as int) =~= song_views(self.songs@));
        v
    }

    /// A copy of the song at `index`.
    pub fn get_song(&self, index: usize) -> (r: Result<Song, Failure>)
        ensures
            r is Ok <==> index < self.songs@.len(),
            r matches Ok(s) ==> s@ == self.songs_view()[index as int],
            r matches Err(f) ==> f.kind() == FailureType::Warning && f.error_text() == index_error(
                index as nat,
            ),
    {
        if index < self.songs.len() {
            Ok(self.songs[index].clone())
        } else {
            let mut msg = String::from_str("invalid song index: ");
            msg.append(format_usize(index).as_str());
            Err(Failure::new(msg, FailureType::Warning))
        }
    }

    /// A copy of the playlist's name.
    pub fn get_name(&self) -> (n: String)
        ensures
            n@ == self.name@,
    {
        self.name.clone()
    }

    /// Renames the playlist.
    pub fn set_name(&mut self, name: &str)
        ensures
            final(self).name@ == name@,
            final(self).songs == old(self).songs,
            final(self).external_type == old(self).external_type,
    {
        self.name = String::from_str(name);
    }

    /// Moves the song at `from` to position `to`.
    pub fn move_song(&mut self, from: usize, to: usize) -> (r: Result<(), Failure>)
        ensures
            r is Ok <==> from < old(self).songs@.len() && to < old(self).songs@.len(),
            r is Ok ==> final(self).songs_view() == moved(
                old(self).songs_view(),
                from as int,
                to as int,
            ),
            r matches Err(f) ==> f.kind() == FailureType::Warning && f.error_text()
                == "invalid song indices: from "@ + decimal(from as nat) + ", to "@ + decimal(
                to as nat,
            ) && final(self).songs_view() == old(self).songs_view(),
            final(self).name == old(self).name,
            final(self).external_type == old(self).external_type,
    {
        if from >= self.songs.len() || to >= self.songs.len() {
            let mut msg = String::from_str("invalid song indices: from ");
            msg.append(format_usize(from).as_str());
            msg.append(", to ");
            msg.append(format_usize(to).as_str());
            Err(Failure::new(msg, FailureType::Warning))
        } else {
            let ghost before = self.songs@;
            let song = self.songs.remove(from);
            self.songs.insert(to, song);
            assert(song_views(self.songs@) =~= moved(song_views(before), from as int, to as int));
            Ok(())
        }
    }

    /// A copy of the playlist.
    pub fn copy(&self) -> (p: Playlist)
        ensures
            p@ == self@,
    {
        Playlist { name: self.name.clone(), songs: self.get_songs(), external_type: self.external_type }
    }

    /// Copies of the songs, in order, to walk through.
    pub fn iter(&self) -> (v: Vec<Song>)
        ensures
            song_views(v@) == self.songs_view(),
    {
        self.get_songs()
    }

    /// The playlist's source kind.
    pub fn get_type(&self) -> (t: Option<ExternalType>)
        ensures
            t == self.external_type,
    {
        self.external_type
    }
}

/// Moving a song back to where it came from undoes the move.
pub proof fn lemma_move_back<A>(s: Seq<A>, from: int, to: int)
    requires
        0 <= from < s.len(),
        0 <= to < s.len(),
    ensures
        moved(moved(s, from, to), to, from) == s,
{
    let m = moved(s, from, to);
    assert(m[to] == s[from]);
    assert(m.remove(to) =~= s.remove(from));
    assert(s.remove(from).insert(from, s[from]) =~= s);
}

/// Moving a song keeps the playlist's length and its songs, each as often.
pub proof fn lemma_move_keeps_songs<A>(s: Seq<A>, from: int, to: int)
    requires
        0 <= from < s.len(),
        0 <= to < s.len(),
    ensures
        moved(s, from, to).len() == s.len(),
        moved(s, from, to).to_multiset() == s.to_multiset(),
{
    broadcast use vstd::seq_lib::group_to_multiset_ensures;

    let x = s[from];
    vstd::seq_lib::to_multiset_remove(s, from);
    vstd::seq_lib::to_multiset_insert(s.remove(from), to, x);
    assert(s.to_multiset().remove(x).insert(x) =~= s.to_multiset());
}

/// Adding a song and then removing it, at the last position, gives back the
/// playlist's songs.
pub proof fn lemma_add_then_remove_last(s: Seq<SongView>, song: SongView)
    ensures
        s.push(song).remove(s.len() as int) == s,
{
    assert(s.push(song).remove(s.len() as int) =~= s);
}

} // verus!

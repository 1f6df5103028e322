use std::collections::VecDeque;
use vstd::prelude::*;
use vstd::string::*;

use crate::failure::{Failure, FailureType};
use crate::playlist::Playlist;
use crate::song::{song_views, Song, SongView};
use crate::text::{decimal, format_usize};

verus! {

/// The songs to play: the first is the current song, the rest come next.
#[derive(Debug)]
pub struct Queue {
    pub queued_songs: VecDeque<Song>,
}

impl View for Queue {
    type V = Seq<SongView>;

    open spec fn view(&self) -> Seq<SongView> {
        song_views(self.queued_songs@)
    }
}

impl Queue {
    /// A queue always holds its current song.
    pub open spec fn wf(&self) -> bool {
        self.queued_songs@.len() >= 1
    }

    /// A queue of one song, the current one.
    pub fn new(song: Song) -> (q: Queue)
        ensures
            q@ == seq![song@],
            q.wf(),
    {
        let mut queued_songs: VecDeque<Song> = VecDeque::new();
        queued_songs.push_back(song);
        let q = Queue { queued_songs };
        assert(q@ =~= seq![song@]);
        q
    }

    /// Puts a song at the end.
    pub fn add(&mut self, song: Song)
        ensures
            final(self)@ == old(self)@.push(song@),
            old(self).wf() ==> final(self).wf(),
    {
        let ghost before = self.queued_songs@;
        self.queued_songs.push_back(song);
        assert(song_views(self.queued_songs@) =~= song_views(before).push(song@));
    }

    /// Puts the playlist's songs at the front, one after the other, so that
    /// they come in reverse order, the playlist's last song first.
    pub fn load_playlist(&mut self, playlist: &Playlist)
        ensures
            final(self)@ == playlist.songs_view().reverse() + old(self)@,
            old(self).wf() ==> final(self).wf(),
    {
        let songs = playlist.iter();
        let ghost pl = playlist.songs_view();
        let ghost before = self@;
        let n = songs.len();
        assert(pl.take(0).reverse() + before =~= before);
        for i in 0..n
            invariant
                n == songs@.len(),
                song_views(songs@) == pl,
                self@ == pl.take(i as int).reverse() + before,
        {
            let ghost prev = self.queued_songs@;
            let song = songs[i].clone();
            assert(song@ == pl[i as int]);
            self.queued_songs.push_front(song);
            assert(song_views(self.queued_songs@) =~= seq![pl[i as int]] + song_views(prev));
            assert(pl.take(i + 1).reverse() =~= seq![pl[i as int]] + pl.take(i as int).reverse());
        }
        assert(pl.take(n as int) =~= pl);
        assert(self@ =~= pl.reverse() + before);
    }

    /// Takes out the song at `song_index`; the current song (index 0) and the
    /// last song left cannot be taken out.
    pub fn remove(&mut self, song_index: usize) -> (r: Result<(), Failure>)
        ensures
            r is Ok <==> old(self)@.len() > 1 && 0 < song_index < old(self)@.len(),
            r is Ok ==> final(self)@ == old(self)@.remove(song_index as int),
            r is Err ==> final(self)@ == old(self)@,
            r matches Err(f) ==> f.kind() == FailureType::Warning && f.error_text() == (
            if old(self)@.len() <= 1 {
                "Cannot remove song from queue: only one song in queue"@
            } else if song_index == 0 {
                "Cannot remove currently playing song from queue at index 0"@
            } else {
                "Invalid song index (too large): "@ + decimal(song_index as nat)
            }),
            old(self).wf() ==> final(self).wf(),
    {
        if self.queued_songs.len() <= 1 {
            return Err(
                Failure::new(
                    String::from_str("Cannot remove song from queue: only one song in queue"),
                    FailureType::Warning,
                ),
            );
        }
        if song_index == 0 {
            return Err(
                Failure::new(
                    String::from_str("Cannot remove currently playing song from queue at index 0"),
                    FailureType::Warning,
                ),
            );
        }
        if song_index >= self.queued_songs.len() {
            let mut msg = String::from_str("Invalid song index (too large): ");
            msg.append(format_usize(song_index).as_str());
            return Err(Failure::new(msg, FailureType::Warning));
        }
        let ghost before = self.queued_songs@;
        self.queued_songs.remove(song_index);
        assert(song_views(self.queued_songs@) =~= song_views(before).remove(song_index as int));
        Ok(())
    }

    /// Copies of the queued songs, current song first.
    pub fn get_songs(&self) -> (v: Vec<Song>)
        ensures
            song_views(v@) == self@,
    {
        let mut v: Vec<Song> = Vec::new();
        let n = self.queued_songs.len();
        for i in 0..n
            invariant
                n == self.queued_songs@.len(),
                song_views(v@) == self@.take(i as int),
        {
            v.push(self.queued_songs[i].clone());
            assert(self@.take(i + 1) =~= self@.take(i as int).push(self.queued_songs@[i as int]@));
            assert(song_views(v@) =~= self@.take(i + 1));
        }
        assert(self@.take(n as int) =~= self@);
        v
    }

    /// Moves on to the next song, which it returns; a queue of one song stays
    /// as it is.
    pub fn next(&mut self) -> (r: Result<Song, Failure>)
        ensures
            r is Ok <==> old(self)@.len() > 1,
            r matches Ok(s) ==> final(self)@ == old(self)@.skip(1) && s@ == old(self)@[1],
            r matches Err(f) ==> f.kind() == FailureType::Warning && f.error_text()
                == "Queue has only one song or is empty"@ && final(self)@ == old(self)@,
            old(self).wf() ==> final(self).wf(),
    {
        if self.queued_songs.len() > 1 {
            let ghost before = self.queued_songs@;
            self.queued_songs.pop_front();
            assert(song_views(self.queued_songs@) =~= song_views(before).skip(1));
            return Ok(self.queued_songs[0].clone());
        }
        Err(
            Failure::new(
                String::from_str("Queue has only one song or is empty"),
                FailureType::Warning,
            ),
        )
    }

    /// A copy of the current song.
    pub fn current_song(&self) -> (r: Result<Song, Failure>)
        ensures
            r is Ok <==> self@.len() > 0,
            r matches Ok(s) ==> s@ == self@[0],
            r matches Err(f) ==> f.kind() == FailureType::Warning && f.error_text()
                == "Queue is empty"@,
    {
        if self.queued_songs.len() > 0 {
            Ok(self.queued_songs[0].clone())
        } else {
            Err(Failure::new(String::from_str("Queue is empty"), FailureType::Warning))
        }
    }

    /// Takes out every song but the current one.
    pub fn clear(&mut self)
        requires
            old(self).wf(),
        ensures
            final(self)@ == seq![old(self)@[0]],
            final(self).wf(),
    {
        let ghost before = self@;
        let current_song = self.queued_songs.pop_front();
        self.queued_songs.clear();
        match current_song {
            Some(song) => {
                self.queued_songs.push_back(song);
                assert(self@ =~= seq![before[0]]);
            },
            None => {
                proof {
                    assert(false);
                }
            },
        }
    }

    /// Copies of the queued songs, current song first, to walk through.
    pub fn iter(&self) -> (v: Vec<Song>)
        ensures
            song_views(v@) == self@,
    {
        self.get_songs()
    }

    /// Replaces the current song.
    pub fn replace_current(&mut self, song: Song)
        requires
            old(self).wf(),
        ensures
            final(self)@ == old(self)@.update(0, song@),
            final(self).wf(),
    {
        let ghost before = self.queued_songs@;
        self.queued_songs.pop_front();
        self.queued_songs.push_front(song);
        assert(song_views(self.queued_songs@) =~= song_views(before).update(0, song@));
    }

    /// A copy of the queue.
    pub fn copy(&self) -> (q: Queue)
        ensures
            q@ == self@,
            self.wf() ==> q.wf(),
    {
        let songs = self.get_songs();
        let mut queued_songs: VecDeque<Song> = VecDeque::new();
        let n = songs.len();
        for i in 0..n
            invariant
                n == songs@.len(),
                song_views(songs@) == self@,
                song_views(queued_songs@) == self@.take(i as int),
        {
            queued_songs.push_back(songs[i].clone());
            assert(self@.take(i + 1) =~= self@.take(i as int).push(songs@[i as int]@));
            assert(song_views(queued_songs@) =~= self@.take(i + 1));
        }
        assert(self@.take(n as int) =~= self@);
        Queue { queued_songs }
    }
}

} // verus!

use std::time::Duration;
use vstd::prelude::*;
use vstd::string::*;

use crate::failure::{Failure, FailureType};
use crate::text::text_equals;

verus! {

/// The kinds of song source the player knows.
#[allow(non_camel_case_types)]
#[derive(Debug, Clone, Copy, PartialEq, Eq, Structural)]
pub enum ExternalType {
    LOCAL,
    YOUTUBE,
}

/// A song stored in a local file, with its length in nanoseconds.
#[derive(Debug)]
pub struct LocalSong {
    pub song_path: String,
    pub duration_nanos: u128,
}

/// A song of a source that is not supported yet.
#[derive(Debug, Clone, Copy)]
pub struct PlaceholderExternalSong;

/// The player of a source that is not supported yet.
#[derive(Debug, Clone, Copy)]
pub struct PlaceholderRun;

/// A song as its source knows it.
#[allow(non_camel_case_types)]
#[derive(Debug)]
pub enum ExternalSong {
    LOCAL(LocalSong),
    YOUTUBE(PlaceholderExternalSong),
}

/// What is shown of a song.
#[derive(Debug)]
pub struct SongInfo {
    pub title: String,
    pub artists: Vec<String>,
}

/// A song: where it comes from and what is shown of it.
#[derive(Debug)]
pub struct Song {
    pub song_type: ExternalSong,
    pub info: SongInfo,
}

/// A player for one kind of song source.
pub trait External: Sized {
    fn play_new(&mut self, song: &Song) -> Result<(), Failure>;

    fn pause(&self) -> Result<(), Failure>;

    fn play(&self) -> Result<(), Failure>;

    fn stop(&self) -> Result<(), Failure>;

    fn shutdown(&self) -> Result<(), Failure>;

    fn new(song: &Song) -> Result<Self, Failure>;

    fn is_song_playing(&self) -> Result<bool, Failure>;

    fn song_duration_gone(&self) -> Result<Duration, Failure>;

    fn song_duration(&self) -> Result<Duration, Failure>;
}

/// A song of one kind of source.
pub trait ExternalSongTrait: Sized {
    fn new(info: &str) -> Result<Self, Failure>;

    fn info(&self) -> Result<SongInfo, Failure>;
}

/// A song source as a mathematical value.
pub enum ExternalSongView {
    Local { path: Seq<char>, duration_nanos: u128 },
    Youtube,
}

/// What is shown of a song, as a mathematical value.
pub struct SongInfoView {
    pub title: Seq<char>,
    pub artists: Seq<Seq<char>>,
}

/// A song as a mathematical value.
pub struct SongView {
    pub song_type: ExternalSongView,
    pub info: SongInfoView,
}

impl View for ExternalSong {
    type V = ExternalSongView;

    open spec fn view(&self) -> ExternalSongView {
        match self {
            ExternalSong::LOCAL(s) => ExternalSongView::Local {
                path: s.song_path@,
                duration_nanos: s.duration_nanos,
            },
            ExternalSong::YOUTUBE(_) => ExternalSongView::Youtube,
        }
    }
}

impl View for SongInfo {
    type V = SongInfoView;

    open spec fn view(&self) -> SongInfoView {
        SongInfoView { title: self.title@, artists: self.artists.deep_view() }
    }
}

impl View for Song {
    type V = SongView;

    open spec fn view(&self) -> SongView {
        SongView { song_type: self.song_type@, info: self.info@ }
    }
}

/// The views of a sequence of songs.
pub open spec fn song_views(s: Seq<Song>) -> Seq<SongView> {
    s.map_values(|x: Song| x@)
}

impl Clone for LocalSong {
    fn clone(&self) -> (r: Self)
        ensures
            r.song_path@ == self.song_path@,
            r.duration_nanos == self.duration_nanos,
    {
        LocalSong { song_path: self.song_path.clone(), duration_nanos: self.duration_nanos }
    }
}

impl Clone for ExternalSong {
    fn clone(&self) -> (r: Self)
        ensures
            r@ == self@,
    {
        match self {
            ExternalSong::LOCAL(s) => ExternalSong::LOCAL(s.clone()),
            ExternalSong::YOUTUBE(s) => ExternalSong::YOUTUBE(*s),
        }
    }
}

impl Clone for SongInfo {
    fn clone(&self) -> (r: Self)
        ensures
            r@ == self@,
    {
        let artists = self.artists.clone();
        proof {
            assert forall|i: int| 0 <= i < artists@.len() implies artists@[i] == self.artists@[i] by {
                assert(cloned::<String>(self.artists[i], artists[i]));
            }
            assert(artists.deep_view() =~= self.artists.deep_view());
        }
        SongInfo { title: self.title.clone(), artists }
    }
}

impl Clone for Song {
    fn clone(&self) -> (r: Self)
        ensures
            r@ == self@,
    {
        Song { song_type: self.song_type.clone(), info: self.info.clone() }
    }
}

} // verus!

verus! {

/// Whether `i` is the index of the first space of `s`.
pub open spec fn is_first_space(s: Seq<char>, i: int) -> bool {
    0 <= i < s.len() && s[i] == ' ' && forall|j: int| 0 <= j < i ==> s[j] != ' '
}

/// The index of the first space of `s` (meaningful when `s` holds one).
pub open spec fn first_space(s: Seq<char>) -> int {
    choose|i: int| is_first_space(s, i)
}

/// The text before the first space of `s`.
pub open spec fn before_first_space(s: Seq<char>) -> Seq<char> {
    s.take(first_space(s))
}

/// The text after the first space of `s`.
pub open spec fn after_first_space(s: Seq<char>) -> Seq<char> {
    s.skip(first_space(s) + 1)
}

proof fn lemma_first_space_unique(s: Seq<char>, i: int)
    requires
        is_first_space(s, i),
    ensures
        first_space(s) == i,
{
    let k = first_space(s);
    assert(is_first_space(s, k));
    if k < i {
        assert(s[k] != ' ');
    } else if k > i {
        assert(s[i] != ' ');
    }
}

/// `str::split_once(' ')`: the text before and after the first space, if any.
pub fn split_once_space(s: &str) -> (r: Option<(String, String)>)
    ensures
        r is None <==> !s@.contains(' '),
        r matches Some((a, b)) ==> a@ == before_first_space(s@) && b@ == after_first_space(s@),
{
    let n = s.unicode_len();
    let mut i: usize = 0;
    while i < n
        invariant
            n == s@.len(),
            i <= n,
            forall|j: int| 0 <= j < i ==> s@[j] != ' ',
        decreases n - i,
    {
        if s.get_char(i) == ' ' {
            let a = String::from_str(s.substring_char(0, i));
            let b = String::from_str(s.substring_char(i + 1, n));
            proof {
                lemma_first_space_unique(s@, i as int);
                assert(a@ =~= before_first_space(s@));
                assert(b@ =~= after_first_space(s@));
            }
            return Some((a, b));
        }
        i = i + 1;
    }
    None
}

impl ExternalType {
    /// The source kind named by `string` ("local" or "youtube").
    pub fn get_from_str(string: &str) -> (r: Result<ExternalType, Failure>)
        ensures
            match external_type_named(string@) {
                Ok(t) => r == Ok::<ExternalType, Failure>(t),
                Err(e) => r matches Err(f) && f.warns(e),
            },
    {
        proof {
            reveal_strlit("local");
            reveal_strlit("youtube");
            assert("local"@.len() != "youtube"@.len());
        }
        if text_equals(string, "local") {
            Ok(ExternalType::LOCAL)
        } else if text_equals(string, "youtube") {
            Ok(ExternalType::YOUTUBE)
        } else {
            let mut msg = String::from_str("Unknown external type: ");
            msg.append(string);
            Err(Failure::new(msg, FailureType::Warning))
        }
    }

    /// The name the source kind is known by.
    pub fn name(&self) -> (s: &'static str)
        ensures
            s@ == (match self {
                ExternalType::LOCAL => "local"@,
                ExternalType::YOUTUBE => "youtube"@,
            }),
    {
        match self {
            ExternalType::LOCAL => "local",
            ExternalType::YOUTUBE => "youtube",
        }
    }
}

/// The source kind of a song source.
pub open spec fn type_of(s: ExternalSongView) -> ExternalType {
    match s {
        ExternalSongView::Local { .. } => ExternalType::LOCAL,
        ExternalSongView::Youtube => ExternalType::YOUTUBE,
    }
}

impl ExternalSong {
    /// The source kind of the song.
    pub fn as_type(&self) -> (t: ExternalType)
        ensures
            t == type_of(self@),
    {
        match self {
            ExternalSong::LOCAL(_) => ExternalType::LOCAL,
            ExternalSong::YOUTUBE(_) => ExternalType::YOUTUBE,
        }
    }

    /// Whether the song can be played by a player of the given source kind.
    pub fn same_type(&self, external_type: &ExternalType) -> (b: bool)
        ensures
            b == (type_of(self@) == *external_type),
    {
        match (self, external_type) {
            (ExternalSong::LOCAL(_), ExternalType::LOCAL) => true,
            (ExternalSong::YOUTUBE(_), ExternalType::YOUTUBE) => true,
            _ => false,
        }
    }
}

impl Song {
    /// The default song: the given local file, titled "Default Song", by
    /// "REVERB".
    pub fn default(local: LocalSong) -> (s: Song)
        ensures
            s.song_type@ == (ExternalSongView::Local { path: local.song_path@, duration_nanos: local.duration_nanos }),
            s.info@.title == "Default Song"@,
            s.info@.artists == seq!["REVERB"@],
    {
        let mut artists: Vec<String> = Vec::new();
        artists.push(String::from_str("REVERB"));
        let s = Song {
            song_type: ExternalSong::LOCAL(local),
            info: SongInfo { title: String::from_str("Default Song"), artists },
        };
        assert(s.info@.artists =~= seq!["REVERB"@]);
        s
    }
}

/// The text "Unknown Artist", as a sequence.
pub open spec fn unknown_artist() -> Seq<char> {
    "Unknown Artist"@
}

impl LocalSong {
    /// The length of the song in nanoseconds.
    pub fn get_duration(&self) -> (d: u128)
        ensures
            d == self.duration_nanos,
    {
        self.duration_nanos
    }

    /// What is shown of the song, from the title and artists of its tag (`None`
    /// where the tag has none or could not be read): the title falls back to the
    /// file's path and the artists to "Unknown Artist".
    pub fn info_from_tag(&self, title: Option<String>, artists: Option<Vec<String>>) -> (info: SongInfo)
        ensures
            info.title@ == (match title {
                Some(t) => t@,
                None => self.song_path@,
            }),
            info.artists.deep_view() == (match artists {
                Some(a) => a.deep_view(),
                None => seq![unknown_artist()],
            }),
    {
        let title = match title {
            Some(t) => t,
            None => self.song_path.clone(),
        };
        let artists = match artists {
            Some(a) => a,
            None => {
                let mut v: Vec<String> = Vec::new();
                v.push(String::from_str("Unknown Artist"));
                proof {
                    assert(v.deep_view() =~= seq![unknown_artist()]);
                }
                v
            },
        };
        SongInfo { title, artists }
    }
}

/// The source kind named `s`, or the message that refuses it.
pub open spec fn external_type_named(s: Seq<char>) -> Result<ExternalType, Seq<char>> {
    if s == "local"@ {
        Ok(ExternalType::LOCAL)
    } else if s == "youtube"@ {
        Ok(ExternalType::YOUTUBE)
    } else {
        Err("Unknown external type: "@ + s)
    }
}

/// The parameters of a song request, "<source kind> <source info>": the
/// source kind and the text after the first space; or the message that
/// refuses them.
pub open spec fn song_params(params: Seq<char>) -> Result<(ExternalType, Seq<char>), Seq<char>> {
    if !params.contains(' ') {
        Err("invalid song parameters: "@ + params)
    } else {
        match external_type_named(before_first_space(params)) {
            Ok(t) => Ok((t, after_first_space(params))),
            Err(e) => Err(e),
        }
    }
}

/// Reads the parameters of a song request, "<source kind> <source info>":
/// the source kind and the text after the first space.
pub fn parse_song_params(params: &str) -> (r: Result<(ExternalType, String), Failure>)
    ensures
        match song_params(params@) {
            Ok((t, i)) => r matches Ok((t2, i2)) && t2 == t && i2@ == i,
            Err(e) => r matches Err(f) && f.warns(e),
        },
{
    match split_once_space(params) {
        Some((kind, info)) => {
            let t = ExternalType::get_from_str(kind.as_str())?;
            Ok((t, info))
        },
        None => {
            let mut msg = String::from_str("invalid song parameters: ");
            msg.append(params);
            Err(Failure::new(msg, FailureType::Warning))
        },
    }
}

} // verus!

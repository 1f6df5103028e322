use vstd::prelude::*;
use vstd::string::*;

use crate::command_spec::{CommandCallType, CommandSpec, NodeView};
use crate::failure::{Failure, FailureType};
use crate::text::{decimal, format_usize};
use crate::number::{parse_usize, problem_message, problem_text, usize_from_text, NumberProblem};
use crate::song::{
    Song, SongView, after_first_space, before_first_space, external_type_named, parse_song_params, song_params,
    split_once_space, ExternalType,
};

verus! {

/// The commands of the text interface that run something.
#[derive(Debug, Clone, Copy, PartialEq, Eq, Structural)]
pub enum CliHandler {
    Play,
    Pause,
    PlayPause,
    Quit,
    Help,
    Skip,
    Song,
    Queue,
    QueueAdd,
    QueueRemove,
    QueueClear,
    QueueLoad,
    QueueCurrentPlaylist,
    QueueShuffle,
    PlayNew,
    Playlist,
    PlaylistAdd,
    PlaylistRemove,
    PlaylistLoad,
    PlaylistMove,
    PlaylistNew,
    PlaylistGet,
    PlaylistName,
    PlaylistRename,
    PlaylistCopy,
    PlaylistClear,
    ServerAdd,
    ServerConnect,
    ServerQuery,
    ServerNotify,
}

/// What a command of the text interface asks for, its arguments read.
/// Songs come as their source kind and source info; indices of playlist
/// songs are counted from zero.
#[derive(Debug)]
pub enum CliRequest {
    Play,
    Pause,
    PlayPause,
    Quit,
    Help,
    Skip,
    ShowSong,
    ShowQueue,
    QueueAdd(ExternalType, String),
    QueueRemove(usize),
    QueueClear,
    QueueLoad(String),
    QueueCurrentPlaylist,
    QueueShuffle,
    PlayNew(ExternalType, String),
    ShowPlaylist,
    PlaylistAddPlaylist(String),
    PlaylistAdd(ExternalType, String),
    PlaylistRemove(usize),
    PlaylistLoad(String),
    PlaylistMove(usize, usize),
    PlaylistNew(String, Option<ExternalType>),
    PlaylistGet(usize),
    ShowPlaylistName,
    PlaylistRename(String),
    PlaylistCopy(String),
    PlaylistClear,
    ServerAdd(String, String, String),
    ServerConnect,
    ServerQuery(String),
    ServerNotify(String),
}

/// A request as a mathematical value.
pub enum RequestView {
    Play,
    Pause,
    PlayPause,
    Quit,
    Help,
    Skip,
    ShowSong,
    ShowQueue,
    QueueAdd(ExternalType, Seq<char>),
    QueueRemove(nat),
    QueueClear,
    QueueLoad(Seq<char>),
    QueueCurrentPlaylist,
    QueueShuffle,
    PlayNew(ExternalType, Seq<char>),
    ShowPlaylist,
    PlaylistAddPlaylist(Seq<char>),
    PlaylistAdd(ExternalType, Seq<char>),
    PlaylistRemove(nat),
    PlaylistLoad(Seq<char>),
    PlaylistMove(nat, nat),
    PlaylistNew(Seq<char>, Option<ExternalType>),
    PlaylistGet(nat),
    ShowPlaylistName,
    PlaylistRename(Seq<char>),
    PlaylistCopy(Seq<char>),
    PlaylistClear,
    ServerAdd(Seq<char>, Seq<char>, Seq<char>),
    ServerConnect,
    ServerQuery(Seq<char>),
    ServerNotify(Seq<char>),
}

impl View for CliRequest {
    type V = RequestView;

    open spec fn view(&self) -> RequestView {
        match self {
            CliRequest::Play => RequestView::Play,
            CliRequest::Pause => RequestView::Pause,
            CliRequest::PlayPause => RequestView::PlayPause,
            CliRequest::Quit => RequestView::Quit,
            CliRequest::Help => RequestView::Help,
            CliRequest::Skip => RequestView::Skip,
            CliRequest::ShowSong => RequestView::ShowSong,
            CliRequest::ShowQueue => RequestView::ShowQueue,
            CliRequest::QueueAdd(t, i) => RequestView::QueueAdd(*t, i@),
            CliRequest::QueueRemove(n) => RequestView::QueueRemove(*n as nat),
            CliRequest::QueueClear => RequestView::QueueClear,
            CliRequest::QueueLoad(name) => RequestView::QueueLoad(name@),
            CliRequest::QueueCurrentPlaylist => RequestView::QueueCurrentPlaylist,
            CliRequest::QueueShuffle => RequestView::QueueShuffle,
            CliRequest::PlayNew(t, i) => RequestView::PlayNew(*t, i@),
            CliRequest::ShowPlaylist => RequestView::ShowPlaylist,
            CliRequest::PlaylistAddPlaylist(name) => RequestView::PlaylistAddPlaylist(name@),
            CliRequest::PlaylistAdd(t, i) => RequestView::PlaylistAdd(*t, i@),
            CliRequest::PlaylistRemove(n) => RequestView::PlaylistRemove(*n as nat),
            CliRequest::PlaylistLoad(name) => RequestView::PlaylistLoad(name@),
            CliRequest::PlaylistMove(a, b) => RequestView::PlaylistMove(*a as nat, *b as nat),
            CliRequest::PlaylistNew(name, t) => RequestView::PlaylistNew(name@, *t),
            CliRequest::PlaylistGet(n) => RequestView::PlaylistGet(*n as nat),
            CliRequest::ShowPlaylistName => RequestView::ShowPlaylistName,
            CliRequest::PlaylistRename(name) => RequestView::PlaylistRename(name@),
            CliRequest::PlaylistCopy(name) => RequestView::PlaylistCopy(name@),
            CliRequest::PlaylistClear => RequestView::PlaylistClear,
            CliRequest::ServerAdd(a, b, c) => RequestView::ServerAdd(a@, b@, c@),
            CliRequest::ServerConnect => RequestView::ServerConnect,
            CliRequest::ServerQuery(m) => RequestView::ServerQuery(m@),
            CliRequest::ServerNotify(m) => RequestView::ServerNotify(m@),
        }
    }
}

/// Whether `s` begins with `prefix`.
pub open spec fn starts_with(s: Seq<char>, prefix: Seq<char>) -> bool {
    prefix.len() <= s.len() && s.take(prefix.len() as int) == prefix
}

/// `splitn(3, ' ')` where it gives three pieces: the text before the first
/// space, the text between the first two spaces, and the rest.
pub open spec fn three_fields(s: Seq<char>) -> Option<(Seq<char>, Seq<char>, Seq<char>)> {
    if !s.contains(' ') || !after_first_space(s).contains(' ') {
        None
    } else {
        let rest = after_first_space(s);
        Some((before_first_space(s), before_first_space(rest), after_first_space(rest)))
    }
}

/// A song request of the given kind from its parameters.
pub open spec fn song_request(
    params: Seq<char>,
    make: spec_fn(ExternalType, Seq<char>) -> RequestView,
) -> Result<RequestView, Seq<char>> {
    match song_params(params) {
        Ok((t, info)) => Ok(make(t, info)),
        Err(e) => Err(e),
    }
}

/// A request that takes a number, from its argument text.
pub open spec fn number_request(args: Seq<char>, make: spec_fn(nat) -> RequestView) -> Result<
    RequestView,
    Seq<char>,
> {
    match usize_from_text(args) {
        Ok(v) => Ok(make(v)),
        Err(p) => Err(problem_text(p)),
    }
}

/// What the handler asks for with the arguments `args`, or the message of
/// the warning that refuses them.
pub open spec fn request_for(h: CliHandler, args: Seq<char>) -> Result<RequestView, Seq<char>> {
    match h {
        CliHandler::Play => Ok(RequestView::Play),
        CliHandler::Pause => Ok(RequestView::Pause),
        CliHandler::PlayPause => Ok(RequestView::PlayPause),
        CliHandler::Quit => Ok(RequestView::Quit),
        CliHandler::Help => Ok(RequestView::Help),
        CliHandler::Skip => Ok(RequestView::Skip),
        CliHandler::Song => Ok(RequestView::ShowSong),
        CliHandler::Queue => Ok(RequestView::ShowQueue),
        CliHandler::QueueAdd => song_request(args, |t: ExternalType, i: Seq<char>| RequestView::QueueAdd(t, i)),
        CliHandler::QueueRemove => number_request(args, |n: nat| RequestView::QueueRemove(n)),
        CliHandler::QueueClear => Ok(RequestView::QueueClear),
        CliHandler::QueueLoad => Ok(RequestView::QueueLoad(args)),
        CliHandler::QueueCurrentPlaylist => Ok(RequestView::QueueCurrentPlaylist),
        CliHandler::QueueShuffle => Ok(RequestView::QueueShuffle),
        CliHandler::PlayNew => song_request(args, |t: ExternalType, i: Seq<char>| RequestView::PlayNew(t, i)),
        CliHandler::Playlist => Ok(RequestView::ShowPlaylist),
        CliHandler::PlaylistAdd => if starts_with(args, "playlist "@) {
            Ok(RequestView::PlaylistAddPlaylist(args.skip(9)))
        } else {
            song_request(args, |t: ExternalType, i: Seq<char>| RequestView::PlaylistAdd(t, i))
        },
        CliHandler::PlaylistRemove => number_request(args, |n: nat| RequestView::PlaylistRemove((n - 1) as nat)),
        CliHandler::PlaylistLoad => Ok(RequestView::PlaylistLoad(args)),
        CliHandler::PlaylistMove => if !args.contains(' ') {
            Err("Invalid input for move command: "@ + args)
        } else {
            let from = before_first_space(args);
            let to = after_first_space(args);
            match (usize_from_text(from), usize_from_text(to)) {
                (Ok(a), Ok(b)) => Ok(RequestView::PlaylistMove((a - 1) as nat, (b - 1) as nat)),
                _ => Err("Invalid song indices: from: "@ + from + ", to: "@ + to),
            }
        },
        CliHandler::PlaylistNew => if args.contains(' ') {
            match external_type_named(after_first_space(args)) {
                Ok(t) => Ok(RequestView::PlaylistNew(before_first_space(args), Some(t))),
                Err(e) => Err(e),
            }
        } else {
            Ok(RequestView::PlaylistNew(args, None))
        },
        CliHandler::PlaylistGet => number_request(args, |n: nat| RequestView::PlaylistGet((n - 1) as nat)),
        CliHandler::PlaylistName => Ok(RequestView::ShowPlaylistName),
        CliHandler::PlaylistRename => Ok(RequestView::PlaylistRename(args)),
        CliHandler::PlaylistCopy => Ok(RequestView::PlaylistCopy(args)),
        CliHandler::PlaylistClear => Ok(RequestView::PlaylistClear),
        CliHandler::ServerAdd => match three_fields(args) {
            Some((name, address, certificate)) => Ok(RequestView::ServerAdd(name, address, certificate)),
            None => Err("Invalid input for server add command: "@ + args),
        },
        CliHandler::ServerConnect => Ok(RequestView::ServerConnect),
        CliHandler::ServerQuery => Ok(RequestView::ServerQuery(args)),
        CliHandler::ServerNotify => Ok(RequestView::ServerNotify(args)),
    }
}

/// The handler whose command asks for a request of this kind.
pub open spec fn asked_by(r: RequestView) -> CliHandler {
    match r {
        RequestView::Play => CliHandler::Play,
        RequestView::Pause => CliHandler::Pause,
        RequestView::PlayPause => CliHandler::PlayPause,
        RequestView::Quit => CliHandler::Quit,
        RequestView::Help => CliHandler::Help,
        RequestView::Skip => CliHandler::Skip,
        RequestView::ShowSong => CliHandler::Song,
        RequestView::ShowQueue => CliHandler::Queue,
        RequestView::QueueAdd(_, _) => CliHandler::QueueAdd,
        RequestView::QueueRemove(_) => CliHandler::QueueRemove,
        RequestView::QueueClear => CliHandler::QueueClear,
        RequestView::QueueLoad(_) => CliHandler::QueueLoad,
        RequestView::QueueCurrentPlaylist => CliHandler::QueueCurrentPlaylist,
        RequestView::QueueShuffle => CliHandler::QueueShuffle,
        RequestView::PlayNew(_, _) => CliHandler::PlayNew,
        RequestView::ShowPlaylist => CliHandler::Playlist,
        RequestView::PlaylistAddPlaylist(_) => CliHandler::PlaylistAdd,
        RequestView::PlaylistAdd(_, _) => CliHandler::PlaylistAdd,
        RequestView::PlaylistRemove(_) => CliHandler::PlaylistRemove,
        RequestView::PlaylistLoad(_) => CliHandler::PlaylistLoad,
        RequestView::PlaylistMove(_, _) => CliHandler::PlaylistMove,
        RequestView::PlaylistNew(_, _) => CliHandler::PlaylistNew,
        RequestView::PlaylistGet(_) => CliHandler::PlaylistGet,
        RequestView::ShowPlaylistName => CliHandler::PlaylistName,
        RequestView::PlaylistRename(_) => CliHandler::PlaylistRename,
        RequestView::PlaylistCopy(_) => CliHandler::PlaylistCopy,
        RequestView::PlaylistClear => CliHandler::PlaylistClear,
        RequestView::ServerAdd(_, _, _) => CliHandler::ServerAdd,
        RequestView::ServerConnect => CliHandler::ServerConnect,
        RequestView::ServerQuery(_) => CliHandler::ServerQuery,
        RequestView::ServerNotify(_) => CliHandler::ServerNotify,
    }
}

/// Each handler asks only for requests of its own kind, and the commands
/// that take a name or a message carry their argument text unchanged.
pub proof fn lemma_requests_of_their_handler(h: CliHandler, args: Seq<char>)
    ensures
        request_for(h, args) matches Ok(r) ==> asked_by(r) == h,
        h == CliHandler::QueueLoad ==> request_for(h, args) == Ok::<RequestView, Seq<char>>(RequestView::QueueLoad(args)),
        h == CliHandler::PlaylistLoad ==> request_for(h, args) == Ok::<RequestView, Seq<char>>(RequestView::PlaylistLoad(args)),
        h == CliHandler::PlaylistRename ==> request_for(h, args) == Ok::<RequestView, Seq<char>>(RequestView::PlaylistRename(args)),
        h == CliHandler::PlaylistCopy ==> request_for(h, args) == Ok::<RequestView, Seq<char>>(RequestView::PlaylistCopy(args)),
        h == CliHandler::ServerQuery ==> request_for(h, args) == Ok::<RequestView, Seq<char>>(RequestView::ServerQuery(args)),
        h == CliHandler::ServerNotify ==> request_for(h, args) == Ok::<RequestView, Seq<char>>(RequestView::ServerNotify(args)),
{
}

/// A playlist position given as 0 where positions are counted from 1: the
/// text interface has no meaning for it (the count would go below zero).
pub open spec fn names_position_zero(h: CliHandler, args: Seq<char>) -> bool {
    match h {
        CliHandler::PlaylistRemove | CliHandler::PlaylistGet => usize_from_text(args) == Ok::<
            nat,
            NumberProblem,
        >(0),
        CliHandler::PlaylistMove => args.contains(' ') && (match (
            usize_from_text(before_first_space(args)),
            usize_from_text(after_first_space(args)),
        ) {
            (Ok(a), Ok(b)) => a == 0 || b == 0,
            _ => false,
        }),
        _ => false,
    }
}

/// A warning with the given message and no context.
fn warning(text: String) -> (f: Failure)
    ensures
        f.warns(text@),
{
    Failure::new(text, FailureType::Warning)
}

/// `args` read as a number, or the warning that refuses it.
fn read_number(args: &str) -> (r: Result<usize, Failure>)
    ensures
        match usize_from_text(args@) {
            Ok(v) => r matches Ok(n) && n == v,
            Err(p) => r matches Err(f) && f.warns(problem_text(p)),
        },
{
    match parse_usize(args) {
        Ok(n) => Ok(n),
        Err(p) => Err(warning(String::from_str(problem_message(p)))),
    }
}

/// Whether `s` begins with `prefix`.
pub fn text_starts_with(s: &str, prefix: &str) -> (b: bool)
    ensures
        b == starts_with(s@, prefix@),
{
    let n = s.unicode_len();
    let m = prefix.unicode_len();
    if m > n {
        return false;
    }
    for i in 0..m
        invariant
            n == s@.len(),
            m == prefix@.len(),
            m <= n,
            forall|j: int| 0 <= j < i ==> s@[j] == prefix@[j],
    {
        if s.get_char(i) != prefix.get_char(i) {
            assert(s@.take(m as int)[i as int] != prefix@[i as int]);
            return false;
        }
    }
    assert(s@.take(m as int) =~= prefix@);
    true
}

/// `str::splitn(3, ' ')`, where it gives three pieces.
fn split_three(s: &str) -> (r: Option<(String, String, String)>)
    ensures
        match three_fields(s@) {
            Some((a, b, c)) => r matches Some((x, y, z)) && x@ == a && y@ == b && z@ == c,
            None => r is None,
        },
{
    match split_once_space(s) {
        Some((first, rest)) => match split_once_space(rest.as_str()) {
            Some((second, third)) => Some((first, second, third)),
            None => None,
        },
        None => None,
    }
}

/// Whether the handler, with the arguments `args`, names a playlist
/// position 0 where positions are counted from 1.
pub fn position_zero(h: CliHandler, args: &str) -> (b: bool)
    ensures
        b == names_position_zero(h, args@),
{
    match h {
        CliHandler::PlaylistRemove | CliHandler::PlaylistGet => match parse_usize(args) {
            Ok(n) => n == 0,
            Err(_) => false,
        },
        CliHandler::PlaylistMove => match split_once_space(args) {
            Some((from, to)) => match (parse_usize(from.as_str()), parse_usize(to.as_str())) {
                (Ok(a), Ok(b)) => a == 0 || b == 0,
                _ => false,
            },
            None => false,
        },
        _ => false,
    }
}

/// Reads the arguments of a command of the text interface: what its handler
/// asks for, or the warning that refuses the arguments.
pub fn read_request(h: CliHandler, args: &str) -> (r: Result<CliRequest, Failure>)
    requires
        !names_position_zero(h, args@),
    ensures
        match request_for(h, args@) {
            Ok(v) => r matches Ok(q) && q@ == v,
            Err(e) => r matches Err(f) && f.warns(e),
        },
        r matches Ok(q) ==> asked_by(q@) == h,
{
    proof {
        lemma_requests_of_their_handler(h, args@);
    }
    match h {
        CliHandler::Play => Ok(CliRequest::Play),
        CliHandler::Pause => Ok(CliRequest::Pause),
        CliHandler::PlayPause => Ok(CliRequest::PlayPause),
        CliHandler::Quit => Ok(CliRequest::Quit),
        CliHandler::Help => Ok(CliRequest::Help),
        CliHandler::Skip => Ok(CliRequest::Skip),
        CliHandler::Song => Ok(CliRequest::ShowSong),
        CliHandler::Queue => Ok(CliRequest::ShowQueue),
        CliHandler::QueueAdd => {
            let (t, info) = parse_song_params(args)?;
            Ok(CliRequest::QueueAdd(t, info))
        },
        CliHandler::QueueRemove => {
            let n = read_number(args)?;
            Ok(CliRequest::QueueRemove(n))
        },
        CliHandler::QueueClear => Ok(CliRequest::QueueClear),
        CliHandler::QueueLoad => Ok(CliRequest::QueueLoad(String::from_str(args))),
        CliHandler::QueueCurrentPlaylist => Ok(CliRequest::QueueCurrentPlaylist),
        CliHandler::QueueShuffle => Ok(CliRequest::QueueShuffle),
        CliHandler::PlayNew => {
            let (t, info) = parse_song_params(args)?;
            Ok(CliRequest::PlayNew(t, info))
        },
        CliHandler::Playlist => Ok(CliRequest::ShowPlaylist),
        CliHandler::PlaylistAdd => {
            proof {
                reveal_strlit("playlist ");
            }
            if text_starts_with(args, "playlist ") {
                let name = String::from_str(args.substring_char(9, args.unicode_len()));
                assert(name@ =~= args@.skip(9));
                Ok(CliRequest::PlaylistAddPlaylist(name))
            } else {
                let (t, info) = parse_song_params(args)?;
                Ok(CliRequest::PlaylistAdd(t, info))
            }
        },
        CliHandler::PlaylistRemove => {
            let n = read_number(args)?;
            Ok(CliRequest::PlaylistRemove(n - 1))
        },
        CliHandler::PlaylistLoad => Ok(CliRequest::PlaylistLoad(String::from_str(args))),
        CliHandler::PlaylistMove => match split_once_space(args) {
            Some((from, to)) => match (parse_usize(from.as_str()), parse_usize(to.as_str())) {
                (Ok(a), Ok(b)) => Ok(CliRequest::PlaylistMove(a - 1, b - 1)),
                _ => {
                    let mut msg = String::from_str("Invalid song indices: from: ");
                    msg.append(from.as_str());
                    msg.append(", to: ");
                    msg.append(to.as_str());
                    Err(warning(msg))
                },
            },
            None => {
                let mut msg = String::from_str("Invalid input for move command: ");
                msg.append(args);
                Err(warning(msg))
            },
        },
        CliHandler::PlaylistNew => match split_once_space(args) {
            Some((name, kind)) => {
                let t = ExternalType::get_from_str(kind.as_str())?;
                Ok(CliRequest::PlaylistNew(name, Some(t)))
            },
            None => Ok(CliRequest::PlaylistNew(String::from_str(args), None)),
        },
        CliHandler::PlaylistGet => {
            let n = read_number(args)?;
            Ok(CliRequest::PlaylistGet(n - 1))
        },
        CliHandler::PlaylistName => Ok(CliRequest::ShowPlaylistName),
        CliHandler::PlaylistRename => Ok(CliRequest::PlaylistRename(String::from_str(args))),
        CliHandler::PlaylistCopy => Ok(CliRequest::PlaylistCopy(String::from_str(args))),
        CliHandler::PlaylistClear => Ok(CliRequest::PlaylistClear),
        CliHandler::ServerAdd => match split_three(args) {
            Some((name, address, certificate)) => Ok(CliRequest::ServerAdd(name, address, certificate)),
            None => {
                let mut msg = String::from_str("Invalid input for server add command: ");
                msg.append(args);
                Err(warning(msg))
            },
        },
        CliHandler::ServerConnect => Ok(CliRequest::ServerConnect),
        CliHandler::ServerQuery => Ok(CliRequest::ServerQuery(String::from_str(args))),
        CliHandler::ServerNotify => Ok(CliRequest::ServerNotify(String::from_str(args))),
    }
}

/// A song as the text interface names it: "<first artist> - <title>".
pub open spec fn summary_text(s: SongView) -> Seq<char> {
    s.info.artists[0] + " - "@ + s.info.title
}

/// The line of the `i`-th song of a list: "<i>: <first artist> - <title>".
pub open spec fn listing_line(i: nat, s: SongView) -> Seq<char> {
    decimal(i) + ": "@ + summary_text(s)
}

/// Whether every song of the list names an artist.
pub open spec fn all_have_artists(songs: Seq<Song>) -> bool {
    forall|i: int| 0 <= i < songs.len() ==> (#[trigger] songs[i]).info.artists@.len() > 0
}

/// The song as the text interface names it: "<first artist> - <title>".
pub fn song_summary(song: &Song) -> (s: String)
    requires
        song.info.artists@.len() > 0,
    ensures
        s@ == summary_text(song@),
{
    let mut s = String::new();
    s.append(song.info.artists[0].as_str());
    s.append(" - ");
    s.append(song.info.title.as_str());
    s
}

/// The line that shows the song playing: "Currently playing: <first artist> - <title>".
pub fn now_playing_line(song: &Song) -> (s: String)
    requires
        song.info.artists@.len() > 0,
    ensures
        s@ == "Currently playing: "@ + summary_text(song@),
{
    let mut s = String::from_str("Currently playing: ");
    let summary = song_summary(song);
    s.append(summary.as_str());
    s
}

/// The lines that list the songs, numbered from 0.
pub fn song_listing(songs: &Vec<Song>) -> (lines: Vec<String>)
    requires
        all_have_artists(songs@),
    ensures
        lines@.len() == songs@.len(),
        forall|i: int| 0 <= i < songs@.len() ==> #[trigger] lines@[i]@ == listing_line(i as nat, songs@[i]@),
{
    let mut lines: Vec<String> = Vec::new();
    let n = songs.len();
    for i in 0..n
        invariant
            n == songs@.len(),
            all_have_artists(songs@),
            lines@.len() == i,
            forall|k: int| 0 <= k < i ==> #[trigger] lines@[k]@ == listing_line(k as nat, songs@[k]@),
    {
        assert(songs@[i as int].info.artists@.len() > 0);
        let mut line = format_usize(i);
        line.append(": ");
        let summary = song_summary(&songs[i]);
        line.append(summary.as_str());
        lines.push(line);
    }
    lines
}

/// The lines that show a playlist: its name and a colon, then its songs
/// numbered from 0.
pub fn playlist_listing(name: &str, songs: &Vec<Song>) -> (lines: Vec<String>)
    requires
        all_have_artists(songs@),
    ensures
        lines@.len() == songs@.len() + 1,
        lines@[0]@ == name@ + ":"@,
        forall|i: int| 0 <= i < songs@.len() ==> #[trigger] lines@[i + 1]@ == listing_line(i as nat, songs@[i]@),
{
    let mut head = String::from_str(name);
    head.append(":");
    let mut lines: Vec<String> = Vec::new();
    lines.push(head);
    let mut rest = song_listing(songs);
    lines.append(&mut rest);
    lines
}

/// The names of the commands of the text interface, in the order they are
/// added, the root first.
pub open spec fn cli_command_names() -> Seq<Seq<char>> {
    seq![
        "root"@,
        "play"@,
        "pause"@,
        "play and pause"@,
        "quit"@,
        "help"@,
        "skip"@,
        "song"@,
        "queue"@,
        "queue add"@,
        "queue remove"@,
        "queue clear"@,
        "queue load playlist"@,
        "queue current playlist"@,
        "queue shuffle"@,
        "play new"@,
        "playlist"@,
        "playlist add"@,
        "playlist remove"@,
        "playlist load"@,
        "playlist move"@,
        "playlist new"@,
        "playlist get"@,
        "playlist name"@,
        "playlist rename"@,
        "playlist copy"@,
        "playlist clear"@,
        "server"@,
        "server add"@,
        "server connect"@,
        "server query"@,
        "server notify"@,
    ]
}

/// The commands of the text interface, in the order of their names: each
/// with the words it answers to, its help text, its subcommands, what runs
/// it and how it takes input.
pub open spec fn cli_command_nodes() -> Seq<NodeView<CliHandler>> {
    seq![
        NodeView {
            aliases: Seq::<Seq<char>>::empty(),
            help: "REVERB commands:"@,
            children: seq![
                "play"@,
                "pause"@,
                "play and pause"@,
                "quit"@,
                "help"@,
                "skip"@,
                "song"@,
                "queue"@,
                "playlist"@,
                "server"@,
            ],
            handler: None,
            call_type: CommandCallType::NotCallable,
        },
        NodeView {
            aliases: seq!["play"@],
            help: " : Play the current song"@,
            children: seq!["play new"@],
            handler: Some(CliHandler::Play),
            call_type: CommandCallType::NoArgs,
        },
        NodeView {
            aliases: seq!["pause"@],
            help: " : Pause the current song"@,
            children: Seq::<Seq<char>>::empty(),
            handler: Some(CliHandler::Pause),
            call_type: CommandCallType::NoArgs,
        },
        NodeView {
            aliases: seq!["playpause"@, "p"@],
            help: " : Play or pause the current song"@,
            children: Seq::<Seq<char>>::empty(),
            handler: Some(CliHandler::PlayPause),
            call_type: CommandCallType::NoArgs,
        },
        NodeView {
            aliases: seq!["quit"@, "exit"@, ":q"@, "x"@],
            help: " : Quit the application"@,
            children: Seq::<Seq<char>>::empty(),
            handler: Some(CliHandler::Quit),
            call_type: CommandCallType::NoArgs,
        },
        NodeView {
            aliases: seq!["help"@, "h"@],
            help: " : Display this help message"@,
            children: Seq::<Seq<char>>::empty(),
            handler: Some(CliHandler::Help),
            call_type: CommandCallType::NoArgs,
        },
        NodeView {
            aliases: seq!["skip"@, "s"@],
            help: " : Skip the current song"@,
            children: Seq::<Seq<char>>::empty(),
            handler: Some(CliHandler::Skip),
            call_type: CommandCallType::NoArgs,
        },
        NodeView {
            aliases: seq!["song"@],
            help: " : Display the currently playing song"@,
            children: Seq::<Seq<char>>::empty(),
            handler: Some(CliHandler::Song),
            call_type: CommandCallType::NoArgs,
        },
        NodeView {
            aliases: seq!["queue"@, "q"@],
            help: " : List the current song queue"@,
            children: seq![
                "queue add"@,
                "queue remove"@,
                "queue clear"@,
                "queue load playlist"@,
                "queue current playlist"@,
                "queue shuffle"@,
            ],
            handler: Some(CliHandler::Queue),
            call_type: CommandCallType::NoArgs,
        },
        NodeView {
            aliases: seq!["add"@, "a"@],
            help: " <song_type> <song_info> : Add a song to the queue"@,
            children: Seq::<Seq<char>>::empty(),
            handler: Some(CliHandler::QueueAdd),
            call_type: CommandCallType::Args,
        },
        NodeView {
            aliases: seq!["remove"@, "r"@],
            help: " <index> : Remove a song from the queue"@,
            children: Seq::<Seq<char>>::empty(),
            handler: Some(CliHandler::QueueRemove),
            call_type: CommandCallType::Args,
        },
        NodeView {
            aliases: seq!["clear"@, "c"@, "cl"@],
            help: " : Clear the queue"@,
            children: Seq::<Seq<char>>::empty(),
            handler: Some(CliHandler::QueueClear),
            call_type: CommandCallType::NoArgs,
        },
        NodeView {
            aliases: seq!["load"@],
            help: " <playlist_name> : Load a playlist into the queue"@,
            children: Seq::<Seq<char>>::empty(),
            handler: Some(CliHandler::QueueLoad),
            call_type: CommandCallType::Args,
        },
        NodeView {
            aliases: seq!["playlist"@, "p"@],
            help: " : Add current playlist songs to the queue"@,
            children: Seq::<Seq<char>>::empty(),
            handler: Some(CliHandler::QueueCurrentPlaylist),
            call_type: CommandCallType::NoArgs,
        },
        NodeView {
            aliases: seq!["shuffle"@, "sh"@, "s"@],
            help: " : Shuffle the queue"@,
            children: Seq::<Seq<char>>::empty(),
            handler: Some(CliHandler::QueueShuffle),
            call_type: CommandCallType::NoArgs,
        },
        NodeView {
            aliases: seq!["new"@, "n"@],
            help: " <song-type> <song-info> : Play a new song from the given info"@,
            children: Seq::<Seq<char>>::empty(),
            handler: Some(CliHandler::PlayNew),
            call_type: CommandCallType::Args,
        },
        NodeView {
            aliases: seq!["playlist"@, "p"@, "pl"@],
            help: " : List the current playlist"@,
            children: seq![
                "playlist add"@,
                "playlist remove"@,
                "playlist load"@,
                "playlist move"@,
                "playlist new"@,
                "playlist get"@,
                "playlist name"@,
                "playlist rename"@,
                "playlist copy"@,
                "playlist clear"@,
            ],
            handler: Some(CliHandler::Playlist),
            call_type: CommandCallType::NoArgs,
        },
        NodeView {
            aliases: seq!["add"@, "a"@],
            help: " <song_type> <song_info> : Add a song to the playlist (or 'playlist add playlist <name>')"@,
            children: Seq::<Seq<char>>::empty(),
            handler: Some(CliHandler::PlaylistAdd),
            call_type: CommandCallType::Args,
        },
        NodeView {
            aliases: seq!["remove"@, "r"@],
            help: " <index> : Remove a song from the playlist"@,
            children: Seq::<Seq<char>>::empty(),
            handler: Some(CliHandler::PlaylistRemove),
            call_type: CommandCallType::Args,
        },
        NodeView {
            aliases: seq!["load"@, "l"@],
            help: " <name> : Load a playlist by name"@,
            children: Seq::<Seq<char>>::empty(),
            handler: Some(CliHandler::PlaylistLoad),
            call_type: CommandCallType::Args,
        },
        NodeView {
            aliases: seq!["move"@, "m"@],
            help: " <from> <to> : Move a song in the playlist"@,
            children: Seq::<Seq<char>>::empty(),
            handler: Some(CliHandler::PlaylistMove),
            call_type: CommandCallType::Args,
        },
        NodeView {
            aliases: seq!["new"@, "n"@],
            help: " <name> [external_type] : Create a new playlist"@,
            children: Seq::<Seq<char>>::empty(),
            handler: Some(CliHandler::PlaylistNew),
            call_type: CommandCallType::Args,
        },
        NodeView {
            aliases: seq!["get"@, "g"@],
            help: " <index> : Get a song by index"@,
            children: Seq::<Seq<char>>::empty(),
            handler: Some(CliHandler::PlaylistGet),
            call_type: CommandCallType::Args,
        },
        NodeView {
            aliases: seq!["name"@],
            help: " : Print the current playlist name"@,
            children: Seq::<Seq<char>>::empty(),
            handler: Some(CliHandler::PlaylistName),
            call_type: CommandCallType::NoArgs,
        },
        NodeView {
            aliases: seq!["rename"@, "set-name"@, "rn"@],
            help: " <new_name> : Set the playlist name"@,
            children: Seq::<Seq<char>>::empty(),
            handler: Some(CliHandler::PlaylistRename),
            call_type: CommandCallType::Args,
        },
        NodeView {
            aliases: seq!["copy"@, "c"@],
            help: " <new_name> : Copy the playlist"@,
            children: Seq::<Seq<char>>::empty(),
            handler: Some(CliHandler::PlaylistCopy),
            call_type: CommandCallType::Args,
        },
        NodeView {
            aliases: seq!["clear"@, "cl"@],
            help: " : Clear the playlist"@,
            children: Seq::<Seq<char>>::empty(),
            handler: Some(CliHandler::PlaylistClear),
            call_type: CommandCallType::NoArgs,
        },
        NodeView {
            aliases: seq!["server"@],
            help: " : Server related commands"@,
            children: seq!["server add"@, "server connect"@, "server query"@, "server notify"@],
            handler: None,
            call_type: CommandCallType::NotCallable,
        },
        NodeView {
            aliases: seq!["add"@],
            help: " <name> <address> <certificate_path> : Add a server configuration"@,
            children: Seq::<Seq<char>>::empty(),
            handler: Some(CliHandler::ServerAdd),
            call_type: CommandCallType::Args,
        },
        NodeView {
            aliases: seq!["connect"@, "con"@],
            help: " : Connect to the server"@,
            children: Seq::<Seq<char>>::empty(),
            handler: Some(CliHandler::ServerConnect),
            call_type: CommandCallType::NoArgs,
        },
        NodeView {
            aliases: seq!["query"@, "qry"@],
            help: " <message> : Send a query to the server"@,
            children: Seq::<Seq<char>>::empty(),
            handler: Some(CliHandler::ServerQuery),
            call_type: CommandCallType::Args,
        },
        NodeView {
            aliases: seq!["notify"@, "send"@, "snd"@],
            help: " <message> : Notify the server"@,
            children: Seq::<Seq<char>>::empty(),
            handler: Some(CliHandler::ServerNotify),
            call_type: CommandCallType::Args,
        },
    ]
}

/// The command each handler of the text interface belongs to, by name.
pub open spec fn command_name_of(h: CliHandler) -> Seq<char> {
    match h {
        CliHandler::Play => "play"@,
        CliHandler::Pause => "pause"@,
        CliHandler::PlayPause => "play and pause"@,
        CliHandler::Quit => "quit"@,
        CliHandler::Help => "help"@,
        CliHandler::Skip => "skip"@,
        CliHandler::Song => "song"@,
        CliHandler::Queue => "queue"@,
        CliHandler::QueueAdd => "queue add"@,
        CliHandler::QueueRemove => "queue remove"@,
        CliHandler::QueueClear => "queue clear"@,
        CliHandler::QueueLoad => "queue load playlist"@,
        CliHandler::QueueCurrentPlaylist => "queue current playlist"@,
        CliHandler::QueueShuffle => "queue shuffle"@,
        CliHandler::PlayNew => "play new"@,
        CliHandler::Playlist => "playlist"@,
        CliHandler::PlaylistAdd => "playlist add"@,
        CliHandler::PlaylistRemove => "playlist remove"@,
        CliHandler::PlaylistLoad => "playlist load"@,
        CliHandler::PlaylistMove => "playlist move"@,
        CliHandler::PlaylistNew => "playlist new"@,
        CliHandler::PlaylistGet => "playlist get"@,
        CliHandler::PlaylistName => "playlist name"@,
        CliHandler::PlaylistRename => "playlist rename"@,
        CliHandler::PlaylistCopy => "playlist copy"@,
        CliHandler::PlaylistClear => "playlist clear"@,
        CliHandler::ServerAdd => "server add"@,
        CliHandler::ServerConnect => "server connect"@,
        CliHandler::ServerQuery => "server query"@,
        CliHandler::ServerNotify => "server notify"@,
    }
}

/// Each command of the text interface runs the handler of its own name:
/// whatever handler a command of the table runs belongs to the command of
/// that name, and every handler is run by the command of its name.
pub proof fn lemma_commands_run_their_own_handlers()
    ensures
        forall|i: int|
            0 <= i < cli_command_nodes().len() ==> (#[trigger] cli_command_nodes()[i].handler matches Some(h)
                ==> command_name_of(h) == cli_command_names()[i]),
        forall|h: CliHandler|
            #![trigger command_name_of(h)]
            exists|i: int|
                0 <= i < cli_command_nodes().len() && #[trigger] cli_command_nodes()[i].handler == Some(h)
                    && cli_command_names()[i] == command_name_of(h),
        cli_command_nodes().len() == cli_command_names().len(),
{
    assert forall|i: int|
        0 <= i < cli_command_nodes().len() implies (#[trigger] cli_command_nodes()[i].handler matches Some(h)
            ==> command_name_of(h) == cli_command_names()[i]) by {
        assert(
            i == 0 || i == 1 || i == 2 || i == 3 || i == 4 || i == 5 || i == 6 || i == 7
            || i == 8 || i == 9 || i == 10 || i == 11 || i == 12 || i == 13 || i == 14 || i == 15
            || i == 16 || i == 17 || i == 18 || i == 19 || i == 20 || i == 21 || i == 22 || i == 23
            || i == 24 || i == 25 || i == 26 || i == 27 || i == 28 || i == 29 || i == 30 || i == 31
        );
    }
    assert forall|h: CliHandler|
        #![trigger command_name_of(h)]
        exists|i: int|
            0 <= i < cli_command_nodes().len() && #[trigger] cli_command_nodes()[i].handler == Some(h)
                && cli_command_names()[i] == command_name_of(h) by {
        match h {
            CliHandler::Play => assert(cli_command_nodes()[1].handler == Some(h)),
            CliHandler::Pause => assert(cli_command_nodes()[2].handler == Some(h)),
            CliHandler::PlayPause => assert(cli_command_nodes()[3].handler == Some(h)),
            CliHandler::Quit => assert(cli_command_nodes()[4].handler == Some(h)),
            CliHandler::Help => assert(cli_command_nodes()[5].handler == Some(h)),
            CliHandler::Skip => assert(cli_command_nodes()[6].handler == Some(h)),
            CliHandler::Song => assert(cli_command_nodes()[7].handler == Some(h)),
            CliHandler::Queue => assert(cli_command_nodes()[8].handler == Some(h)),
            CliHandler::QueueAdd => assert(cli_command_nodes()[9].handler == Some(h)),
            CliHandler::QueueRemove => assert(cli_command_nodes()[10].handler == Some(h)),
            CliHandler::QueueClear => assert(cli_command_nodes()[11].handler == Some(h)),
            CliHandler::QueueLoad => assert(cli_command_nodes()[12].handler == Some(h)),
            CliHandler::QueueCurrentPlaylist => assert(cli_command_nodes()[13].handler == Some(h)),
            CliHandler::QueueShuffle => assert(cli_command_nodes()[14].handler == Some(h)),
            CliHandler::PlayNew => assert(cli_command_nodes()[15].handler == Some(h)),
            CliHandler::Playlist => assert(cli_command_nodes()[16].handler == Some(h)),
            CliHandler::PlaylistAdd => assert(cli_command_nodes()[17].handler == Some(h)),
            CliHandler::PlaylistRemove => assert(cli_command_nodes()[18].handler == Some(h)),
            CliHandler::PlaylistLoad => assert(cli_command_nodes()[19].handler == Some(h)),
            CliHandler::PlaylistMove => assert(cli_command_nodes()[20].handler == Some(h)),
            CliHandler::PlaylistNew => assert(cli_command_nodes()[21].handler == Some(h)),
            CliHandler::PlaylistGet => assert(cli_command_nodes()[22].handler == Some(h)),
            CliHandler::PlaylistName => assert(cli_command_nodes()[23].handler == Some(h)),
            CliHandler::PlaylistRename => assert(cli_command_nodes()[24].handler == Some(h)),
            CliHandler::PlaylistCopy => assert(cli_command_nodes()[25].handler == Some(h)),
            CliHandler::PlaylistClear => assert(cli_command_nodes()[26].handler == Some(h)),
            CliHandler::ServerAdd => assert(cli_command_nodes()[28].handler == Some(h)),
            CliHandler::ServerConnect => assert(cli_command_nodes()[29].handler == Some(h)),
            CliHandler::ServerQuery => assert(cli_command_nodes()[30].handler == Some(h)),
            CliHandler::ServerNotify => assert(cli_command_nodes()[31].handler == Some(h)),
        }
    }
}

/// A command of the table, with only the subcommands it has so far.
pub open spec fn cli_node_so_far(i: int, children: Seq<Seq<char>>) -> NodeView<CliHandler> {
    NodeView { children, ..cli_command_nodes()[i] }
}

/// What tells the words of the command table apart: each word's length,
/// and for two words of one length that must differ (two command names, or
/// aliases of two subcommands of one command), a place where they differ.
proof fn lemma_command_words()
    ensures
        ":q"@.len() == 2,
        "exit"@.len() == 4,
        "h"@.len() == 1,
        "help"@.len() == 4,
        "p"@.len() == 1,
        "pause"@.len() == 5,
        "play"@.len() == 4,
        "play and pause"@.len() == 14,
        "playpause"@.len() == 9,
        "q"@.len() == 1,
        "queue"@.len() == 5,
        "quit"@.len() == 4,
        "root"@.len() == 4,
        "s"@.len() == 1,
        "skip"@.len() == 4,
        "song"@.len() == 4,
        "x"@.len() == 1,
        "a"@.len() == 1,
        "add"@.len() == 3,
        "c"@.len() == 1,
        "cl"@.len() == 2,
        "clear"@.len() == 5,
        "load"@.len() == 4,
        "n"@.len() == 1,
        "new"@.len() == 3,
        "play new"@.len() == 8,
        "playlist"@.len() == 8,
        "queue add"@.len() == 9,
        "queue clear"@.len() == 11,
        "queue current playlist"@.len() == 22,
        "queue load playlist"@.len() == 19,
        "queue remove"@.len() == 12,
        "queue shuffle"@.len() == 13,
        "r"@.len() == 1,
        "remove"@.len() == 6,
        "sh"@.len() == 2,
        "shuffle"@.len() == 7,
        "l"@.len() == 1,
        "m"@.len() == 1,
        "move"@.len() == 4,
        "pl"@.len() == 2,
        "playlist add"@.len() == 12,
        "playlist load"@.len() == 13,
        "playlist move"@.len() == 13,
        "playlist new"@.len() == 12,
        "playlist remove"@.len() == 15,
        "copy"@.len() == 4,
        "g"@.len() == 1,
        "get"@.len() == 3,
        "name"@.len() == 4,
        "playlist clear"@.len() == 14,
        "playlist copy"@.len() == 13,
        "playlist get"@.len() == 12,
        "playlist name"@.len() == 13,
        "playlist rename"@.len() == 15,
        "rename"@.len() == 6,
        "rn"@.len() == 2,
        "set-name"@.len() == 8,
        "con"@.len() == 3,
        "connect"@.len() == 7,
        "notify"@.len() == 6,
        "qry"@.len() == 3,
        "query"@.len() == 5,
        "send"@.len() == 4,
        "server"@.len() == 6,
        "server add"@.len() == 10,
        "server connect"@.len() == 14,
        "server notify"@.len() == 13,
        "server query"@.len() == 12,
        "snd"@.len() == 3,
        "root"@[0] != "play"@[0],
        "root"@[0] != "quit"@[0],
        "play"@[0] != "quit"@[0],
        "root"@[0] != "help"@[0],
        "play"@[0] != "help"@[0],
        "quit"@[0] != "help"@[0],
        "root"@[0] != "skip"@[0],
        "play"@[0] != "skip"@[0],
        "quit"@[0] != "skip"@[0],
        "help"@[0] != "skip"@[0],
        "root"@[0] != "song"@[0],
        "play"@[0] != "song"@[0],
        "quit"@[0] != "song"@[0],
        "help"@[0] != "song"@[0],
        "skip"@[1] != "song"@[1],
        "pause"@[0] != "queue"@[0],
        "a"@[0] != "r"@[0],
        "a"@[0] != "c"@[0],
        "r"@[0] != "c"@[0],
        "a"@[0] != "p"@[0],
        "r"@[0] != "p"@[0],
        "c"@[0] != "p"@[0],
        "a"@[0] != "s"@[0],
        "r"@[0] != "s"@[0],
        "c"@[0] != "s"@[0],
        "cl"@[0] != "sh"@[0],
        "p"@[0] != "s"@[0],
        "play new"@[4] != "playlist"@[4],
        "queue remove"@[0] != "playlist add"@[0],
        "queue shuffle"@[0] != "playlist load"@[0],
        "a"@[0] != "l"@[0],
        "r"@[0] != "l"@[0],
        "queue shuffle"@[0] != "playlist move"@[0],
        "playlist load"@[9] != "playlist move"@[9],
        "a"@[0] != "m"@[0],
        "r"@[0] != "m"@[0],
        "load"@[0] != "move"@[0],
        "l"@[0] != "m"@[0],
        "queue remove"@[0] != "playlist new"@[0],
        "playlist add"@[9] != "playlist new"@[9],
        "add"@[0] != "new"@[0],
        "a"@[0] != "n"@[0],
        "r"@[0] != "n"@[0],
        "l"@[0] != "n"@[0],
        "m"@[0] != "n"@[0],
        "queue remove"@[0] != "playlist get"@[0],
        "playlist add"@[9] != "playlist get"@[9],
        "playlist new"@[9] != "playlist get"@[9],
        "add"@[0] != "get"@[0],
        "a"@[0] != "g"@[0],
        "r"@[0] != "g"@[0],
        "l"@[0] != "g"@[0],
        "m"@[0] != "g"@[0],
        "new"@[0] != "get"@[0],
        "n"@[0] != "g"@[0],
        "queue shuffle"@[0] != "playlist name"@[0],
        "playlist load"@[9] != "playlist name"@[9],
        "playlist move"@[9] != "playlist name"@[9],
        "load"@[0] != "name"@[0],
        "move"@[0] != "name"@[0],
        "playlist remove"@[11] != "playlist rename"@[11],
        "remove"@[2] != "rename"@[2],
        "queue shuffle"@[0] != "playlist copy"@[0],
        "playlist load"@[9] != "playlist copy"@[9],
        "playlist move"@[9] != "playlist copy"@[9],
        "playlist name"@[9] != "playlist copy"@[9],
        "load"@[0] != "copy"@[0],
        "l"@[0] != "c"@[0],
        "move"@[0] != "copy"@[0],
        "m"@[0] != "c"@[0],
        "n"@[0] != "c"@[0],
        "g"@[0] != "c"@[0],
        "name"@[0] != "copy"@[0],
        "play and pause"@[4] != "playlist clear"@[4],
        "rn"@[0] != "cl"@[0],
        "play and pause"@[0] != "server connect"@[0],
        "playlist clear"@[0] != "server connect"@[0],
        "add"@[0] != "con"@[0],
        "queue remove"@[0] != "server query"@[0],
        "playlist add"@[0] != "server query"@[0],
        "playlist new"@[0] != "server query"@[0],
        "playlist get"@[0] != "server query"@[0],
        "add"@[0] != "qry"@[0],
        "con"@[0] != "qry"@[0],
        "queue shuffle"@[0] != "server notify"@[0],
        "playlist load"@[0] != "server notify"@[0],
        "playlist move"@[0] != "server notify"@[0],
        "playlist name"@[0] != "server notify"@[0],
        "playlist copy"@[0] != "server notify"@[0],
        "add"@[0] != "snd"@[0],
        "con"@[0] != "snd"@[0],
        "qry"@[0] != "snd"@[0],
{
    reveal_strlit(":q");
    reveal_strlit("a");
    reveal_strlit("add");
    reveal_strlit("c");
    reveal_strlit("cl");
    reveal_strlit("clear");
    reveal_strlit("con");
    reveal_strlit("connect");
    reveal_strlit("copy");
    reveal_strlit("exit");
    reveal_strlit("g");
    reveal_strlit("get");
    reveal_strlit("h");
    reveal_strlit("help");
    reveal_strlit("l");
    reveal_strlit("load");
    reveal_strlit("m");
    reveal_strlit("move");
    reveal_strlit("n");
    reveal_strlit("name");
    reveal_strlit("new");
    reveal_strlit("notify");
    reveal_strlit("p");
    reveal_strlit("pause");
    reveal_strlit("pl");
    reveal_strlit("play and pause");
    reveal_strlit("play new");
    reveal_strlit("play");
    reveal_strlit("playlist add");
    reveal_strlit("playlist clear");
    reveal_strlit("playlist copy");
    reveal_strlit("playlist get");
    reveal_strlit("playlist load");
    reveal_strlit("playlist move");
    reveal_strlit("playlist name");
    reveal_strlit("playlist new");
    reveal_strlit("playlist remove");
    reveal_strlit("playlist rename");
    reveal_strlit("playlist");
    reveal_strlit("playpause");
    reveal_strlit("q");
    reveal_strlit("qry");
    reveal_strlit("query");
    reveal_strlit("queue add");
    reveal_strlit("queue clear");
    reveal_strlit("queue current playlist");
    reveal_strlit("queue load playlist");
    reveal_strlit("queue remove");
    reveal_strlit("queue shuffle");
    reveal_strlit("queue");
    reveal_strlit("quit");
    reveal_strlit("r");
    reveal_strlit("remove");
    reveal_strlit("rename");
    reveal_strlit("rn");
    reveal_strlit("root");
    reveal_strlit("s");
    reveal_strlit("send");
    reveal_strlit("server add");
    reveal_strlit("server connect");
    reveal_strlit("server notify");
    reveal_strlit("server query");
    reveal_strlit("server");
    reveal_strlit("set-name");
    reveal_strlit("sh");
    reveal_strlit("shuffle");
    reveal_strlit("skip");
    reveal_strlit("snd");
    reveal_strlit("song");
    reveal_strlit("x");
}

/// Adds the commands at the root, from "play" to "queue".
fn add_root_commands(t: CommandSpec<CliHandler>) -> (r: CommandSpec<CliHandler>)
    requires
        t.wf(),
        t.siblings_disjoint(),
        t.names_view() == cli_command_names().take(1),
        t.size() == 1,
        t.node_view(0) == cli_node_so_far(0, Seq::<Seq<char>>::empty()),
    ensures
        r.wf(),
        r.siblings_disjoint(),
        r.names_view() == cli_command_names().take(9),
        r.size() == 9,
        r.node_view(0) == cli_node_so_far(0, seq![
            "play"@,
            "pause"@,
            "play and pause"@,
            "quit"@,
            "help"@,
            "skip"@,
            "song"@,
            "queue"@,
        ]),
        r.node_view(1) == cli_node_so_far(1, Seq::<Seq<char>>::empty()),
        r.node_view(2) == cli_command_nodes()[2],
        r.node_view(3) == cli_command_nodes()[3],
        r.node_view(4) == cli_command_nodes()[4],
        r.node_view(5) == cli_command_nodes()[5],
        r.node_view(6) == cli_command_nodes()[6],
        r.node_view(7) == cli_command_nodes()[7],
        r.node_view(8) == cli_node_so_far(8, Seq::<Seq<char>>::empty()),
{
    proof {
        lemma_command_words();
    }
    let t = t.add(
        "play",
        vec!["play"],
        " : Play the current song",
        Some(CliHandler::Play),
        CommandCallType::NoArgs,
        None,
    );
    proof {
        assert(t.node_view(1) =~= cli_node_so_far(1, Seq::<Seq<char>>::empty()));
        assert(t.node_view(0) =~= cli_node_so_far(0, seq!["play"@]));
    }
    let t = t.add(
        "pause",
        vec!["pause"],
        " : Pause the current song",
        Some(CliHandler::Pause),
        CommandCallType::NoArgs,
        None,
    );
    proof {
        assert(t.node_view(2) =~= cli_command_nodes()[2]);
        assert(t.node_view(0) =~= cli_node_so_far(0, seq!["play"@, "pause"@]));
    }
    let t = t.add(
        "play and pause",
        vec!["playpause", "p"],
        " : Play or pause the current song",
        Some(CliHandler::PlayPause),
        CommandCallType::NoArgs,
        None,
    );
    proof {
        assert(t.node_view(3) =~= cli_command_nodes()[3]);
        assert(t.node_view(0) =~= cli_node_so_far(0, seq!["play"@, "pause"@, "play and pause"@]));
    }
    let t = t.add(
        "quit",
        vec!["quit", "exit", ":q", "x"],
        " : Quit the application",
        Some(CliHandler::Quit),
        CommandCallType::NoArgs,
        None,
    );
    proof {
        assert(t.node_view(4) =~= cli_command_nodes()[4]);
        assert(t.node_view(0) =~= cli_node_so_far(0, seq![
            "play"@,
            "pause"@,
            "play and pause"@,
            "quit"@,
        ]));
    }
    let t = t.add(
        "help",
        vec!["help", "h"],
        " : Display this help message",
        Some(CliHandler::Help),
        CommandCallType::NoArgs,
        None,
    );
    proof {
        assert(t.node_view(5) =~= cli_command_nodes()[5]);
        assert(t.node_view(0) =~= cli_node_so_far(0, seq![
            "play"@,
            "pause"@,
            "play and pause"@,
            "quit"@,
            "help"@,
        ]));
    }
    let t = t.add(
        "skip",
        vec!["skip", "s"],
        " : Skip the current song",
        Some(CliHandler::Skip),
        CommandCallType::NoArgs,
        None,
    );
    proof {
        assert(t.node_view(6) =~= cli_command_nodes()[6]);
        assert(t.node_view(0) =~= cli_node_so_far(0, seq![
            "play"@,
            "pause"@,
            "play and pause"@,
            "quit"@,
            "help"@,
            "skip"@,
        ]));
    }
    let t = t.add(
        "song",
        vec!["song"],
        " : Display the currently playing song",
        Some(CliHandler::Song),
        CommandCallType::NoArgs,
        None,
    );
    proof {
        assert(t.node_view(7) =~= cli_command_nodes()[7]);
        assert(t.node_view(0) =~= cli_node_so_far(0, seq![
            "play"@,
            "pause"@,
            "play and pause"@,
            "quit"@,
            "help"@,
            "skip"@,
            "song"@,
        ]));
    }
    let t = t.add(
        "queue",
        vec!["queue", "q"],
        " : List the current song queue",
        Some(CliHandler::Queue),
        CommandCallType::NoArgs,
        None,
    );
    proof {
        assert(t.node_view(8) =~= cli_node_so_far(8, Seq::<Seq<char>>::empty()));
        assert(t.node_view(0) =~= cli_node_so_far(0, seq![
            "play"@,
            "pause"@,
            "play and pause"@,
            "quit"@,
            "help"@,
            "skip"@,
            "song"@,
            "queue"@,
        ]));
    }
    t
}

/// Adds the subcommands of "queue" and of "play".
fn add_queue_commands(t: CommandSpec<CliHandler>) -> (r: CommandSpec<CliHandler>)
    requires
        t.wf(),
        t.siblings_disjoint(),
        t.names_view() == cli_command_names().take(9),
        t.size() == 9,
        t.node_view(0) == cli_node_so_far(0, seq![
            "play"@,
            "pause"@,
            "play and pause"@,
            "quit"@,
            "help"@,
            "skip"@,
            "song"@,
            "queue"@,
        ]),
        t.node_view(1) == cli_node_so_far(1, Seq::<Seq<char>>::empty()),
        t.node_view(2) == cli_command_nodes()[2],
        t.node_view(3) == cli_command_nodes()[3],
        t.node_view(4) == cli_command_nodes()[4],
        t.node_view(5) == cli_command_nodes()[5],
        t.node_view(6) == cli_command_nodes()[6],
        t.node_view(7) == cli_command_nodes()[7],
        t.node_view(8) == cli_node_so_far(8, Seq::<Seq<char>>::empty()),
    ensures
        r.wf(),
        r.siblings_disjoint(),
        r.names_view() == cli_command_names().take(16),
        r.size() == 16,
        r.node_view(0) == cli_node_so_far(0, seq![
            "play"@,
            "pause"@,
            "play and pause"@,
            "quit"@,
            "help"@,
            "skip"@,
            "song"@,
            "queue"@,
        ]),
        r.node_view(1) == cli_command_nodes()[1],
        r.node_view(2) == cli_command_nodes()[2],
        r.node_view(3) == cli_command_nodes()[3],
        r.node_view(4) == cli_command_nodes()[4],
        r.node_view(5) == cli_command_nodes()[5],
        r.node_view(6) == cli_command_nodes()[6],
        r.node_view(7) == cli_command_nodes()[7],
        r.node_view(8) == cli_command_nodes()[8],
        r.node_view(9) == cli_command_nodes()[9],
        r.node_view(10) == cli_command_nodes()[10],
        r.node_view(11) == cli_command_nodes()[11],
        r.node_view(12) == cli_command_nodes()[12],
        r.node_view(13) == cli_command_nodes()[13],
        r.node_view(14) == cli_command_nodes()[14],
        r.node_view(15) == cli_command_nodes()[15],
{
    proof {
        lemma_command_words();
        t.lemma_index_of(8);
    }
    let t = t.add(
        "queue add",
        vec!["add", "a"],
        " <song_type> <song_info> : Add a song to the queue",
        Some(CliHandler::QueueAdd),
        CommandCallType::Args,
        Some("queue"),
    );
    proof {
        assert(t.node_view(9) =~= cli_command_nodes()[9]);
        assert(t.node_view(8) =~= cli_node_so_far(8, seq!["queue add"@]));
        t.lemma_index_of(8);
        t.lemma_index_of(9);
    }
    let t = t.add(
        "queue remove",
        vec!["remove", "r"],
        " <index> : Remove a song from the queue",
        Some(CliHandler::QueueRemove),
        CommandCallType::Args,
        Some("queue"),
    );
    proof {
        assert(t.node_view(10) =~= cli_command_nodes()[10]);
        assert(t.node_view(8) =~= cli_node_so_far(8, seq!["queue add"@, "queue remove"@]));
        t.lemma_index_of(8);
        t.lemma_index_of(9);
        t.lemma_index_of(10);
    }
    let t = t.add(
        "queue clear",
        vec!["clear", "c", "cl"],
        " : Clear the queue",
        Some(CliHandler::QueueClear),
        CommandCallType::NoArgs,
        Some("queue"),
    );
    proof {
        assert(t.node_view(11) =~= cli_command_nodes()[11]);
        assert(t.node_view(8) =~= cli_node_so_far(8, seq![
            "queue add"@,
            "queue remove"@,
            "queue clear"@,
        ]));
        t.lemma_index_of(8);
        t.lemma_index_of(9);
        t.lemma_index_of(10);
        t.lemma_index_of(11);
    }
    let t = t.add(
        "queue load playlist",
        vec!["load"],
        " <playlist_name> : Load a playlist into the queue",
        Some(CliHandler::QueueLoad),
        CommandCallType::Args,
        Some("queue"),
    );
    proof {
        assert(t.node_view(12) =~= cli_command_nodes()[12]);
        assert(t.node_view(8) =~= cli_node_so_far(8, seq![
            "queue add"@,
            "queue remove"@,
            "queue clear"@,
            "queue load playlist"@,
        ]));
        t.lemma_index_of(8);
        t.lemma_index_of(9);
        t.lemma_index_of(10);
        t.lemma_index_of(11);
        t.lemma_index_of(12);
    }
    let t = t.add(
        "queue current playlist",
        vec!["playlist", "p"],
        " : Add current playlist songs to the queue",
        Some(CliHandler::QueueCurrentPlaylist),
        CommandCallType::NoArgs,
        Some("queue"),
    );
    proof {
        assert(t.node_view(13) =~= cli_command_nodes()[13]);
        assert(t.node_view(8) =~= cli_node_so_far(8, seq![
            "queue add"@,
            "queue remove"@,
            "queue clear"@,
            "queue load playlist"@,
            "queue current playlist"@,
        ]));
        t.lemma_index_of(8);
        t.lemma_index_of(9);
        t.lemma_index_of(10);
        t.lemma_index_of(11);
        t.lemma_index_of(12);
        t.lemma_index_of(13);
    }
    let t = t.add(
        "queue shuffle",
        vec!["shuffle", "sh", "s"],
        " : Shuffle the queue",
        Some(CliHandler::QueueShuffle),
        CommandCallType::NoArgs,
        Some("queue"),
    );
    proof {
        assert(t.node_view(14) =~= cli_command_nodes()[14]);
        assert(t.node_view(8) =~= cli_command_nodes()[8]);
        t.lemma_index_of(1);
    }
    let t = t.add(
        "play new",
        vec!["new", "n"],
        " <song-type> <song-info> : Play a new song from the given info",
        Some(CliHandler::PlayNew),
        CommandCallType::Args,
        Some("play"),
    );
    proof {
        assert(t.node_view(15) =~= cli_command_nodes()[15]);
        assert(t.node_view(1) =~= cli_command_nodes()[1]);
    }
    t
}

/// Adds "playlist" and its first subcommands.
fn add_first_playlist_commands(t: CommandSpec<CliHandler>) -> (r: CommandSpec<CliHandler>)
    requires
        t.wf(),
        t.siblings_disjoint(),
        t.names_view() == cli_command_names().take(16),
        t.size() == 16,
        t.node_view(0) == cli_node_so_far(0, seq![
            "play"@,
            "pause"@,
            "play and pause"@,
            "quit"@,
            "help"@,
            "skip"@,
            "song"@,
            "queue"@,
        ]),
        t.node_view(1) == cli_command_nodes()[1],
        t.node_view(2) == cli_command_nodes()[2],
        t.node_view(3) == cli_command_nodes()[3],
        t.node_view(4) == cli_command_nodes()[4],
        t.node_view(5) == cli_command_nodes()[5],
        t.node_view(6) == cli_command_nodes()[6],
        t.node_view(7) == cli_command_nodes()[7],
        t.node_view(8) == cli_command_nodes()[8],
        t.node_view(9) == cli_command_nodes()[9],
        t.node_view(10) == cli_command_nodes()[10],
        t.node_view(11) == cli_command_nodes()[11],
        t.node_view(12) == cli_command_nodes()[12],
        t.node_view(13) == cli_command_nodes()[13],
        t.node_view(14) == cli_command_nodes()[14],
        t.node_view(15) == cli_command_nodes()[15],
    ensures
        r.wf(),
        r.siblings_disjoint(),
        r.names_view() == cli_command_names().take(22),
        r.size() == 22,
        r.node_view(0) == cli_node_so_far(0, seq![
            "play"@,
            "pause"@,
            "play and pause"@,
            "quit"@,
            "help"@,
            "skip"@,
            "song"@,
            "queue"@,
            "playlist"@,
        ]),
        r.node_view(1) == cli_command_nodes()[1],
        r.node_view(2) == cli_command_nodes()[2],
        r.node_view(3) == cli_command_nodes()[3],
        r.node_view(4) == cli_command_nodes()[4],
        r.node_view(5) == cli_command_nodes()[5],
        r.node_view(6) == cli_command_nodes()[6],
        r.node_view(7) == cli_command_nodes()[7],
        r.node_view(8) == cli_command_nodes()[8],
        r.node_view(9) == cli_command_nodes()[9],
        r.node_view(10) == cli_command_nodes()[10],
        r.node_view(11) == cli_command_nodes()[11],
        r.node_view(12) == cli_command_nodes()[12],
        r.node_view(13) == cli_command_nodes()[13],
        r.node_view(14) == cli_command_nodes()[14],
        r.node_view(15) == cli_command_nodes()[15],
        r.node_view(16) == cli_node_so_far(16, seq![
            "playlist add"@,
            "playlist remove"@,
            "playlist load"@,
            "playlist move"@,
            "playlist new"@,
        ]),
        r.node_view(17) == cli_command_nodes()[17],
        r.node_view(18) == cli_command_nodes()[18],
        r.node_view(19) == cli_command_nodes()[19],
        r.node_view(20) == cli_command_nodes()[20],
        r.node_view(21) == cli_command_nodes()[21],
{
    proof {
        lemma_command_words();
    }
    let t = t.add(
        "playlist",
        vec!["playlist", "p", "pl"],
        " : List the current playlist",
        Some(CliHandler::Playlist),
        CommandCallType::NoArgs,
        None,
    );
    proof {
        assert(t.node_view(16) =~= cli_node_so_far(16, Seq::<Seq<char>>::empty()));
        assert(t.node_view(0) =~= cli_node_so_far(0, seq![
            "play"@,
            "pause"@,
            "play and pause"@,
            "quit"@,
            "help"@,
            "skip"@,
            "song"@,
            "queue"@,
            "playlist"@,
        ]));
        t.lemma_index_of(16);
    }
    let t = t.add(
        "playlist add",
        vec!["add", "a"],
        " <song_type> <song_info> : Add a song to the playlist (or 'playlist add playlist <name>')",
        Some(CliHandler::PlaylistAdd),
        CommandCallType::Args,
        Some("playlist"),
    );
    proof {
        assert(t.node_view(17) =~= cli_command_nodes()[17]);
        assert(t.node_view(16) =~= cli_node_so_far(16, seq!["playlist add"@]));
        t.lemma_index_of(16);
        t.lemma_index_of(17);
    }
    let t = t.add(
        "playlist remove",
        vec!["remove", "r"],
        " <index> : Remove a song from the playlist",
        Some(CliHandler::PlaylistRemove),
        CommandCallType::Args,
        Some("playlist"),
    );
    proof {
        assert(t.node_view(18) =~= cli_command_nodes()[18]);
        assert(t.node_view(16) =~= cli_node_so_far(16, seq!["playlist add"@, "playlist remove"@]));
        t.lemma_index_of(16);
        t.lemma_index_of(17);
        t.lemma_index_of(18);
    }
    let t = t.add(
        "playlist load",
        vec!["load", "l"],
        " <name> : Load a playlist by name",
        Some(CliHandler::PlaylistLoad),
        CommandCallType::Args,
        Some("playlist"),
    );
    proof {
        assert(t.node_view(19) =~= cli_command_nodes()[19]);
        assert(t.node_view(16) =~= cli_node_so_far(16, seq![
            "playlist add"@,
            "playlist remove"@,
            "playlist load"@,
        ]));
        t.lemma_index_of(16);
        t.lemma_index_of(17);
        t.lemma_index_of(18);
        t.lemma_index_of(19);
    }
    let t = t.add(
        "playlist move",
        vec!["move", "m"],
        " <from> <to> : Move a song in the playlist",
        Some(CliHandler::PlaylistMove),
        CommandCallType::Args,
        Some("playlist"),
    );
    proof {
        assert(t.node_view(20) =~= cli_command_nodes()[20]);
        assert(t.node_view(16) =~= cli_node_so_far(16, seq![
            "playlist add"@,
            "playlist remove"@,
            "playlist load"@,
            "playlist move"@,
        ]));
        t.lemma_index_of(16);
        t.lemma_index_of(17);
        t.lemma_index_of(18);
        t.lemma_index_of(19);
        t.lemma_index_of(20);
    }
    let t = t.add(
        "playlist new",
        vec!["new", "n"],
        " <name> [external_type] : Create a new playlist",
        Some(CliHandler::PlaylistNew),
        CommandCallType::Args,
        Some("playlist"),
    );
    proof {
        assert(t.node_view(21) =~= cli_command_nodes()[21]);
        assert(t.node_view(16) =~= cli_node_so_far(16, seq![
            "playlist add"@,
            "playlist remove"@,
            "playlist load"@,
            "playlist move"@,
            "playlist new"@,
        ]));
    }
    t
}

/// Adds the other subcommands of "playlist".
fn add_more_playlist_commands(t: CommandSpec<CliHandler>) -> (r: CommandSpec<CliHandler>)
    requires
        t.wf(),
        t.siblings_disjoint(),
        t.names_view() == cli_command_names().take(22),
        t.size() == 22,
        t.node_view(0) == cli_node_so_far(0, seq![
            "play"@,
            "pause"@,
            "play and pause"@,
            "quit"@,
            "help"@,
            "skip"@,
            "song"@,
            "queue"@,
            "playlist"@,
        ]),
        t.node_view(1) == cli_command_nodes()[1],
        t.node_view(2) == cli_command_nodes()[2],
        t.node_view(3) == cli_command_nodes()[3],
        t.node_view(4) == cli_command_nodes()[4],
        t.node_view(5) == cli_command_nodes()[5],
        t.node_view(6) == cli_command_nodes()[6],
        t.node_view(7) == cli_command_nodes()[7],
        t.node_view(8) == cli_command_nodes()[8],
        t.node_view(9) == cli_command_nodes()[9],
        t.node_view(10) == cli_command_nodes()[10],
        t.node_view(11) == cli_command_nodes()[11],
        t.node_view(12) == cli_command_nodes()[12],
        t.node_view(13) == cli_command_nodes()[13],
        t.node_view(14) == cli_command_nodes()[14],
        t.node_view(15) == cli_command_nodes()[15],
        t.node_view(16) == cli_node_so_far(16, seq![
            "playlist add"@,
            "playlist remove"@,
            "playlist load"@,
            "playlist move"@,
            "playlist new"@,
        ]),
        t.node_view(17) == cli_command_nodes()[17],
        t.node_view(18) == cli_command_nodes()[18],
        t.node_view(19) == cli_command_nodes()[19],
        t.node_view(20) == cli_command_nodes()[20],
        t.node_view(21) == cli_command_nodes()[21],
    ensures
        r.wf(),
        r.siblings_disjoint(),
        r.names_view() == cli_command_names().take(27),
        r.size() == 27,
        r.node_view(0) == cli_node_so_far(0, seq![
            "play"@,
            "pause"@,
            "play and pause"@,
            "quit"@,
            "help"@,
            "skip"@,
            "song"@,
            "queue"@,
            "playlist"@,
        ]),
        r.node_view(1) == cli_command_nodes()[1],
        r.node_view(2) == cli_command_nodes()[2],
        r.node_view(3) == cli_command_nodes()[3],
        r.node_view(4) == cli_command_nodes()[4],
        r.node_view(5) == cli_command_nodes()[5],
        r.node_view(6) == cli_command_nodes()[6],
        r.node_view(7) == cli_command_nodes()[7],
        r.node_view(8) == cli_command_nodes()[8],
        r.node_view(9) == cli_command_nodes()[9],
        r.node_view(10) == cli_command_nodes()[10],
        r.node_view(11) == cli_command_nodes()[11],
        r.node_view(12) == cli_command_nodes()[12],
        r.node_view(13) == cli_command_nodes()[13],
        r.node_view(14) == cli_command_nodes()[14],
        r.node_view(15) == cli_command_nodes()[15],
        r.node_view(16) == cli_command_nodes()[16],
        r.node_view(17) == cli_command_nodes()[17],
        r.node_view(18) == cli_command_nodes()[18],
        r.node_view(19) == cli_command_nodes()[19],
        r.node_view(20) == cli_command_nodes()[20],
        r.node_view(21) == cli_command_nodes()[21],
        r.node_view(22) == cli_command_nodes()[22],
        r.node_view(23) == cli_command_nodes()[23],
        r.node_view(24) == cli_command_nodes()[24],
        r.node_view(25) == cli_command_nodes()[25],
        r.node_view(26) == cli_command_nodes()[26],
{
    proof {
        lemma_command_words();
        t.lemma_index_of(16);
        t.lemma_index_of(17);
        t.lemma_index_of(18);
        t.lemma_index_of(19);
        t.lemma_index_of(20);
        t.lemma_index_of(21);
    }
    let t = t.add(
        "playlist get",
        vec!["get", "g"],
        " <index> : Get a song by index",
        Some(CliHandler::PlaylistGet),
        CommandCallType::Args,
        Some("playlist"),
    );
    proof {
        assert(t.node_view(22) =~= cli_command_nodes()[22]);
        assert(t.node_view(16) =~= cli_node_so_far(16, seq![
            "playlist add"@,
            "playlist remove"@,
            "playlist load"@,
            "playlist move"@,
            "playlist new"@,
            "playlist get"@,
        ]));
        t.lemma_index_of(16);
        t.lemma_index_of(17);
        t.lemma_index_of(18);
        t.lemma_index_of(19);
        t.lemma_index_of(20);
        t.lemma_index_of(21);
        t.lemma_index_of(22);
    }
    let t = t.add(
        "playlist name",
        vec!["name"],
        " : Print the current playlist name",
        Some(CliHandler::PlaylistName),
        CommandCallType::NoArgs,
        Some("playlist"),
    );
    proof {
        assert(t.node_view(23) =~= cli_command_nodes()[23]);
        assert(t.node_view(16) =~= cli_node_so_far(16, seq![
            "playlist add"@,
            "playlist remove"@,
            "playlist load"@,
            "playlist move"@,
            "playlist new"@,
            "playlist get"@,
            "playlist name"@,
        ]));
        t.lemma_index_of(16);
        t.lemma_index_of(17);
        t.lemma_index_of(18);
        t.lemma_index_of(19);
        t.lemma_index_of(20);
        t.lemma_index_of(21);
        t.lemma_index_of(22);
        t.lemma_index_of(23);
    }
    let t = t.add(
        "playlist rename",
        vec!["rename", "set-name", "rn"],
        " <new_name> : Set the playlist name",
        Some(CliHandler::PlaylistRename),
        CommandCallType::Args,
        Some("playlist"),
    );
    proof {
        assert(t.node_view(24) =~= cli_command_nodes()[24]);
        assert(t.node_view(16) =~= cli_node_so_far(16, seq![
            "playlist add"@,
            "playlist remove"@,
            "playlist load"@,
            "playlist move"@,
            "playlist new"@,
            "playlist get"@,
            "playlist name"@,
            "playlist rename"@,
        ]));
        t.lemma_index_of(16);
        t.lemma_index_of(17);
        t.lemma_index_of(18);
        t.lemma_index_of(19);
        t.lemma_index_of(20);
        t.lemma_index_of(21);
        t.lemma_index_of(22);
        t.lemma_index_of(23);
        t.lemma_index_of(24);
    }
    let t = t.add(
        "playlist copy",
        vec!["copy", "c"],
        " <new_name> : Copy the playlist",
        Some(CliHandler::PlaylistCopy),
        CommandCallType::Args,
        Some("playlist"),
    );
    proof {
        assert(t.node_view(25) =~= cli_command_nodes()[25]);
        assert(t.node_view(16) =~= cli_node_so_far(16, seq![
            "playlist add"@,
            "playlist remove"@,
            "playlist load"@,
            "playlist move"@,
            "playlist new"@,
            "playlist get"@,
            "playlist name"@,
            "playlist rename"@,
            "playlist copy"@,
        ]));
        t.lemma_index_of(16);
        t.lemma_index_of(17);
        t.lemma_index_of(18);
        t.lemma_index_of(19);
        t.lemma_index_of(20);
        t.lemma_index_of(21);
        t.lemma_index_of(22);
        t.lemma_index_of(23);
        t.lemma_index_of(24);
        t.lemma_index_of(25);
    }
    let t = t.add(
        "playlist clear",
        vec!["clear", "cl"],
        " : Clear the playlist",
        Some(CliHandler::PlaylistClear),
        CommandCallType::NoArgs,
        Some("playlist"),
    );
    proof {
        assert(t.node_view(26) =~= cli_command_nodes()[26]);
        assert(t.node_view(16) =~= cli_command_nodes()[16]);
    }
    t
}

/// Adds "server" and its subcommands.
fn add_server_commands(t: CommandSpec<CliHandler>) -> (r: CommandSpec<CliHandler>)
    requires
        t.wf(),
        t.siblings_disjoint(),
        t.names_view() == cli_command_names().take(27),
        t.size() == 27,
        t.node_view(0) == cli_node_so_far(0, seq![
            "play"@,
            "pause"@,
            "play and pause"@,
            "quit"@,
            "help"@,
            "skip"@,
            "song"@,
            "queue"@,
            "playlist"@,
        ]),
        t.node_view(1) == cli_command_nodes()[1],
        t.node_view(2) == cli_command_nodes()[2],
        t.node_view(3) == cli_command_nodes()[3],
        t.node_view(4) == cli_command_nodes()[4],
        t.node_view(5) == cli_command_nodes()[5],
        t.node_view(6) == cli_command_nodes()[6],
        t.node_view(7) == cli_command_nodes()[7],
        t.node_view(8) == cli_command_nodes()[8],
        t.node_view(9) == cli_command_nodes()[9],
        t.node_view(10) == cli_command_nodes()[10],
        t.node_view(11) == cli_command_nodes()[11],
        t.node_view(12) == cli_command_nodes()[12],
        t.node_view(13) == cli_command_nodes()[13],
        t.node_view(14) == cli_command_nodes()[14],
        t.node_view(15) == cli_command_nodes()[15],
        t.node_view(16) == cli_command_nodes()[16],
        t.node_view(17) == cli_command_nodes()[17],
        t.node_view(18) == cli_command_nodes()[18],
        t.node_view(19) == cli_command_nodes()[19],
        t.node_view(20) == cli_command_nodes()[20],
        t.node_view(21) == cli_command_nodes()[21],
        t.node_view(22) == cli_command_nodes()[22],
        t.node_view(23) == cli_command_nodes()[23],
        t.node_view(24) == cli_command_nodes()[24],
        t.node_view(25) == cli_command_nodes()[25],
        t.node_view(26) == cli_command_nodes()[26],
    ensures
        r.wf(),
        r.siblings_disjoint(),
        r.names_view() == cli_command_names().take(32),
        r.size() == 32,
        r.node_view(0) == cli_command_nodes()[0],
        r.node_view(1) == cli_command_nodes()[1],
        r.node_view(2) == cli_command_nodes()[2],
        r.node_view(3) == cli_command_nodes()[3],
        r.node_view(4) == cli_command_nodes()[4],
        r.node_view(5) == cli_command_nodes()[5],
        r.node_view(6) == cli_command_nodes()[6],
        r.node_view(7) == cli_command_nodes()[7],
        r.node_view(8) == cli_command_nodes()[8],
        r.node_view(9) == cli_command_nodes()[9],
        r.node_view(10) == cli_command_nodes()[10],
        r.node_view(11) == cli_command_nodes()[11],
        r.node_view(12) == cli_command_nodes()[12],
        r.node_view(13) == cli_command_nodes()[13],
        r.node_view(14) == cli_command_nodes()[14],
        r.node_view(15) == cli_command_nodes()[15],
        r.node_view(16) == cli_command_nodes()[16],
        r.node_view(17) == cli_command_nodes()[17],
        r.node_view(18) == cli_command_nodes()[18],
        r.node_view(19) == cli_command_nodes()[19],
        r.node_view(20) == cli_command_nodes()[20],
        r.node_view(21) == cli_command_nodes()[21],
        r.node_view(22) == cli_command_nodes()[22],
        r.node_view(23) == cli_command_nodes()[23],
        r.node_view(24) == cli_command_nodes()[24],
        r.node_view(25) == cli_command_nodes()[25],
        r.node_view(26) == cli_command_nodes()[26],
        r.node_view(27) == cli_command_nodes()[27],
        r.node_view(28) == cli_command_nodes()[28],
        r.node_view(29) == cli_command_nodes()[29],
        r.node_view(30) == cli_command_nodes()[30],
        r.node_view(31) == cli_command_nodes()[31],
{
    proof {
        lemma_command_words();
    }
    let t = t.add(
        "server",
        vec!["server"],
        " : Server related commands",
        None,
        CommandCallType::NotCallable,
        None,
    );
    proof {
        assert(t.node_view(27) =~= cli_node_so_far(27, Seq::<Seq<char>>::empty()));
        assert(t.node_view(0) =~= cli_command_nodes()[0]);
        t.lemma_index_of(27);
    }
    let t = t.add(
        "server add",
        vec!["add"],
        " <name> <address> <certificate_path> : Add a server configuration",
        Some(CliHandler::ServerAdd),
        CommandCallType::Args,
        Some("server"),
    );
    proof {
        assert(t.node_view(28) =~= cli_command_nodes()[28]);
        assert(t.node_view(27) =~= cli_node_so_far(27, seq!["server add"@]));
        t.lemma_index_of(27);
        t.lemma_index_of(28);
    }
    let t = t.add(
        "server connect",
        vec!["connect", "con"],
        " : Connect to the server",
        Some(CliHandler::ServerConnect),
        CommandCallType::NoArgs,
        Some("server"),
    );
    proof {
        assert(t.node_view(29) =~= cli_command_nodes()[29]);
        assert(t.node_view(27) =~= cli_node_so_far(27, seq!["server add"@, "server connect"@]));
        t.lemma_index_of(27);
        t.lemma_index_of(28);
        t.lemma_index_of(29);
    }
    let t = t.add(
        "server query",
        vec!["query", "qry"],
        " <message> : Send a query to the server",
        Some(CliHandler::ServerQuery),
        CommandCallType::Args,
        Some("server"),
    );
    proof {
        assert(t.node_view(30) =~= cli_command_nodes()[30]);
        assert(t.node_view(27) =~= cli_node_so_far(27, seq![
            "server add"@,
            "server connect"@,
            "server query"@,
        ]));
        t.lemma_index_of(27);
        t.lemma_index_of(28);
        t.lemma_index_of(29);
        t.lemma_index_of(30);
    }
    let t = t.add(
        "server notify",
        vec!["notify", "send", "snd"],
        " <message> : Notify the server",
        Some(CliHandler::ServerNotify),
        CommandCallType::Args,
        Some("server"),
    );
    proof {
        assert(t.node_view(31) =~= cli_command_nodes()[31]);
        assert(t.node_view(27) =~= cli_command_nodes()[27]);
    }
    t
}

/// The commands of the text interface, each with its aliases, help text,
/// handler and way of taking input, under the root or under the command it
/// belongs to: the table `cli_command_nodes`.
pub fn cli_command_tree() -> (t: CommandSpec<CliHandler>)
    ensures
        t.wf(),
        t.size() == cli_command_names().len(),
        t.names_view() == cli_command_names(),
        forall|i: int| 0 <= i < t.size() ==> #[trigger] t.node_view(i) == cli_command_nodes()[i],
        forall|i: int|
            0 <= i < t.size() ==> (#[trigger] t.node_view(i).handler matches Some(h) ==> command_name_of(h)
                == t.names_view()[i]),
        t.siblings_disjoint(),
{
    let t = CommandSpec::new();
    proof {
        reveal_strlit("REVERB commands:");
        assert(cli_command_names().take(1) =~= seq!["root"@]);
        assert(t.node_view(0) =~= cli_node_so_far(0, Seq::<Seq<char>>::empty()));
    }
    let t = add_root_commands(t);
    let t = add_queue_commands(t);
    let t = add_first_playlist_commands(t);
    let t = add_more_playlist_commands(t);
    let t = add_server_commands(t);
    proof {
        lemma_commands_run_their_own_handlers();
        assert(cli_command_names().take(32) =~= cli_command_names());
        assert forall|i: int| 0 <= i < t.size() implies #[trigger] t.node_view(i) == cli_command_nodes()[i] by {
            assert(
                i == 0 || i == 1 || i == 2 || i == 3 || i == 4 || i == 5 || i == 6 || i == 7
                || i == 8 || i == 9 || i == 10 || i == 11 || i == 12 || i == 13 || i == 14 || i == 15
                || i == 16 || i == 17 || i == 18 || i == 19 || i == 20 || i == 21 || i == 22 || i == 23
                || i == 24 || i == 25 || i == 26 || i == 27 || i == 28 || i == 29 || i == 30 || i == 31
            );
        }
    }
    t
}

} // verus!

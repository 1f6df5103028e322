use vstd::prelude::*;
use vstd::string::*;

use crate::number::{parse_usize, problem_message, problem_text, usize_from_text, NumberProblem};
use crate::song::{
    after_first_space, before_first_space, external_type_named, parse_song_params, song_params,
    split_once_space, ExternalType,
};
use crate::text::{is_white, is_white_space, text_equals};

verus! {

/// `s` without the white space at its start.
pub open spec fn trim_white_start(s: Seq<char>) -> Seq<char>
    decreases s.len(),
{
    if s.len() > 0 && is_white_space(s[0]) {
        trim_white_start(s.drop_first())
    } else {
        s
    }
}

/// `s` without the white space at its end.
pub open spec fn trim_white_end(s: Seq<char>) -> Seq<char>
    decreases s.len(),
{
    if s.len() > 0 && is_white_space(s.last()) {
        trim_white_end(s.drop_last())
    } else {
        s
    }
}

/// The first word of a text: what comes before its first space, or all of it.
pub open spec fn first_word(s: Seq<char>) -> Seq<char> {
    if s.contains(' ') {
        before_first_space(s)
    } else {
        s
    }
}

/// The two words a request of several words is asked with: the command and
/// its action (none for a request of one word).
pub open spec fn line_words(v: LineView) -> Option<(Seq<char>, Seq<char>)> {
    match v {
        LineView::PlayNew(_, _) => Some(("play"@, "new"@)),
        LineView::PlayHelp => Some(("play"@, "help"@)),
        LineView::QueueAdd(_, _) => Some(("queue"@, "add"@)),
        LineView::QueueRemove(_) => Some(("queue"@, "remove"@)),
        LineView::QueuePlaylist(_) => Some(("queue"@, "playlist"@)),
        LineView::QueueHelp => Some(("queue"@, "help"@)),
        LineView::QueueCurrentPlaylist => Some(("queue"@, "playlist"@)),
        LineView::PlaylistAdd(_, _) => Some(("playlist"@, "add"@)),
        LineView::PlaylistRemove(_) => Some(("playlist"@, "remove"@)),
        LineView::PlaylistLoad(_) => Some(("playlist"@, "load"@)),
        LineView::PlaylistMove(_, _) => Some(("playlist"@, "move"@)),
        LineView::PlaylistNew(_, _) => Some(("playlist"@, "new"@)),
        LineView::PlaylistGet(_) => Some(("playlist"@, "get"@)),
        LineView::PlaylistSetName(_) => Some(("playlist"@, "name"@)),
        LineView::ShowPlaylistName => Some(("playlist"@, "name"@)),
        LineView::PlaylistHelp => Some(("playlist"@, "help"@)),
        _ => None,
    }
}

/// The song index a request carries, if any.
pub open spec fn line_index(v: LineView) -> Option<nat> {
    match v {
        LineView::QueueRemove(n) => Some(n),
        LineView::PlaylistRemove(n) => Some(n),
        LineView::PlaylistGet(n) => Some(n),
        _ => None,
    }
}

/// A line asks for what its own words name: a line of several words (once
/// trimmed) gives a request of its first word and of the word after it (so a
/// "playlist ..." line only ever asks something of the playlist, a "queue
/// ..." line of the queue), and a song index it carries is the number its
/// third part reads as; a line of one word gives a request of one word.
pub proof fn lemma_line_asks_what_it_names(input: Seq<char>)
    ensures
        ({
            let line = trim_white(input);
            line_request(input) matches Ok(v) ==> if line.contains(' ') {
                let args = after_first_space(line);
                &&& line_words(v) == Some((before_first_space(line), first_word(args)))
                &&& line_index(v) matches Some(n) ==> args.contains(' ') && usize_from_text(after_first_space(args))
                    == Ok::<nat, NumberProblem>(n)
            } else {
                line_words(v) is None
            }
        }),
{
}

/// `str::trim`: `s` without white space at either end.
pub open spec fn trim_white(s: Seq<char>) -> Seq<char> {
    trim_white_end(trim_white_start(s))
}

/// A line of the older text interface, as what it asks for.
#[derive(Debug)]
pub enum LineRequest {
    Play,
    Pause,
    Help,
    Quit,
    ShowQueue,
    ShowPlaylist,
    Skip,
    ShowSong,
    PlayNew(ExternalType, String),
    PlayHelp,
    QueueAdd(ExternalType, String),
    QueueRemove(usize),
    QueuePlaylist(String),
    QueueHelp,
    QueueCurrentPlaylist,
    PlaylistAdd(ExternalType, String),
    PlaylistRemove(usize),
    PlaylistLoad(String),
    PlaylistMove(usize, usize),
    PlaylistNew(String, Option<ExternalType>),
    PlaylistGet(usize),
    PlaylistSetName(String),
    ShowPlaylistName,
    PlaylistHelp,
}

/// A line request as a mathematical value.
pub enum LineView {
    Play,
    Pause,
    Help,
    Quit,
    ShowQueue,
    ShowPlaylist,
    Skip,
    ShowSong,
    PlayNew(ExternalType, Seq<char>),
    PlayHelp,
    QueueAdd(ExternalType, Seq<char>),
    QueueRemove(nat),
    QueuePlaylist(Seq<char>),
    QueueHelp,
    QueueCurrentPlaylist,
    PlaylistAdd(ExternalType, Seq<char>),
    PlaylistRemove(nat),
    PlaylistLoad(Seq<char>),
    PlaylistMove(nat, nat),
    PlaylistNew(Seq<char>, Option<ExternalType>),
    PlaylistGet(nat),
    PlaylistSetName(Seq<char>),
    ShowPlaylistName,
    PlaylistHelp,
}

impl View for LineRequest {
    type V = LineView;

    open spec fn view(&self) -> LineView {
        match self {
            LineRequest::Play => LineView::Play,
            LineRequest::Pause => LineView::Pause,
            LineRequest::Help => LineView::Help,
            LineRequest::Quit => LineView::Quit,
            LineRequest::ShowQueue => LineView::ShowQueue,
            LineRequest::ShowPlaylist => LineView::ShowPlaylist,
            LineRequest::Skip => LineView::Skip,
            LineRequest::ShowSong => LineView::ShowSong,
            LineRequest::PlayNew(t, i) => LineView::PlayNew(*t, i@),
            LineRequest::PlayHelp => LineView::PlayHelp,
            LineRequest::QueueAdd(t, i) => LineView::QueueAdd(*t, i@),
            LineRequest::QueueRemove(n) => LineView::QueueRemove(*n as nat),
            LineRequest::QueuePlaylist(name) => LineView::QueuePlaylist(name@),
            LineRequest::QueueHelp => LineView::QueueHelp,
            LineRequest::QueueCurrentPlaylist => LineView::QueueCurrentPlaylist,
            LineRequest::PlaylistAdd(t, i) => LineView::PlaylistAdd(*t, i@),
            LineRequest::PlaylistRemove(n) => LineView::PlaylistRemove(*n as nat),
            LineRequest::PlaylistLoad(name) => LineView::PlaylistLoad(name@),
            LineRequest::PlaylistMove(a, b) => LineView::PlaylistMove(*a as nat, *b as nat),
            LineRequest::PlaylistNew(name, t) => LineView::PlaylistNew(name@, *t),
            LineRequest::PlaylistGet(n) => LineView::PlaylistGet(*n as nat),
            LineRequest::PlaylistSetName(name) => LineView::PlaylistSetName(name@),
            LineRequest::ShowPlaylistName => LineView::ShowPlaylistName,
            LineRequest::PlaylistHelp => LineView::PlaylistHelp,
        }
    }
}

/// A song request from its parameters, or the message that refuses them.
pub open spec fn song_line(params: Seq<char>, make: spec_fn(ExternalType, Seq<char>) -> LineView) -> Result<
    LineView,
    Seq<char>,
> {
    match song_params(params) {
        Ok((t, info)) => Ok(make(t, info)),
        Err(e) => Err(e),
    }
}

/// A request for a song index, or the message that refuses the index.
pub open spec fn index_line(text: Seq<char>, make: spec_fn(nat) -> LineView) -> Result<
    LineView,
    Seq<char>,
> {
    match usize_from_text(text) {
        Ok(v) => Ok(make(v)),
        Err(p) => Err("Invalid song index: "@ + problem_text(p)),
    }
}

/// A command of one word.
pub open spec fn single_command(c: Seq<char>) -> Result<LineView, Seq<char>> {
    if c == "play"@ {
        Ok(LineView::Play)
    } else if c == "pause"@ {
        Ok(LineView::Pause)
    } else if c == "help"@ || c == "h"@ {
        Ok(LineView::Help)
    } else if c == "quit"@ || c == "q"@ || c == ":q"@ {
        Ok(LineView::Quit)
    } else if c == "queue"@ {
        Ok(LineView::ShowQueue)
    } else if c == "playlist"@ {
        Ok(LineView::ShowPlaylist)
    } else if c == "skip"@ {
        Ok(LineView::Skip)
    } else if c == "song"@ {
        Ok(LineView::ShowSong)
    } else {
        Err("Unknown command: "@ + c)
    }
}

/// The queue commands, from the text after "queue ".
pub open spec fn queue_command(args: Seq<char>) -> Result<LineView, Seq<char>> {
    if args.contains(' ') {
        let action = before_first_space(args);
        let rest = after_first_space(args);
        if action == "add"@ {
            song_line(rest, |t: ExternalType, i: Seq<char>| LineView::QueueAdd(t, i))
        } else if action == "remove"@ {
            index_line(rest, |n: nat| LineView::QueueRemove(n))
        } else if action == "playlist"@ {
            Ok(LineView::QueuePlaylist(rest))
        } else {
            Err("Unknown command: queue "@ + action + " "@ + rest)
        }
    } else if args == "help"@ {
        Ok(LineView::QueueHelp)
    } else if args == "playlist"@ {
        Ok(LineView::QueueCurrentPlaylist)
    } else {
        Err("Unknown command: queue "@ + args)
    }
}

/// The playlist "move" command, from the text after "playlist move ".
pub open spec fn move_command(rest: Seq<char>) -> Result<LineView, Seq<char>> {
    if rest.contains(' ') {
        let from = before_first_space(rest);
        let to = after_first_space(rest);
        match (usize_from_text(from), usize_from_text(to)) {
            (Ok(a), Ok(b)) => Ok(LineView::PlaylistMove(a, b)),
            _ => Err("Invalid song indices: from: "@ + from + ", to: "@ + to),
        }
    } else {
        Err("Invalid input for move command: "@ + rest)
    }
}

/// The playlist "new" command, from the text after "playlist new ".
pub open spec fn new_playlist_command(rest: Seq<char>) -> Result<LineView, Seq<char>> {
    if rest.contains(' ') {
        match external_type_named(after_first_space(rest)) {
            Ok(t) => Ok(LineView::PlaylistNew(before_first_space(rest), Some(t))),
            Err(e) => Err(e),
        }
    } else {
        Ok(LineView::PlaylistNew(rest, None))
    }
}

/// The playlist commands, from the text after "playlist ".
pub open spec fn playlist_command(args: Seq<char>) -> Result<LineView, Seq<char>> {
    if args.contains(' ') {
        let action = before_first_space(args);
        let rest = after_first_space(args);
        if action == "add"@ {
            song_line(rest, |t: ExternalType, i: Seq<char>| LineView::PlaylistAdd(t, i))
        } else if action == "remove"@ {
            index_line(rest, |n: nat| LineView::PlaylistRemove(n))
        } else if action == "load"@ {
            Ok(LineView::PlaylistLoad(rest))
        } else if action == "move"@ {
            move_command(rest)
        } else if action == "new"@ {
            new_playlist_command(rest)
        } else if action == "get"@ {
            match usize_from_text(rest) {
                Ok(v) => Ok(LineView::PlaylistGet(v)),
                Err(_) => Err("Invalid song index: "@ + rest),
            }
        } else if action == "name"@ {
            Ok(LineView::PlaylistSetName(rest))
        } else {
            Err("Unknown command: playlist "@ + action + " "@ + rest)
        }
    } else if args == "name"@ {
        Ok(LineView::ShowPlaylistName)
    } else if args == "help"@ {
        Ok(LineView::PlaylistHelp)
    } else {
        Err("Unknown command: playlist "@ + args)
    }
}

/// A command of several words: the first word, then the text after it.
pub open spec fn composite_command(c: Seq<char>, args: Seq<char>) -> Result<LineView, Seq<char>> {
    if c == "play"@ {
        if args.contains(' ') {
            let action = before_first_space(args);
            let rest = after_first_space(args);
            if action == "new"@ {
                song_line(rest, |t: ExternalType, i: Seq<char>| LineView::PlayNew(t, i))
            } else {
                Err("Unknown command: play "@ + action + " "@ + rest)
            }
        } else if args == "help"@ {
            Ok(LineView::PlayHelp)
        } else {
            Err("Unknown command: play "@ + args)
        }
    } else if c == "queue"@ {
        queue_command(args)
    } else if c == "playlist"@ {
        playlist_command(args)
    } else {
        Err("Unknown command: "@ + c)
    }
}

/// What a line of the older text interface asks for, or the message that
/// refuses it: the line is trimmed, and a line with a space in it is a
/// command of several words.
pub open spec fn line_request(input: Seq<char>) -> Result<LineView, Seq<char>> {
    let line = trim_white(input);
    if line.contains(' ') {
        composite_command(before_first_space(line), after_first_space(line))
    } else {
        single_command(line)
    }
}

/// `str::trim`: `s` without white space at either end.
pub fn trim_white_space(s: &str) -> (r: String)
    ensures
        r@ == trim_white(s@),
{
    let n = s.unicode_len();
    let mut start: usize = 0;
    assert(s@.subrange(0, n as int) =~= s@);
    loop
        invariant
            n == s@.len(),
            start <= n,
            trim_white_start(s@) == trim_white_start(s@.subrange(start as int, n as int)),
        ensures
            start <= n,
            trim_white_start(s@) == s@.subrange(start as int, n as int),
        decreases n - start,
    {
        if start == n {
            break;
        }
        if !is_white(s.get_char(start)) {
            break;
        }
        assert(s@.subrange(start as int, n as int).drop_first() =~= s@.subrange(start + 1, n as int));
        start = start + 1;
    }
    let mut end: usize = n;
    loop
        invariant
            n == s@.len(),
            start <= end <= n,
            trim_white_start(s@) == s@.subrange(start as int, n as int),
            trim_white_end(s@.subrange(start as int, n as int)) == trim_white_end(
                s@.subrange(start as int, end as int),
            ),
        ensures
            start <= end <= n,
            trim_white_end(s@.subrange(start as int, n as int)) == s@.subrange(start as int, end as int),
        decreases end - start,
    {
        if end == start {
            break;
        }
        if !is_white(s.get_char(end - 1)) {
            break;
        }
        assert(s@.subrange(start as int, end as int).drop_last() =~= s@.subrange(start as int, end - 1));
        end = end - 1;
    }
    String::from_str(s.substring_char(start, end))
}

/// Two texts joined.
fn joined(a: &str, b: &str) -> (s: String)
    ensures
        s@ == a@ + b@,
{
    let mut s = String::from_str(a);
    s.append(b);
    s
}

/// A song request from its parameters.
fn song_request(params: &str) -> (r: Result<(ExternalType, String), String>)
    ensures
        match song_params(params@) {
            Ok((t, i)) => r matches Ok((t2, i2)) && t2 == t && i2@ == i,
            Err(e) => r matches Err(m) && m@ == e,
        },
{
    match parse_song_params(params) {
        Ok((t, info)) => Ok((t, info)),
        Err(f) => Err(f.error_message()),
    }
}

/// A song index, or the message that refuses it.
fn song_index(text: &str) -> (r: Result<usize, String>)
    ensures
        match usize_from_text(text@) {
            Ok(v) => r matches Ok(n) && n == v,
            Err(p) => r matches Err(m) && m@ == "Invalid song index: "@ + problem_text(p),
        },
{
    match parse_usize(text) {
        Ok(n) => Ok(n),
        Err(p) => Err(joined("Invalid song index: ", problem_message(p))),
    }
}

/// A command of one word.
fn single(c: &str) -> (r: Result<LineRequest, String>)
    ensures
        match single_command(c@) {
            Ok(v) => r matches Ok(q) && q@ == v,
            Err(e) => r matches Err(m) && m@ == e,
        },
{
    if text_equals(c, "play") {
        Ok(LineRequest::Play)
    } else if text_equals(c, "pause") {
        Ok(LineRequest::Pause)
    } else if text_equals(c, "help") || text_equals(c, "h") {
        Ok(LineRequest::Help)
    } else if text_equals(c, "quit") || text_equals(c, "q") || text_equals(c, ":q") {
        Ok(LineRequest::Quit)
    } else if text_equals(c, "queue") {
        Ok(LineRequest::ShowQueue)
    } else if text_equals(c, "playlist") {
        Ok(LineRequest::ShowPlaylist)
    } else if text_equals(c, "skip") {
        Ok(LineRequest::Skip)
    } else if text_equals(c, "song") {
        Ok(LineRequest::ShowSong)
    } else {
        Err(joined("Unknown command: ", c))
    }
}

/// An unknown action of a command: the head, the action, a space and the rest.
fn unknown_action(head: &str, action: &str, rest: &str) -> (m: String)
    ensures
        m@ == head@ + action@ + " "@ + rest@,
{
    let mut m = String::from_str(head);
    m.append(action);
    m.append(" ");
    m.append(rest);
    m
}

/// The queue commands, from the text after "queue ".
fn queue(args: &str) -> (r: Result<LineRequest, String>)
    ensures
        match queue_command(args@) {
            Ok(v) => r matches Ok(q) && q@ == v,
            Err(e) => r matches Err(m) && m@ == e,
        },
{
    match split_once_space(args) {
        Some((action, rest)) => {
            if text_equals(action.as_str(), "add") {
                match song_request(rest.as_str()) {
                    Ok((t, info)) => Ok(LineRequest::QueueAdd(t, info)),
                    Err(m) => Err(m),
                }
            } else if text_equals(action.as_str(), "remove") {
                match song_index(rest.as_str()) {
                    Ok(n) => Ok(LineRequest::QueueRemove(n)),
                    Err(m) => Err(m),
                }
            } else if text_equals(action.as_str(), "playlist") {
                Ok(LineRequest::QueuePlaylist(rest))
            } else {
                Err(unknown_action("Unknown command: queue ", action.as_str(), rest.as_str()))
            }
        },
        None => {
            if text_equals(args, "help") {
                Ok(LineRequest::QueueHelp)
            } else if text_equals(args, "playlist") {
                Ok(LineRequest::QueueCurrentPlaylist)
            } else {
                Err(joined("Unknown command: queue ", args))
            }
        },
    }
}

/// The playlist "move" command, from the text after "playlist move ".
fn move_song(rest: &str) -> (r: Result<LineRequest, String>)
    ensures
        match move_command(rest@) {
            Ok(v) => r matches Ok(q) && q@ == v,
            Err(e) => r matches Err(m) && m@ == e,
        },
{
    match split_once_space(rest) {
        Some((from, to)) => match (parse_usize(from.as_str()), parse_usize(to.as_str())) {
            (Ok(a), Ok(b)) => Ok(LineRequest::PlaylistMove(a, b)),
            _ => {
                let mut m = String::from_str("Invalid song indices: from: ");
                m.append(from.as_str());
                m.append(", to: ");
                m.append(to.as_str());
                Err(m)
            },
        },
        None => Err(joined("Invalid input for move command: ", rest)),
    }
}

/// The playlist "new" command, from the text after "playlist new ".
fn new_playlist(rest: &str) -> (r: Result<LineRequest, String>)
    ensures
        match new_playlist_command(rest@) {
            Ok(v) => r matches Ok(q) && q@ == v,
            Err(e) => r matches Err(m) && m@ == e,
        },
{
    match split_once_space(rest) {
        Some((name, kind)) => match ExternalType::get_from_str(kind.as_str()) {
            Ok(t) => Ok(LineRequest::PlaylistNew(name, Some(t))),
            Err(f) => Err(f.error_message()),
        },
        None => Ok(LineRequest::PlaylistNew(String::from_str(rest), None)),
    }
}

/// The playlist commands, from the text after "playlist ".
fn playlist(args: &str) -> (r: Result<LineRequest, String>)
    ensures
        match playlist_command(args@) {
            Ok(v) => r matches Ok(q) && q@ == v,
            Err(e) => r matches Err(m) && m@ == e,
        },
{
    match split_once_space(args) {
        Some((action, rest)) => {
            if text_equals(action.as_str(), "add") {
                match song_request(rest.as_str()) {
                    Ok((t, info)) => Ok(LineRequest::PlaylistAdd(t, info)),
                    Err(m) => Err(m),
                }
            } else if text_equals(action.as_str(), "remove") {
                match song_index(rest.as_str()) {
                    Ok(n) => Ok(LineRequest::PlaylistRemove(n)),
                    Err(m) => Err(m),
                }
            } else if text_equals(action.as_str(), "load") {
                Ok(LineRequest::PlaylistLoad(rest))
            } else if text_equals(action.as_str(), "move") {
                move_song(rest.as_str())
            } else if text_equals(action.as_str(), "new") {
                new_playlist(rest.as_str())
            } else if text_equals(action.as_str(), "get") {
                match parse_usize(rest.as_str()) {
                    Ok(n) => Ok(LineRequest::PlaylistGet(n)),
                    Err(_) => Err(joined("Invalid song index: ", rest.as_str())),
                }
            } else if text_equals(action.as_str(), "name") {
                Ok(LineRequest::PlaylistSetName(rest))
            } else {
                Err(unknown_action("Unknown command: playlist ", action.as_str(), rest.as_str()))
            }
        },
        None => {
            if text_equals(args, "name") {
                Ok(LineRequest::ShowPlaylistName)
            } else if text_equals(args, "help") {
                Ok(LineRequest::PlaylistHelp)
            } else {
                Err(joined("Unknown command: playlist ", args))
            }
        },
    }
}

/// A command of several words: the first word, then the text after it.
fn composite(c: &str, args: &str) -> (r: Result<LineRequest, String>)
    ensures
        match composite_command(c@, args@) {
            Ok(v) => r matches Ok(q) && q@ == v,
            Err(e) => r matches Err(m) && m@ == e,
        },
{
    if text_equals(c, "play") {
        match split_once_space(args) {
            Some((action, rest)) => {
                if text_equals(action.as_str(), "new") {
                    match song_request(rest.as_str()) {
                        Ok((t, info)) => Ok(LineRequest::PlayNew(t, info)),
                        Err(m) => Err(m),
                    }
                } else {
                    Err(unknown_action("Unknown command: play ", action.as_str(), rest.as_str()))
                }
            },
            None => {
                if text_equals(args, "help") {
                    Ok(LineRequest::PlayHelp)
                } else {
                    Err(joined("Unknown command: play ", args))
                }
            },
        }
    } else if text_equals(c, "queue") {
        queue(args)
    } else if text_equals(c, "playlist") {
        playlist(args)
    } else {
        Err(joined("Unknown command: ", c))
    }
}

/// Reads a line of the older text interface: what it asks for, or the
/// message that refuses it.
pub fn read_line_request(input: &str) -> (r: Result<LineRequest, String>)
    ensures
        match line_request(input@) {
            Ok(v) => r matches Ok(q) && q@ == v,
            Err(e) => r matches Err(m) && m@ == e,
        },
        trim_white(input@).contains(' ') ==> (r matches Ok(q) ==> line_words(q@) == Some(
            (
                before_first_space(trim_white(input@)),
                first_word(after_first_space(trim_white(input@))),
            ),
        )),
{
    proof {
        lemma_line_asks_what_it_names(input@);
    }
    let line = trim_white_space(input);
    match split_once_space(line.as_str()) {
        Some((command, args)) => composite(command.as_str(), args.as_str()),
        None => single(line.as_str()),
    }
}

} // verus!

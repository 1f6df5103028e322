use vstd::prelude::*;
use vstd::string::*;

use crate::layout::{push_width_aware, push_width_aware_accepts, push_width_aware_spec, repeated, spaces};
use crate::song::{ExternalType, Song, SongView, song_views, type_of};
use crate::text::{decimal, format_usize, split_char, split_on_char, split_white, white_words};

verus! {

/// The tag of a source kind in a song list: its name in brackets.
pub open spec fn kind_tag(t: ExternalType) -> Seq<char> {
    "("@ + (match t {
        ExternalType::LOCAL => "local"@,
        ExternalType::YOUTUBE => "youtube"@,
    }) + ")"@
}

/// The four pieces a song is listed with, each appended to the line being
/// built as `push_width_aware` does it: the number and a dot, the title,
/// the first artist (after " - ", or "  " on a new line), and the tag of its
/// source kind (after "  " either way). Gives the line left unfinished and
/// the finished lines.
pub open spec fn entry_steps(lines: Seq<Seq<char>>, number: nat, s: SongView, width: nat) -> (
    Seq<char>,
    Seq<Seq<char>>,
) {
    let (c1, l1) = push_width_aware_spec(
        Seq::empty(),
        lines,
        decimal(number) + ". "@,
        ""@,
        ""@,
        width,
    );
    let (c2, l2) = push_width_aware_spec(c1, l1, s.info.title, ""@, ""@, width);
    let (c3, l3) = push_width_aware_spec(c2, l2, s.info.artists[0], "  "@, " - "@, width);
    push_width_aware_spec(c3, l3, kind_tag(type_of(s.song_type)), "  "@, "  "@, width)
}

/// The lines after a song is listed: the finished lines of its pieces, then
/// the line left unfinished, padded to the width, where it is not empty.
pub open spec fn song_entry(lines: Seq<Seq<char>>, number: nat, s: SongView, width: nat) -> Seq<
    Seq<char>,
> {
    let (c, l) = entry_steps(lines, number, s, width);
    if c.len() > 0 {
        l.push(c + repeated(' ', (width - c.len()) as nat))
    } else {
        l
    }
}

/// The inputs on which listing a song does its work: it names an artist,
/// and each of its four pieces fits the 16-bit arithmetic of
/// `push_width_aware`.
pub open spec fn entry_fits(number: nat, s: SongView, width: nat) -> bool {
    let (c1, l1) = push_width_aware_spec(
        Seq::empty(),
        Seq::empty(),
        decimal(number) + ". "@,
        ""@,
        ""@,
        width,
    );
    let (c2, l2) = push_width_aware_spec(c1, l1, s.info.title, ""@, ""@, width);
    let (c3, l3) = push_width_aware_spec(c2, l2, s.info.artists[0], "  "@, " - "@, width);
    &&& s.info.artists.len() > 0
    &&& push_width_aware_accepts(0, decimal(number).len() + 2, 0, 0, width)
    &&& push_width_aware_accepts(c1.len(), s.info.title.len(), 0, 0, width)
    &&& push_width_aware_accepts(c2.len(), s.info.artists[0].len(), 2, 3, width)
    &&& push_width_aware_accepts(c3.len(), kind_tag(type_of(s.song_type)).len(), 2, 2, width)
}

/// The song list of a panel: from the lines so far, while there are fewer
/// than `height`, the songs from the `k`-th on, numbered from `k + 1`, then
/// blank lines of the width.
pub open spec fn song_list(
    lines: Seq<Seq<char>>,
    songs: Seq<SongView>,
    k: nat,
    height: nat,
    width: nat,
) -> Seq<Seq<char>>
    decreases songs.len() - k, height - lines.len(),
{
    if lines.len() >= height {
        lines
    } else if k < songs.len() {
        song_list(song_entry(lines, k + 1, songs[k as int], width), songs, k + 1, height, width)
    } else {
        song_list(lines.push(repeated(' ', width)), songs, k, height, width)
    }
}

/// Every song that `song_list` lists can be listed.
pub open spec fn list_fits(
    lines: Seq<Seq<char>>,
    songs: Seq<SongView>,
    k: nat,
    height: nat,
    width: nat,
) -> bool
    decreases songs.len() - k, height - lines.len(),
{
    if lines.len() >= height {
        true
    } else if k < songs.len() {
        entry_fits(k + 1, songs[k as int], width) && list_fits(
            song_entry(lines, k + 1, songs[k as int], width),
            songs,
            k + 1,
            height,
            width,
        )
    } else {
        list_fits(lines.push(repeated(' ', width)), songs, k, height, width)
    }
}

/// The lines of the queue panel, `width` wide and `height` high: "Queue:",
/// then the songs after the one playing. A panel too small shows nothing.
pub open spec fn queue_panel(width: nat, height: nat, songs: Seq<SongView>) -> Seq<Seq<char>> {
    if height == 0 || width <= 6 {
        Seq::empty()
    } else {
        song_list(
            seq!["Queue:"@ + repeated(' ', (width - 6) as nat)],
            songs.drop_first(),
            0,
            height,
            width,
        ).take(height as int)
    }
}

/// The first lines of the playlist panel: "Playlist:" and the playlist's
/// name, as `push_width_aware` lays them out, the last one padded.
pub open spec fn playlist_head(width: nat, name: Seq<char>) -> Seq<Seq<char>> {
    let (top, lines) = push_width_aware_spec("Playlist:"@, Seq::empty(), name, ""@, ""@, width);
    lines.push(top + repeated(' ', (width - top.len()) as nat))
}

/// The lines of the playlist panel, `width` wide and `height` high: its
/// head, then its songs. A panel too small shows nothing.
pub open spec fn playlist_panel(width: nat, height: nat, name: Seq<char>, songs: Seq<SongView>) -> Seq<
    Seq<char>,
> {
    if height == 0 || width <= 8 {
        Seq::empty()
    } else {
        song_list(playlist_head(width, name), songs, 0, height, width).take(height as int)
    }
}

/// The text a song is listed with when it all fits on one line: its number
/// and a dot, its title, " - " and its first artist, two spaces and the tag
/// of its source kind.
pub open spec fn one_line_entry(number: nat, s: SongView) -> Seq<char> {
    decimal(number) + ". "@ + s.info.title + " - "@ + s.info.artists[0] + "  "@ + kind_tag(type_of(s.song_type))
}

/// A song whose listing fits the width is listed on one line of its own,
/// after the lines before it: number, title, first artist and source kind,
/// padded to the width.
pub proof fn lemma_song_on_one_line(lines: Seq<Seq<char>>, number: nat, s: SongView, width: nat)
    requires
        s.info.artists.len() > 0,
        one_line_entry(number, s).len() <= width,
    ensures
        song_entry(lines, number, s, width) == lines.push(
            one_line_entry(number, s) + repeated(' ', (width - one_line_entry(number, s).len()) as nat),
        ),
{
    reveal_strlit("");
    reveal_strlit(". ");
    reveal_strlit("  ");
    reveal_strlit(" - ");
    let first = decimal(number) + ". "@;
    let title = s.info.title;
    let artist = s.info.artists[0];
    let tag = kind_tag(type_of(s.song_type));
    let (c1, l1) = push_width_aware_spec(Seq::empty(), lines, first, ""@, ""@, width);
    assert(c1 == first && l1 == lines);
    let (c2, l2) = push_width_aware_spec(c1, l1, title, ""@, ""@, width);
    assert(c2 =~= first + title && l2 == lines);
    let (c3, l3) = push_width_aware_spec(c2, l2, artist, "  "@, " - "@, width);
    assert(c3 =~= first + title + " - "@ + artist && l3 == lines);
    let (c4, l4) = push_width_aware_spec(c3, l3, tag, "  "@, "  "@, width);
    assert(c4 =~= one_line_entry(number, s) && l4 == lines);
}

/// What `push_width_aware` finishes comes after the lines finished before.
proof fn lemma_push_keeps_lines(
    current: Seq<char>,
    lines: Seq<Seq<char>>,
    to_push: Seq<char>,
    new_line_start: Seq<char>,
    separator: Seq<char>,
    width: nat,
)
    ensures
        ({
            let after = push_width_aware_spec(current, lines, to_push, new_line_start, separator, width).1;
            after.len() >= lines.len() && after.take(lines.len() as int) == lines
        }),
{
    let after = push_width_aware_spec(current, lines, to_push, new_line_start, separator, width).1;
    assert(after.take(lines.len() as int) =~= lines);
}

/// Listing a song keeps the lines before it.
proof fn lemma_entry_keeps_lines(lines: Seq<Seq<char>>, number: nat, s: SongView, width: nat)
    ensures
        song_entry(lines, number, s, width).len() >= lines.len(),
        song_entry(lines, number, s, width).take(lines.len() as int) == lines,
{
    let (c1, l1) = push_width_aware_spec(Seq::empty(), lines, decimal(number) + ". "@, ""@, ""@, width);
    lemma_push_keeps_lines(Seq::empty(), lines, decimal(number) + ". "@, ""@, ""@, width);
    let (c2, l2) = push_width_aware_spec(c1, l1, s.info.title, ""@, ""@, width);
    lemma_push_keeps_lines(c1, l1, s.info.title, ""@, ""@, width);
    let (c3, l3) = push_width_aware_spec(c2, l2, s.info.artists[0], "  "@, " - "@, width);
    lemma_push_keeps_lines(c2, l2, s.info.artists[0], "  "@, " - "@, width);
    let (c4, l4) = push_width_aware_spec(c3, l3, kind_tag(type_of(s.song_type)), "  "@, "  "@, width);
    lemma_push_keeps_lines(c3, l3, kind_tag(type_of(s.song_type)), "  "@, "  "@, width);
    assert(l4.take(lines.len() as int) =~= lines) by {
        assert(l2.take(lines.len() as int) =~= l1.take(l1.len() as int).take(lines.len() as int));
        assert(l3.take(lines.len() as int) =~= l2.take(l2.len() as int).take(lines.len() as int));
        assert(l4.take(lines.len() as int) =~= l3.take(l3.len() as int).take(lines.len() as int));
    }
    let e = song_entry(lines, number, s, width);
    assert(e.take(lines.len() as int) =~= lines);
}

/// A song list keeps the lines it starts from.
proof fn lemma_song_list_keeps_lines(
    lines: Seq<Seq<char>>,
    songs: Seq<SongView>,
    k: nat,
    height: nat,
    width: nat,
)
    ensures
        song_list(lines, songs, k, height, width).len() >= lines.len(),
        song_list(lines, songs, k, height, width).take(lines.len() as int) == lines,
    decreases songs.len() - k, height - lines.len(),
{
    if lines.len() >= height {
        assert(lines.take(lines.len() as int) =~= lines);
    } else if k < songs.len() {
        let next = song_entry(lines, k + 1, songs[k as int], width);
        lemma_entry_keeps_lines(lines, k + 1, songs[k as int], width);
        lemma_song_list_keeps_lines(next, songs, k + 1, height, width);
        let r = song_list(next, songs, k + 1, height, width);
        assert(r.take(lines.len() as int) =~= next.take(next.len() as int).take(lines.len() as int));
    } else {
        let next = lines.push(repeated(' ', width));
        lemma_song_list_keeps_lines(next, songs, k, height, width);
        let r = song_list(next, songs, k, height, width);
        assert(r.take(lines.len() as int) =~= next.take(next.len() as int).take(lines.len() as int));
    }
}

/// In a queue panel of at least two lines, the song after the one playing
/// is listed on the second line as number 1, with its title and its first
/// artist, where its listing fits the width.
pub proof fn lemma_queue_panel_next_song(width: nat, height: nat, songs: Seq<SongView>)
    requires
        height >= 2,
        width > 6,
        songs.len() >= 2,
        songs[1].info.artists.len() > 0,
        one_line_entry(1, songs[1]).len() <= width,
    ensures
        queue_panel(width, height, songs)[1] == one_line_entry(1, songs[1]) + repeated(
            ' ',
            (width - one_line_entry(1, songs[1]).len()) as nat,
        ),
{
    let head = seq!["Queue:"@ + repeated(' ', (width - 6) as nat)];
    let rest = songs.drop_first();
    assert(rest[0] == songs[1]);
    lemma_song_on_one_line(head, 1, songs[1], width);
    let next = song_entry(head, 1, rest[0], width);
    lemma_song_list_keeps_lines(next, rest, 1, height, width);
    let all = song_list(head, rest, 0, height, width);
    assert(all == song_list(next, rest, 1, height, width));
    assert(next.len() == 2);
    assert(all[1] == all.take(next.len() as int)[1]);
    lemma_song_list_len(head, rest, 0, height, width);
    assert(queue_panel(width, height, songs) == all.take(height as int));
    assert(all.take(height as int)[1] == all[1]);
}

/// What `push_width_aware` leaves on the line being built does not depend on
/// the lines finished before; the lines it finishes are appended to them.
proof fn lemma_push_lines(
    current: Seq<char>,
    lines: Seq<Seq<char>>,
    to_push: Seq<char>,
    new_line_start: Seq<char>,
    separator: Seq<char>,
    width: nat,
)
    ensures
        push_width_aware_spec(current, lines, to_push, new_line_start, separator, width).0
            == push_width_aware_spec(current, Seq::empty(), to_push, new_line_start, separator, width).0,
        push_width_aware_spec(current, lines, to_push, new_line_start, separator, width).1 == lines
            + push_width_aware_spec(current, Seq::empty(), to_push, new_line_start, separator, width).1,
{
    let a = push_width_aware_spec(current, lines, to_push, new_line_start, separator, width);
    let b = push_width_aware_spec(current, Seq::empty(), to_push, new_line_start, separator, width);
    assert(a.1 =~= lines + b.1);
}

/// Lists one song: its lines are appended to `lines`.
fn push_entry(lines: &mut Vec<String>, number: usize, song: &Song, width: u16)
    requires
        entry_fits(number as nat, song@, width as nat),
    ensures
        final(lines).deep_view() == song_entry(old(lines).deep_view(), number as nat, song@, width as nat),
{
    let ghost l0 = lines.deep_view();
    let ghost w = width as nat;
    let ghost sv = song@;
    let ghost first = decimal(number as nat) + ". "@;
    proof {
        reveal_strlit("");
        reveal_strlit(". ");
        reveal_strlit("  ");
        reveal_strlit(" - ");
    }
    let mut text = String::new();
    let mut index = format_usize(number);
    index.append(". ");
    proof {
        lemma_push_lines(Seq::empty(), l0, first, ""@, ""@, w);
    }
    push_width_aware(&mut text, index.as_str(), "", "", lines, width);
    let ghost st1 = (text@, lines.deep_view());
    proof {
        lemma_push_lines(Seq::empty(), Seq::empty(), first, ""@, ""@, w);
        let e1 = push_width_aware_spec(Seq::empty(), Seq::empty(), first, ""@, ""@, w);
        assert(st1.0 == e1.0);
        lemma_push_lines(st1.0, st1.1, sv.info.title, ""@, ""@, w);
        lemma_push_lines(st1.0, e1.1, sv.info.title, ""@, ""@, w);
    }
    push_width_aware(&mut text, song.info.title.as_str(), "", "", lines, width);
    let ghost st2 = (text@, lines.deep_view());
    proof {
        let e1 = push_width_aware_spec(Seq::empty(), Seq::empty(), first, ""@, ""@, w);
        let e2 = push_width_aware_spec(e1.0, e1.1, sv.info.title, ""@, ""@, w);
        assert(st2.0 == e2.0);
        lemma_push_lines(st2.0, st2.1, sv.info.artists[0], "  "@, " - "@, w);
        lemma_push_lines(st2.0, e2.1, sv.info.artists[0], "  "@, " - "@, w);
    }
    push_width_aware(&mut text, song.info.artists[0].as_str(), "  ", " - ", lines, width);
    let ghost st3 = (text@, lines.deep_view());
    let kind = song.song_type.as_type();
    let mut tag = String::from_str("(");
    tag.append(kind.name());
    tag.append(")");
    proof {
        let e1 = push_width_aware_spec(Seq::empty(), Seq::empty(), first, ""@, ""@, w);
        let e2 = push_width_aware_spec(e1.0, e1.1, sv.info.title, ""@, ""@, w);
        let e3 = push_width_aware_spec(e2.0, e2.1, sv.info.artists[0], "  "@, " - "@, w);
        assert(st3.0 == e3.0);
        assert(tag@ == kind_tag(type_of(sv.song_type)));
    }
    push_width_aware(&mut text, tag.as_str(), "  ", "  ", lines, width);
    proof {
        assert((text@, lines.deep_view()) == entry_steps(l0, number as nat, sv, w));
    }
    if text.unicode_len() > 0 {
        let pad = spaces(width as usize - text.unicode_len());
        text.append(pad.as_str());
        let ghost before = lines.deep_view();
        lines.push(text);
        assert(lines.deep_view() =~= before.push(text@));
    }
}

/// Lists the songs from the `skip`-th on, numbered from 1, then blank
/// lines, until there are `height` lines.
fn fill_song_list(lines: &mut Vec<String>, songs: &Vec<Song>, skip: usize, height: u16, width: u16)
    requires
        skip <= songs@.len(),
        list_fits(old(lines).deep_view(), song_views(songs@).skip(skip as int), 0, height as nat, width as nat),
    ensures
        final(lines).deep_view() == song_list(
            old(lines).deep_view(),
            song_views(songs@).skip(skip as int),
            0,
            height as nat,
            width as nat,
        ),
{
    let ghost sv = song_views(songs@).skip(skip as int);
    let ghost target = song_list(lines.deep_view(), sv, 0, height as nat, width as nat);
    let n = songs.len();
    let mut k: usize = 0;
    while lines.len() < height as usize
        invariant
            skip <= n == songs@.len(),
            sv == song_views(songs@).skip(skip as int),
            k <= n - skip,
            song_list(lines.deep_view(), sv, k as nat, height as nat, width as nat) == target,
            list_fits(lines.deep_view(), sv, k as nat, height as nat, width as nat),
        decreases n - skip - k, height - lines@.len(),
    {
        if k < n - skip {
            assert(sv[k as int] == songs@[skip + k]@);
            push_entry(lines, k + 1, &songs[skip + k], width);
            k = k + 1;
        } else {
            let ghost before = lines.deep_view();
            lines.push(spaces(width as usize));
            assert(lines.deep_view() =~= before.push(repeated(' ', width as nat)));
        }
    }
}

/// The first `height` lines.
fn keep_first(lines: &mut Vec<String>, height: u16)
    requires
        old(lines)@.len() >= height,
    ensures
        final(lines).deep_view() == old(lines).deep_view().take(height as int),
{
    lines.truncate(height as usize);
    assert(lines.deep_view() =~= old(lines).deep_view().take(height as int));
}

/// The lines of the queue panel, `width` wide and `height` high: "Queue:",
/// then the songs after the one playing, numbered from 1, then blank lines.
/// A panel too small shows nothing.
pub fn queue_panel_lines(width: u16, height: u16, songs: &Vec<Song>) -> (lines: Vec<String>)
    requires
        height > 0 && width > 6 ==> songs@.len() >= 1 && list_fits(
            seq!["Queue:"@ + repeated(' ', (width - 6) as nat)],
            song_views(songs@).drop_first(),
            0,
            height as nat,
            width as nat,
        ),
    ensures
        lines.deep_view() == queue_panel(width as nat, height as nat, song_views(songs@)),
{
    let mut lines: Vec<String> = Vec::new();
    if height == 0 || width <= 6 {
        assert(lines.deep_view() =~= Seq::<Seq<char>>::empty());
        return lines;
    }
    let mut head = String::from_str("Queue:");
    let pad = spaces(width as usize - 6);
    head.append(pad.as_str());
    lines.push(head);
    proof {
        reveal_strlit("Queue:");
        assert(lines.deep_view() =~= seq!["Queue:"@ + repeated(' ', (width - 6) as nat)]);
        assert(song_views(songs@).skip(1) =~= song_views(songs@).drop_first());
    }
    fill_song_list(&mut lines, songs, 1, height, width);
    proof {
        lemma_song_list_len(
            seq!["Queue:"@ + repeated(' ', (width - 6) as nat)],
            song_views(songs@).drop_first(),
            0,
            height as nat,
            width as nat,
        );
    }
    keep_first(&mut lines, height);
    lines
}

/// `song_list` ends with at least `height` lines.
proof fn lemma_song_list_len(
    lines: Seq<Seq<char>>,
    songs: Seq<SongView>,
    k: nat,
    height: nat,
    width: nat,
)
    ensures
        song_list(lines, songs, k, height, width).len() >= height,
    decreases songs.len() - k, height - lines.len(),
{
    if lines.len() >= height {
    } else if k < songs.len() {
        lemma_song_list_len(song_entry(lines, k + 1, songs[k as int], width), songs, k + 1, height, width);
    } else {
        lemma_song_list_len(lines.push(repeated(' ', width)), songs, k, height, width);
    }
}

/// The lines of the playlist panel, `width` wide and `height` high:
/// "Playlist:" and the playlist's name, then its songs numbered from 1, then
/// blank lines. A panel too small shows nothing.
pub fn playlist_panel_lines(width: u16, height: u16, name: &str, songs: &Vec<Song>) -> (lines: Vec<String>)
    requires
        height > 0 && width > 8 ==> push_width_aware_accepts(9, name@.len(), 0, 0, width as nat)
            && list_fits(playlist_head(width as nat, name@), song_views(songs@), 0, height as nat, width as nat),
    ensures
        lines.deep_view() == playlist_panel(width as nat, height as nat, name@, song_views(songs@)),
{
    let mut lines: Vec<String> = Vec::new();
    if height == 0 || width <= 8 {
        assert(lines.deep_view() =~= Seq::<Seq<char>>::empty());
        return lines;
    }
    let mut top = String::from_str("Playlist:");
    proof {
        reveal_strlit("Playlist:");
        reveal_strlit("");
    }
    assert(lines.deep_view() =~= Seq::<Seq<char>>::empty());
    push_width_aware(&mut top, name, "", "", &mut lines, width);
    let pad = spaces(width as usize - top.unicode_len());
    top.append(pad.as_str());
    let ghost before = lines.deep_view();
    lines.push(top);
    assert(lines.deep_view() =~= before.push(top@));
    assert(lines.deep_view() == playlist_head(width as nat, name@));
    assert(song_views(songs@).skip(0) =~= song_views(songs@));
    fill_song_list(&mut lines, songs, 0, height, width);
    proof {
        lemma_song_list_len(playlist_head(width as nat, name@), song_views(songs@), 0, height as nat, width as nat);
    }
    keep_first(&mut lines, height);
    lines
}

/// The first `n` words laid out `width` wide, each after a space on the
/// line being built or after two spaces on a new one: the line being built
/// and the finished lines.
pub open spec fn wrap_words(words: Seq<Seq<char>>, n: nat, width: nat) -> (Seq<char>, Seq<Seq<char>>)
    decreases n,
{
    if n == 0 {
        (Seq::empty(), Seq::empty())
    } else {
        let (c, l) = wrap_words(words, (n - 1) as nat, width);
        push_width_aware_spec(c, l, words[n - 1], "  "@, " "@, width)
    }
}

/// The words of a paragraph laid out `width` wide, the last line padded.
pub open spec fn paragraph_lines(paragraph: Seq<char>, width: nat) -> Seq<Seq<char>> {
    let words = white_words(paragraph);
    let (c, l) = wrap_words(words, words.len(), width);
    if c.len() > 0 {
        l.push(c + repeated(' ', (width - c.len()) as nat))
    } else {
        l
    }
}

/// Every word of the paragraph can be laid out with the 16-bit arithmetic
/// of `push_width_aware`.
pub open spec fn paragraph_fits(paragraph: Seq<char>, width: nat) -> bool {
    let words = white_words(paragraph);
    forall|n: nat|
        n < words.len() ==> push_width_aware_accepts(
            (#[trigger] wrap_words(words, n, width)).0.len(),
            words[n as int].len(),
            2,
            1,
            width,
        )
}

/// The lines of a paragraph placed from row `row` on, from its `j`-th line,
/// one line per row for as long as the row is above `limit`. Gives the
/// placements, after `acc`, and the row reached.
pub open spec fn place_paragraph(
    lines: Seq<Seq<char>>,
    j: nat,
    row: int,
    limit: int,
    acc: Seq<(int, Seq<char>)>,
) -> (Seq<(int, Seq<char>)>, int)
    decreases lines.len() - j,
{
    if j >= lines.len() || row >= limit {
        (acc, row)
    } else {
        place_paragraph(lines, j + 1, row + 1, limit, acc.push((row, lines[j as int])))
    }
}

/// The paragraphs from the `p`-th on, laid out `width` wide, placed one
/// after the other from row `row`.
pub open spec fn place_paragraphs(
    paragraphs: Seq<Seq<char>>,
    p: nat,
    row: int,
    limit: int,
    width: nat,
    acc: Seq<(int, Seq<char>)>,
) -> (Seq<(int, Seq<char>)>, int)
    decreases paragraphs.len() - p,
{
    if p >= paragraphs.len() {
        (acc, row)
    } else {
        let (placed, next) = place_paragraph(
            paragraph_lines(paragraphs[p as int], width),
            0,
            row,
            limit,
            acc,
        );
        place_paragraphs(paragraphs, p + 1, next, limit, width, placed)
    }
}

/// Blank lines of the width on the rows from `from` up to `to`.
pub open spec fn blank_rows(from: int, to: int, width: nat) -> Seq<(int, Seq<char>)> {
    if from >= to {
        Seq::empty()
    } else {
        Seq::new((to - from) as nat, |k: int| (from + k, repeated(' ', width)))
    }
}

/// The text of the right panel, `width` wide on a terminal `height` high: its
/// lines (split at '\n') are laid out word by word from row 2 on, one line
/// per row; once the row reaches `height - 20` nothing more is placed, and the
/// rows left up to `height - 20` are blanked.
pub open spec fn right_panel_rows(text: Seq<char>, width: nat, height: nat) -> Seq<(int, Seq<char>)> {
    let (placed, row) = place_paragraphs(split_on_char(text, '\n'), 0, 2, height - 20, width, Seq::empty());
    placed + blank_rows(row, height - 19, width)
}

/// The inputs on which the right panel is laid out: every paragraph fits the
/// width and the terminal is at least 19 rows high.
pub open spec fn right_panel_fits(text: Seq<char>, width: nat, height: nat) -> bool {
    let paragraphs = split_on_char(text, '\n');
    &&& forall|p: int| 0 <= p < paragraphs.len() ==> paragraph_fits(#[trigger] paragraphs[p], width)
    &&& height >= 19
}

/// Placed rows as mathematical values.
pub open spec fn rows_view(rows: Seq<(u16, String)>) -> Seq<(int, Seq<char>)> {
    rows.map_values(|r: (u16, String)| (r.0 as int, r.1@))
}

/// Lays out the words of a paragraph `width` wide, the last line padded.
fn paragraph_layout(paragraph: &str, width: u16) -> (lines: Vec<String>)
    requires
        paragraph_fits(paragraph@, width as nat),
    ensures
        lines.deep_view() == paragraph_lines(paragraph@, width as nat),
{
    let words = split_white(paragraph);
    let ghost ws = white_words(paragraph@);
    let mut line = String::new();
    let mut lines: Vec<String> = Vec::new();
    proof {
        reveal_strlit("  ");
        reveal_strlit(" ");
        assert(lines.deep_view() =~= Seq::<Seq<char>>::empty());
    }
    let n = words.len();
    for i in 0..n
        invariant
            n == ws.len(),
            words.deep_view() == ws,
            paragraph_fits(paragraph@, width as nat),
            ws == white_words(paragraph@),
            (line@, lines.deep_view()) == wrap_words(ws, i as nat, width as nat),
    {
        proof {
            reveal_strlit("  ");
            reveal_strlit(" ");
            assert(push_width_aware_accepts(
                wrap_words(ws, i as nat, width as nat).0.len(),
                ws[i as int].len(),
                2,
                1,
                width as nat,
            ));
        }
        push_width_aware(&mut line, words[i].as_str(), "  ", " ", &mut lines, width);
    }
    if line.unicode_len() > 0 {
        let pad = spaces(width as usize - line.unicode_len());
        line.append(pad.as_str());
        let ghost before = lines.deep_view();
        lines.push(line);
        assert(lines.deep_view() =~= before.push(line@));
    }
    lines
}

/// Lays out the text of the right panel, `width` wide on a terminal `height`
/// high: the rows to write and what to write on each. Every row lies between
/// row 2 and row `height - 20`.
pub fn right_panel_layout(text: &str, width: u16, height: u16) -> (rows: Vec<(u16, String)>)
    requires
        right_panel_fits(text@, width as nat, height as nat),
    ensures
        rows_view(rows@) == right_panel_rows(text@, width as nat, height as nat),
        forall|i: int| 0 <= i < rows.len() ==> 2 <= #[trigger] rows@[i].0 <= height - 20,
{
    let paragraphs = split_char(text, '\n');
    let ghost ps = split_on_char(text@, '\n');
    let ghost limit: int = height - 20;
    let ghost target = place_paragraphs(ps, 0, 2, limit, width as nat, Seq::empty());
    let mut rows: Vec<(u16, String)> = Vec::new();
    let mut row: u16 = 2;
    assert(rows_view(rows@) =~= Seq::<(int, Seq<char>)>::empty());
    let np = paragraphs.len();
    for p in 0..np
        invariant
            np == ps.len(),
            paragraphs.deep_view() == ps,
            ps == split_on_char(text@, '\n'),
            limit == height - 20,
            right_panel_fits(text@, width as nat, height as nat),
            target == place_paragraphs(ps, 0, 2, limit, width as nat, Seq::empty()),
            place_paragraphs(ps, p as nat, row as int, limit, width as nat, rows_view(rows@)) == target,
            2 <= row,
            row == 2 || row <= limit,
            forall|i: int| 0 <= i < rows.len() ==> 2 <= #[trigger] rows@[i].0 < limit,
    {
        assert(paragraph_fits(ps[p as int], width as nat));
        let lines = paragraph_layout(paragraphs[p].as_str(), width);
        let ghost ls = paragraph_lines(ps[p as int], width as nat);
        let ghost par_target = place_paragraph(ls, 0, row as int, limit, rows_view(rows@));
        assert(target == place_paragraphs(ps, (p + 1) as nat, par_target.1, limit, width as nat, par_target.0));
        let nl = lines.len();
        let mut j: usize = 0;
        while j < nl && (row as u32) + 20 < height as u32
            invariant
                j <= nl,
                nl == ls.len(),
                lines.deep_view() == ls,
                limit == height - 20,
                place_paragraph(ls, j as nat, row as int, limit, rows_view(rows@)) == par_target,
                2 <= row,
                row == 2 || row <= limit,
                forall|i: int| 0 <= i < rows.len() ==> 2 <= #[trigger] rows@[i].0 < limit,
            decreases nl - j,
        {
            let ghost acc = rows_view(rows@);
            rows.push((row, lines[j].clone()));
            assert(rows_view(rows@) =~= acc.push((row as int, ls[j as int])));
            row = row + 1;
            j = j + 1;
        }
    }
    let ghost placed = rows_view(rows@);
    let end = height - 19;
    let mut r: u16 = row;
    assert(rows_view(rows@) =~= placed + Seq::new(
        (r - row) as nat,
        |k: int| (row + k, repeated(' ', width as nat)),
    ));
    while r < end
        invariant
            2 <= row <= r,
            row <= end ==> r <= end,
            row >= end ==> r == row,
            end == height - 19,
            rows_view(rows@) == placed + Seq::new(
                (r - row) as nat,
                |k: int| (row + k, repeated(' ', width as nat)),
            ),
            forall|i: int| 0 <= i < rows.len() ==> 2 <= #[trigger] rows@[i].0 <= height - 20,
        decreases end - r,
    {
        let ghost before = rows_view(rows@);
        rows.push((r, spaces(width as usize)));
        assert(rows_view(rows@) =~= before.push((r as int, repeated(' ', width as nat))));
        r = r + 1;
        assert(rows_view(rows@) =~= placed + Seq::new(
            (r - row) as nat,
            |k: int| (row + k, repeated(' ', width as nat)),
        ));
    }
    proof {
        if row < end {
            assert(r == end);
            assert(Seq::new((r - row) as nat, |k: int| (row + k, repeated(' ', width as nat)))
                =~= blank_rows(row as int, end as int, width as nat));
        } else {
            assert(Seq::new((r - row) as nat, |k: int| (row + k, repeated(' ', width as nat)))
                =~= blank_rows(row as int, end as int, width as nat));
        }
    }
    rows
}

} // verus!

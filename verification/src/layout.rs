use vstd::prelude::*;
use vstd::string::*;

use crate::text::{decimal, format_usize};

verus! {

/// `n` copies of `c`.
pub open spec fn repeated(c: char, n: nat) -> Seq<char> {
    Seq::new(n, |i: int| c)
}

/// `n` spaces.
pub fn spaces(n: usize) -> (s: String)
    ensures
        s@ == repeated(' ', n as nat),
{
    proof {
        reveal_strlit(" ");
    }
    repeat_char_text(" ", n)
}

/// `n` copies of a one-character text.
fn repeat_char_text(unit: &str, n: usize) -> (s: String)
    requires
        unit@.len() == 1,
    ensures
        s@ == repeated(unit@[0], n as nat),
{
    let mut s = String::new();
    for i in 0..n
        invariant
            unit@.len() == 1,
            s@ == repeated(unit@[0], i as nat),
    {
        s.append(unit);
        assert(s@ =~= repeated(unit@[0], (i + 1) as nat));
    }
    s
}

/// The inputs on which `push_width_aware` does its work: the character
/// counts fit the 16-bit arithmetic it does, and a line that overflows is
/// never longer than the width already, nor is the new-line prefix with room
/// for "..." wider than the width.
pub open spec fn push_width_aware_accepts(
    current: nat,
    to_push: nat,
    new_line_start: nat,
    separator: nat,
    max_length: nat,
) -> bool {
    &&& current + to_push + separator <= u16::MAX
    &&& current + to_push + separator > max_length ==> {
        &&& current <= max_length
        &&& to_push + new_line_start <= u16::MAX
        &&& to_push + new_line_start > max_length ==> new_line_start + 3 <= max_length
    }
}

/// The line being built and the finished lines after `push_width_aware`: the
/// text goes on the current line after the separator if it fits (or starts an
/// empty line); otherwise the current line is padded to the width and
/// finished, and the text starts a new line after the new-line prefix, or, if
/// it is too long even for that, is cut to fit with "..." on a finished line
/// of its own.
pub open spec fn push_width_aware_spec(
    current: Seq<char>,
    lines: Seq<Seq<char>>,
    to_push: Seq<char>,
    new_line_start: Seq<char>,
    separator: Seq<char>,
    max_length: nat,
) -> (Seq<char>, Seq<Seq<char>>) {
    if current.len() + to_push.len() + separator.len() > max_length {
        let finished = lines.push(current + repeated(' ', (max_length - current.len()) as nat));
        if to_push.len() + new_line_start.len() > max_length {
            (
                Seq::<char>::empty(),
                finished.push(
                    new_line_start + to_push.take(max_length - new_line_start.len() - 3) + "..."@,
                ),
            )
        } else {
            (new_line_start + to_push, finished)
        }
    } else if current.len() == 0 {
        (to_push, lines)
    } else {
        (current + separator + to_push, lines)
    }
}

/// Appends `to_push` to the line being built with a width limit, finishing
/// lines into `list` as they fill up (see `push_width_aware_spec`).
pub fn push_width_aware(
    string: &mut String,
    to_push: &str,
    new_line_start: &str,
    same_line_separator: &str,
    list: &mut Vec<String>,
    max_length: u16,
)
    requires
        push_width_aware_accepts(
            old(string)@.len(),
            to_push@.len(),
            new_line_start@.len(),
            same_line_separator@.len(),
            max_length as nat,
        ),
    ensures
        (final(string)@, final(list).deep_view()) == push_width_aware_spec(
            old(string)@,
            old(list).deep_view(),
            to_push@,
            new_line_start@,
            same_line_separator@,
            max_length as nat,
        ),
{
    let current = string.unicode_len();
    let pushed = to_push.unicode_len();
    let start = new_line_start.unicode_len();
    let separator = same_line_separator.unicode_len();
    if current + pushed + separator > max_length as usize {
        let pad = spaces(max_length as usize - current);
        string.append(pad.as_str());
        let ghost before = list.deep_view();
        list.push(string.clone());
        assert(list.deep_view() =~= before.push(string@));
        *string = String::new();
        if pushed + start > max_length as usize {
            let mut truncated = String::from_str(new_line_start);
            let keep = max_length as usize - start - 3;
            truncated.append(to_push.substring_char(0, keep));
            truncated.append("...");
            let ghost before2 = list.deep_view();
            list.push(truncated);
            assert(list.deep_view() =~= before2.push(truncated@));
        } else {
            string.append(new_line_start);
            string.append(to_push);
        }
    } else if current == 0 {
        string.append(to_push);
        assert(string@ =~= to_push@);
    } else {
        string.append(same_line_separator);
        string.append(to_push);
    }
}

/// The inputs on which `push_helper` does its work: its 16-bit sums fit,
/// and a text cut to fit leaves room for the new-line prefix and "...".
pub open spec fn push_helper_accepts(current: nat, to_push: nat, new_line_start: nat, max_length: nat) -> bool {
    &&& current + to_push + 3 <= u16::MAX
    &&& current + to_push + 3 > max_length ==> {
        &&& to_push + new_line_start <= u16::MAX
        &&& to_push + new_line_start > max_length ==> new_line_start + 3 <= max_length
    }
}

/// The older line builder: the text goes on the current line after the
/// separator if it fits with room for three more characters; otherwise the
/// current line is finished as it is, and the text starts a new line after
/// the new-line prefix, or, if too long even for that, is cut to fit with
/// "..." on a finished line of its own.
pub open spec fn push_helper_spec(
    current: Seq<char>,
    lines: Seq<Seq<char>>,
    to_push: Seq<char>,
    new_line_start: Seq<char>,
    separator: Seq<char>,
    max_length: nat,
) -> (Seq<char>, Seq<Seq<char>>) {
    if current.len() + to_push.len() + 3 > max_length {
        if to_push.len() + new_line_start.len() > max_length {
            (
                Seq::<char>::empty(),
                lines.push(current).push(
                    new_line_start + to_push.take(max_length - new_line_start.len() - 3) + "..."@,
                ),
            )
        } else {
            (new_line_start + to_push, lines.push(current))
        }
    } else {
        (current + separator + to_push, lines)
    }
}

/// Appends `to_push` to the line being built as the older view did (see
/// `push_helper_spec`).
pub fn push_helper(
    string: &mut String,
    to_push: &str,
    new_line_start: &str,
    same_line_separator: &str,
    list: &mut Vec<String>,
    max_length: u16,
)
    requires
        push_helper_accepts(old(string)@.len(), to_push@.len(), new_line_start@.len(), max_length as nat),
    ensures
        (final(string)@, final(list).deep_view()) == push_helper_spec(
            old(string)@,
            old(list).deep_view(),
            to_push@,
            new_line_start@,
            same_line_separator@,
            max_length as nat,
        ),
{
    let current = string.unicode_len();
    let pushed = to_push.unicode_len();
    let start = new_line_start.unicode_len();
    if current + pushed + 3 > max_length as usize {
        let ghost before = list.deep_view();
        list.push(string.clone());
        assert(list.deep_view() =~= before.push(string@));
        *string = String::new();
        if pushed + start > max_length as usize {
            let mut truncated = String::from_str(new_line_start);
            let keep = max_length as usize - start - 3;
            truncated.append(to_push.substring_char(0, keep));
            truncated.append("...");
            let ghost before2 = list.deep_view();
            list.push(truncated);
            assert(list.deep_view() =~= before2.push(truncated@));
        } else {
            string.append(new_line_start);
            string.append(to_push);
        }
    } else {
        string.append(same_line_separator);
        string.append(to_push);
    }
}

/// The title shown on the top line of the view, for a terminal `width` wide:
/// cut to `width - 3` characters and "..." when longer than the width, else
/// padded with spaces to the width.
pub fn song_name_line(title: &str, width: u16) -> (line: String)
    requires
        title@.len() <= u16::MAX,
        title@.len() > width ==> width >= 3,
    ensures
        line@ == (if title@.len() > width {
            title@.take(width - 3) + "..."@
        } else {
            title@ + repeated(' ', (width - title@.len()) as nat)
        }),
{
    let count = title.unicode_len();
    if count > width as usize {
        let mut truncated = String::from_str(title.substring_char(0, (width - 3) as usize));
        truncated.append("...");
        truncated
    } else {
        let mut name = String::from_str(title);
        let pad = spaces(width as usize - count);
        name.append(pad.as_str());
        name
    }
}

/// The lines that `draw_line_cells` can draw without its 16-bit differences
/// going below zero: vertical, horizontal, or a diagonal from the lower right
/// to the upper left.
pub open spec fn drawable_line(from: (u16, u16), to: (u16, u16)) -> bool {
    from.0 == to.0 || from.1 == to.1 || (from.0 >= to.0 && from.1 >= to.1 && from.0 - to.0 == from.1
        - to.1)
}

/// The cells a line between two terminal positions is drawn with: '|' down a
/// column for a vertical line, '-' along a row for a horizontal one, each
/// from the start to the end position; a diagonal from the lower right walks
/// rightwards from its start and so draws nothing.
pub fn draw_line_cells(from: (u16, u16), to: (u16, u16)) -> (cells: Vec<(u16, u16, char)>)
    requires
        drawable_line(from, to),
    ensures
        from.0 == to.0 ==> cells@ == Seq::new(
            if from.1 <= to.1 { (to.1 - from.1 + 1) as nat } else { 0 },
            |k: int| (from.0, (from.1 + k) as u16, '|'),
        ),
        from.0 != to.0 && from.1 == to.1 ==> cells@ == Seq::new(
            if from.0 <= to.0 { (to.0 - from.0 + 1) as nat } else { 0 },
            |k: int| ((from.0 + k) as u16, from.1, '-'),
        ),
        from.0 != to.0 && from.1 != to.1 ==> cells@.len() == 0,
{
    let mut cells: Vec<(u16, u16, char)> = Vec::new();
    if from.0 == to.0 {
        let x = from.0;
        let mut y: u32 = from.1 as u32;
        while y <= to.1 as u32
            invariant
                from.1 <= y <= to.1 as u32 + 1 || (y == from.1 && from.1 > to.1),
                cells@ == Seq::new((y - from.1) as nat, |k: int| (x, (from.1 + k) as u16, '|')),
            decreases to.1 as u32 + 1 - y,
        {
            cells.push((x, y as u16, '|'));
            assert(cells@ =~= Seq::new((y + 1 - from.1) as nat, |k: int| (x, (from.1 + k) as u16, '|')));
            y = y + 1;
        }
        assert(cells@ =~= Seq::new(
            if from.1 <= to.1 { (to.1 - from.1 + 1) as nat } else { 0 },
            |k: int| (from.0, (from.1 + k) as u16, '|'),
        ));
    } else if from.1 == to.1 {
        let yy = from.1;
        let mut x: u32 = from.0 as u32;
        while x <= to.0 as u32
            invariant
                from.0 <= x <= to.0 as u32 + 1 || (x == from.0 && from.0 > to.0),
                cells@ == Seq::new((x - from.0) as nat, |k: int| ((from.0 + k) as u16, yy, '-')),
            decreases to.0 as u32 + 1 - x,
        {
            cells.push((x as u16, yy, '-'));
            assert(cells@ =~= Seq::new((x + 1 - from.0) as nat, |k: int| ((from.0 + k) as u16, yy, '-')));
            x = x + 1;
        }
        assert(cells@ =~= Seq::new(
            if from.0 <= to.0 { (to.0 - from.0 + 1) as nat } else { 0 },
            |k: int| ((from.0 + k) as u16, from.1, '-'),
        ));
    }
    cells
}

/// Two decimal digits of a number below 100 (a leading zero below 10).
pub open spec fn two_digits(n: nat) -> Seq<char> {
    if n < 10 {
        seq!['0'] + decimal(n)
    } else {
        decimal(n)
    }
}

/// A time of play as "m:ss": the minutes within the hour, then two digits of
/// seconds.
pub open spec fn time_text_spec(secs: nat) -> Seq<char> {
    decimal((secs / 60) % 60) + ":"@ + two_digits(secs % 60)
}

/// A time of play, in whole seconds, as "m:ss".
pub fn time_text(secs: u64) -> (s: String)
    ensures
        s@ == time_text_spec(secs as nat),
{
    let mut s = format_usize(((secs / 60) % 60) as usize);
    s.append(":");
    let sec = (secs % 60) as usize;
    if sec < 10 {
        s.append("0");
    }
    s.append(format_usize(sec).as_str());
    proof {
        reveal_strlit("0");
    }
    s
}

/// The progress line: played time, "[", `filled` '=' and spaces up to the
/// room left by the two times and the brackets, "]", then the song's length.
pub fn progress_bar_text(width: u16, gone_secs: u64, duration_secs: u64, filled: usize) -> (s: String)
    requires
        time_text_spec(gone_secs as nat).len() + time_text_spec(duration_secs as nat).len() + 2 + filled
            <= width,
    ensures
        s@ == time_text_spec(gone_secs as nat) + "["@ + repeated('=', filled as nat) + repeated(
            ' ',
            (width - time_text_spec(duration_secs as nat).len() - time_text_spec(
                gone_secs as nat,
            ).len() - 2 - filled) as nat,
        ) + "]"@ + time_text_spec(duration_secs as nat),
{
    let duration_text = time_text(duration_secs);
    let progress_text = time_text(gone_secs);
    let room = width as usize - duration_text.unicode_len() - progress_text.unicode_len() - 2;
    let mut s = progress_text;
    s.append("[");
    proof {
        reveal_strlit("=");
    }
    let bar = repeat_char_text("=", filled);
    s.append(bar.as_str());
    let pad = spaces(room - filled);
    s.append(pad.as_str());
    s.append("]");
    s.append(duration_text.as_str());
    s
}

/// Where the right third of the view starts and how wide it is, for a
/// terminal `width` wide: of the width less two columns of dividers, each
/// third is a third (rounded down) and the right one takes the remainder too.
pub fn right_third_geometry(width: u16) -> (g: (u16, u16))
    ensures
        ({
            let usable = if width >= 2 { width - 2 } else { 0 };
            g.0 == (usable / 3) * 2 + 2 && g.1 == usable / 3 + usable % 3
        }),
{
    let usable = width.saturating_sub(2);
    let third_width = usable / 3;
    let right_width = third_width + (usable % 3);
    let right_start = third_width * 2 + 2;
    (right_start, right_width)
}

/// No line is wider than the width: every line `push_width_aware` finishes
/// is exactly `max_length` wide, and the line it leaves being built is no
/// wider, where it started no wider.
pub proof fn lemma_push_width_aware_widths(
    current: Seq<char>,
    lines: Seq<Seq<char>>,
    to_push: Seq<char>,
    new_line_start: Seq<char>,
    separator: Seq<char>,
    max_length: nat,
)
    requires
        push_width_aware_accepts(
            current.len(),
            to_push.len(),
            new_line_start.len(),
            separator.len(),
            max_length,
        ),
        current.len() <= max_length,
    ensures
        ({
            let (c, l) = push_width_aware_spec(current, lines, to_push, new_line_start, separator, max_length);
            &&& c.len() <= max_length
            &&& lines.len() <= l.len()
            &&& l.take(lines.len() as int) == lines
            &&& forall|i: int| lines.len() <= i < l.len() ==> (#[trigger] l[i]).len() == max_length
        }),
{
    reveal_strlit("...");
    let (c, l) = push_width_aware_spec(current, lines, to_push, new_line_start, separator, max_length);
    assert(l.take(lines.len() as int) =~= lines);
}

/// The right third reaches the right edge: it starts where the two thirds
/// before it and the two dividers end, and ends at the last column.
pub proof fn lemma_right_third_reaches_edge(width: nat)
    requires
        width >= 2,
    ensures
        ((width - 2) / 3) * 2 + 2 + (width - 2) / 3 + (width - 2) % 3 == width,
{
    let usable = (width - 2) as nat;
    assert(usable == 3 * (usable / 3) + usable % 3) by (nonlinear_arith);
}

} // verus!

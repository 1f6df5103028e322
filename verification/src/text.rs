use vstd::prelude::*;
use vstd::string::*;
use vstd::utf8::*;

verus! {

broadcast use vstd::utf8::group_utf8_lib;

/// `s` without the copies of `c` at its start.
pub open spec fn trim_start(s: Seq<char>, c: char) -> Seq<char>
    decreases s.len(),
{
    if s.len() > 0 && s[0] == c {
        trim_start(s.drop_first(), c)
    } else {
        s
    }
}

/// `s` without the copies of `c` at its end.
pub open spec fn trim_end(s: Seq<char>, c: char) -> Seq<char>
    decreases s.len(),
{
    if s.len() > 0 && s.last() == c {
        trim_end(s.drop_last(), c)
    } else {
        s
    }
}

/// `s` without the copies of `c` at either end (`str::trim_matches` with a
/// single character).
pub open spec fn trim_char(s: Seq<char>, c: char) -> Seq<char> {
    trim_end(trim_start(s, c), c)
}

/// `n` NUL characters.
pub open spec fn nul_chars(n: nat) -> Seq<char> {
    Seq::new(n, |i: int| '\0')
}

/// `n` zero bytes.
pub open spec fn zero_bytes(n: nat) -> Seq<u8> {
    Seq::new(n, |i: int| 0u8)
}

/// `b` followed by zero bytes up to length `n` (`b` itself when it is not shorter).
pub open spec fn zero_padded(b: Seq<u8>, n: nat) -> Seq<u8> {
    if b.len() < n {
        b + zero_bytes((n - b.len()) as nat)
    } else {
        b
    }
}

/// Whether `s` neither starts nor ends with a NUL character.
pub open spec fn no_outer_nul(s: Seq<char>) -> bool {
    s.len() > 0 ==> s[0] != '\0' && s.last() != '\0'
}

/// The text that `String::from_utf8_lossy` makes of bytes that are not
/// valid UTF-8 (each invalid sequence replaced by U+FFFD).
pub uninterp spec fn utf8_lossy(bytes: Seq<u8>) -> Seq<char>;

/// The text that `String::from_utf8_lossy` makes of `bytes`: valid UTF-8
/// decodes as it is.
pub open spec fn lossy_text(bytes: Seq<u8>) -> Seq<char> {
    if valid_utf8(bytes) {
        decode_utf8(bytes)
    } else {
        utf8_lossy(bytes)
    }
}

/// Calls `String::from_utf8_lossy` and takes the result as an owned string.
/// Claims, as its documentation says, that valid UTF-8 comes back decoded as
/// it is; what it makes of invalid sequences is left to the name.
#[verifier::external_body]
pub(crate) fn decode_utf8_lossy(bytes: &[u8]) -> (s: String)
    ensures
        valid_utf8(bytes@) ==> s@ == decode_utf8(bytes@),
        !valid_utf8(bytes@) ==> s@ == utf8_lossy(bytes@),
{
    String::from_utf8_lossy(bytes).into_owned()
}

/// Calls `String::from_utf8` on a copy of the bytes. Claims, as its
/// documentation says, that it succeeds exactly on valid UTF-8 and then
/// holds the decoded text; on failure it returns the error's message, of
/// which nothing is claimed.
#[verifier::external_body]
pub(crate) fn decode_utf8_strict(bytes: Vec<u8>) -> (r: Result<String, String>)
    ensures
        r is Ok <==> valid_utf8(bytes@),
        r matches Ok(s) ==> s@ == decode_utf8(bytes@),
{
    String::from_utf8(bytes).map_err(|e| e.to_string())
}

proof fn lemma_trim_start_step(s: Seq<char>, i: int, c: char)
    requires
        0 <= i < s.len(),
        s[i] == c,
    ensures
        trim_start(s.subrange(i, s.len() as int), c) == trim_start(s.subrange(i + 1, s.len() as int), c),
{
    assert(s.subrange(i, s.len() as int).drop_first() =~= s.subrange(i + 1, s.len() as int));
}

proof fn lemma_trim_end_step(s: Seq<char>, a: int, j: int, c: char)
    requires
        0 <= a < j <= s.len(),
        s[j - 1] == c,
    ensures
        trim_end(s.subrange(a, j), c) == trim_end(s.subrange(a, j - 1), c),
{
    assert(s.subrange(a, j).drop_last() =~= s.subrange(a, j - 1));
}

/// `s` without NUL characters at either end.
pub fn trim_nul(s: &str) -> (r: String)
    ensures
        r@ == trim_char(s@, '\0'),
{
    let n = s.unicode_len();
    let mut start: usize = 0;
    assert(s@.subrange(0, n as int) =~= s@);
    loop
        invariant
            n == s@.len(),
            start <= n,
            trim_start(s@, '\0') == trim_start(s@.subrange(start as int, n as int), '\0'),
        ensures
            start <= n,
            trim_start(s@, '\0') == s@.subrange(start as int, n as int),
        decreases n - start,
    {
        if start == n {
            break;
        }
        if s.get_char(start) != '\0' {
            break;
        }
        proof {
            lemma_trim_start_step(s@, start as int, '\0');
        }
        start = start + 1;
    }
    assert(s@.subrange(0, n as int) =~= s@);
    let mut end: usize = n;
    loop
        invariant
            n == s@.len(),
            start <= end <= n,
            trim_start(s@, '\0') == s@.subrange(start as int, n as int),
            trim_end(s@.subrange(start as int, n as int), '\0') == trim_end(
                s@.subrange(start as int, end as int),
                '\0',
            ),
        ensures
            start <= end <= n,
            trim_end(s@.subrange(start as int, n as int), '\0') == s@.subrange(
                start as int,
                end as int,
            ),
        decreases end - start,
    {
        if end == start {
            break;
        }
        if s.get_char(end - 1) != '\0' {
            break;
        }
        proof {
            lemma_trim_end_step(s@, start as int, end as int, '\0');
        }
        end = end - 1;
    }
    let sub = s.substring_char(start, end);
    String::from_str(sub)
}

/// Encoding a concatenation is concatenating the encodings.
pub proof fn lemma_encode_utf8_concat(a: Seq<char>, b: Seq<char>)
    ensures
        encode_utf8(a + b) == encode_utf8(a) + encode_utf8(b),
    decreases a.len(),
{
    if a.len() == 0 {
        assert(a + b =~= b);
        assert(encode_utf8(a) + encode_utf8(b) =~= encode_utf8(b));
    } else {
        assert((a + b).drop_first() =~= a.drop_first() + b);
        lemma_encode_utf8_concat(a.drop_first(), b);
        assert(encode_utf8(a + b) =~= encode_scalar(a[0] as u32) + encode_utf8(a.drop_first() + b));
        assert(encode_utf8(a) + encode_utf8(b) =~= encode_scalar(a[0] as u32) + (encode_utf8(a.drop_first()) + encode_utf8(b)));
    }
}

/// NUL characters encode as zero bytes, one each.
pub proof fn lemma_encode_nul_chars(n: nat)
    ensures
        encode_utf8(nul_chars(n)) == zero_bytes(n),
    decreases n,
{
    if n == 0 {
        assert(encode_utf8(nul_chars(n)) =~= zero_bytes(n));
    } else {
        let m = (n - 1) as nat;
        assert(nul_chars(n).drop_first() =~= nul_chars(m));
        lemma_encode_nul_chars(m);
        assert(0u32 & 0x7Fu32 == 0u32) by (bit_vector);
        assert(encode_scalar(0u32) =~= seq![0u8]);
        assert(nul_chars(n)[0] as u32 == 0u32);
        assert(zero_bytes(n) =~= seq![0u8] + zero_bytes(m));
    }
}

proof fn lemma_trim_start_padded(u: Seq<char>, n: nat)
    requires
        u.len() > 0,
        u[0] != '\0',
    ensures
        trim_start(u + nul_chars(n), '\0') == u + nul_chars(n),
{
}

proof fn lemma_trim_end_padded(u: Seq<char>, n: nat)
    requires
        no_outer_nul(u),
    ensures
        trim_end(u + nul_chars(n), '\0') == u,
    decreases n,
{
    if n == 0 {
        assert(u + nul_chars(n) =~= u);
        if u.len() > 0 {
        } else {
        }
    } else {
        let m = (n - 1) as nat;
        assert((u + nul_chars(n)).drop_last() =~= u + nul_chars(m));
        lemma_trim_end_padded(u, m);
    }
}

proof fn lemma_trim_nul_chars(n: nat)
    ensures
        trim_start(nul_chars(n), '\0') == Seq::<char>::empty(),
    decreases n,
{
    if n > 0 {
        assert(nul_chars(n).drop_first() =~= nul_chars((n - 1) as nat));
        lemma_trim_nul_chars((n - 1) as nat);
    } else {
        assert(nul_chars(n) =~= Seq::<char>::empty());
    }
}

/// Text padded with zero bytes to `n` bytes decodes, lossily or not, and
/// trimmed of NULs, back to itself when it neither starts nor ends with NUL.
pub proof fn lemma_padded_text_round_trip(u: Seq<char>, n: nat)
    requires
        encode_utf8(u).len() <= n,
        no_outer_nul(u),
    ensures
        valid_utf8(zero_padded(encode_utf8(u), n)),
        trim_char(decode_utf8(zero_padded(encode_utf8(u), n)), '\0') == u,
{
    let k = (n - encode_utf8(u).len()) as nat;
    lemma_encode_nul_chars(k);
    lemma_encode_utf8_concat(u, nul_chars(k));
    let padded = zero_padded(encode_utf8(u), n);
    if encode_utf8(u).len() < n {
        assert(padded == encode_utf8(u + nul_chars(k)));
    } else {
        assert(k == 0);
        assert(u + nul_chars(k) =~= u);
        assert(padded == encode_utf8(u + nul_chars(k)));
    }
    assert(decode_utf8(padded) == u + nul_chars(k));
    if u.len() > 0 {
        lemma_trim_start_padded(u, k);
        lemma_trim_end_padded(u, k);
    } else {
        assert(u + nul_chars(k) =~= nul_chars(k));
        lemma_trim_nul_chars(k);
    }
}

} // verus!

verus! {

/// The character of a decimal digit.
pub open spec fn digit_char(d: nat) -> char {
    if d == 0 { '0' } else if d == 1 { '1' } else if d == 2 { '2' } else if d == 3 { '3' }
    else if d == 4 { '4' } else if d == 5 { '5' } else if d == 6 { '6' } else if d == 7 { '7' }
    else if d == 8 { '8' } else { '9' }
}

/// The decimal digits of `n`, as `usize`'s `Display` writes them.
pub open spec fn decimal(n: nat) -> Seq<char>
    decreases n,
{
    if n < 10 {
        seq![digit_char(n)]
    } else {
        decimal(n / 10).push(digit_char(n % 10))
    }
}

fn digit_text(d: usize) -> (s: &'static str)
    requires
        d < 10,
    ensures
        s@ == seq![digit_char(d as nat)],
{
    if d == 0 {
        proof { reveal_strlit("0"); }
        "0"
    } else if d == 1 {
        proof { reveal_strlit("1"); }
        "1"
    } else if d == 2 {
        proof { reveal_strlit("2"); }
        "2"
    } else if d == 3 {
        proof { reveal_strlit("3"); }
        "3"
    } else if d == 4 {
        proof { reveal_strlit("4"); }
        "4"
    } else if d == 5 {
        proof { reveal_strlit("5"); }
        "5"
    } else if d == 6 {
        proof { reveal_strlit("6"); }
        "6"
    } else if d == 7 {
        proof { reveal_strlit("7"); }
        "7"
    } else if d == 8 {
        proof { reveal_strlit("8"); }
        "8"
    } else {
        proof { reveal_strlit("9"); }
        "9"
    }
}

/// `n` written in decimal.
pub fn format_usize(n: usize) -> (s: String)
    ensures
        s@ == decimal(n as nat),
    decreases n,
{
    if n < 10 {
        String::from_str(digit_text(n))
    } else {
        let mut s = format_usize(n / 10);
        s.append(digit_text(n % 10));
        s
    }
}

/// Whether two texts are the same.
pub fn text_equals(a: &str, b: &str) -> (r: bool)
    ensures
        r == (a@ == b@),
{
    let n = a.unicode_len();
    let m = b.unicode_len();
    if n != m {
        return false;
    }
    for i in 0..n
        invariant
            n == a@.len(),
            m == b@.len(),
            n == m,
            forall|j: int| 0 <= j < i ==> a@[j] == b@[j],
    {
        if a.get_char(i) != b.get_char(i) {
            return false;
        }
    }
    assert(a@ =~= b@);
    true
}

} // verus!

verus! {

/// The pieces of `s` between copies of `c`, as `str::split(c)` gives them:
/// every copy ends a piece, so that neighbouring copies give empty pieces.
pub open spec fn split_on_char(s: Seq<char>, c: char) -> Seq<Seq<char>>
    decreases s.len(),
{
    if s.len() == 0 {
        seq![Seq::<char>::empty()]
    } else {
        let rest = split_on_char(s.drop_last(), c);
        if s.last() == c {
            rest.push(Seq::<char>::empty())
        } else {
            rest.update(rest.len() - 1, rest.last().push(s.last()))
        }
    }
}

/// The pieces of `s` between spaces, as `str::split(' ')` gives them.
pub open spec fn split_on_space(s: Seq<char>) -> Seq<Seq<char>> {
    split_on_char(s, ' ')
}

proof fn lemma_split_on_char_len(s: Seq<char>, c: char)
    ensures
        split_on_char(s, c).len() >= 1,
    decreases s.len(),
{
    if s.len() > 0 {
        lemma_split_on_char_len(s.drop_last(), c);
    }
}

/// `str::split(c)`: the pieces of `s` between copies of `c`.
pub fn split_char(s: &str, c: char) -> (parts: Vec<String>)
    ensures
        parts.deep_view() == split_on_char(s@, c),
{
    let n = s.unicode_len();
    let mut parts: Vec<String> = Vec::new();
    let mut start: usize = 0;
    assert(s@.take(0) =~= Seq::<char>::empty());
    for i in 0..n
        invariant
            n == s@.len(),
            start <= i,
            parts.deep_view().push(s@.subrange(start as int, i as int)) == split_on_char(
                s@.take(i as int),
                c,
            ),
    {
        proof {
            lemma_split_on_char_len(s@.take(i as int), c);
            assert(s@.take(i + 1).drop_last() =~= s@.take(i as int));
        }
        let ghost p0 = parts.deep_view();
        let ghost seg = s@.subrange(start as int, i as int);
        let ghost rest = split_on_char(s@.take(i as int), c);
        assert(rest == p0.push(seg));
        assert(s@.take(i + 1).last() == s@[i as int]);
        assert(s@.take(i + 1).len() > 0);
        if s.get_char(i) == c {
            let piece = String::from_str(s.substring_char(start, i));
            parts.push(piece);
            assert(parts.deep_view() =~= p0.push(seg));
            start = i + 1;
            assert(s@.subrange(start as int, i + 1) =~= Seq::<char>::empty());
            assert(split_on_char(s@.take(i + 1), c) == rest.push(Seq::<char>::empty()));
            assert(parts.deep_view().push(s@.subrange(start as int, i + 1)) =~= split_on_char(
                s@.take(i + 1),
                c,
            ));
        } else {
            assert(split_on_char(s@.take(i + 1), c) == rest.update(
                rest.len() - 1,
                rest.last().push(s@[i as int]),
            ));
            assert(seg.push(s@[i as int]) =~= s@.subrange(start as int, i + 1));
            assert(rest.last() == seg);
            assert(rest.update(rest.len() - 1, rest.last().push(s@[i as int])) =~= p0.push(
                seg.push(s@[i as int]),
            ));
            assert(parts.deep_view().push(s@.subrange(start as int, i + 1)) =~= split_on_char(
                s@.take(i + 1),
                c,
            ));
        }
    }
    let last = String::from_str(s.substring_char(start, n));
    let ghost before = parts.deep_view();
    parts.push(last);
    assert(parts.deep_view() =~= before.push(last@));
    assert(s@.take(n as int) =~= s@);
    parts
}

/// `str::split(' ')`: the pieces of `s` between spaces.
pub fn split_spaces(s: &str) -> (parts: Vec<String>)
    ensures
        parts.deep_view() == split_on_space(s@),
{
    split_char(s, ' ')
}

/// Whether `c` is white space, as `char::is_whitespace` has it (the Unicode
/// `White_Space` property).
pub open spec fn is_white_space(c: char) -> bool {
    ('\u{9}' <= c && c <= '\u{d}') || c == ' ' || c == '\u{85}' || c == '\u{a0}' || c == '\u{1680}'
        || ('\u{2000}' <= c && c <= '\u{200a}') || c == '\u{2028}' || c == '\u{2029}' || c
        == '\u{202f}' || c == '\u{205f}' || c == '\u{3000}'
}

/// Whether `c` is white space.
pub fn is_white(c: char) -> (b: bool)
    ensures
        b == is_white_space(c),
{
    ('\u{9}' <= c && c <= '\u{d}') || c == ' ' || c == '\u{85}' || c == '\u{a0}' || c == '\u{1680}'
        || ('\u{2000}' <= c && c <= '\u{200a}') || c == '\u{2028}' || c == '\u{2029}' || c
        == '\u{202f}' || c == '\u{205f}' || c == '\u{3000}'
}

/// The words of `s`, as `str::split_whitespace` gives them: the longest runs
/// of characters that are not white space, in order.
pub open spec fn white_words(s: Seq<char>) -> Seq<Seq<char>>
    decreases s.len(),
{
    if s.len() == 0 {
        Seq::empty()
    } else {
        let rest = white_words(s.drop_last());
        if is_white_space(s.last()) {
            rest
        } else if s.len() >= 2 && !is_white_space(s[s.len() - 2]) {
            rest.update(rest.len() - 1, rest.last().push(s.last()))
        } else {
            rest.push(seq![s.last()])
        }
    }
}

/// `str::split_whitespace`: the words of `s`.
pub fn split_white(s: &str) -> (words: Vec<String>)
    ensures
        words.deep_view() == white_words(s@),
{
    let n = s.unicode_len();
    let mut words: Vec<String> = Vec::new();
    let mut start: usize = 0;
    let mut in_word = false;
    assert(s@.take(0) =~= Seq::<char>::empty());
    for i in 0..n
        invariant
            n == s@.len(),
            start <= i,
            in_word ==> start < i && !is_white_space(s@[i - 1]) && white_words(s@.take(i as int))
                == words.deep_view().push(s@.subrange(start as int, i as int)),
            !in_word ==> white_words(s@.take(i as int)) == words.deep_view() && (i > 0 ==> is_white_space(
                s@[i - 1],
            )),
    {
        let ghost w0 = words.deep_view();
        let ghost prefix = s@.take(i + 1);
        assert(prefix.drop_last() =~= s@.take(i as int));
        assert(prefix.last() == s@[i as int]);
        let ch = s.get_char(i);
        if is_white(ch) {
            if in_word {
                let word = String::from_str(s.substring_char(start, i));
                words.push(word);
                assert(words.deep_view() =~= w0.push(s@.subrange(start as int, i as int)));
            }
            in_word = false;
        } else {
            if in_word {
                assert(prefix[i - 1] == s@[i - 1]);
                assert(s@.subrange(start as int, i + 1) =~= s@.subrange(start as int, i as int).push(
                    s@[i as int],
                ));
                assert(w0.push(s@.subrange(start as int, i as int)).update(
                    w0.len() as int,
                    s@.subrange(start as int, i as int).push(s@[i as int]),
                ) =~= w0.push(s@.subrange(start as int, i + 1)));
            } else {
                if i > 0 {
                    assert(prefix[i - 1] == s@[i - 1]);
                }
                start = i;
                in_word = true;
                assert(s@.subrange(start as int, i + 1) =~= seq![s@[i as int]]);
            }
        }
    }
    assert(s@.take(n as int) =~= s@);
    if in_word {
        let ghost w0 = words.deep_view();
        let word = String::from_str(s.substring_char(start, n));
        words.push(word);
        assert(words.deep_view() =~= w0.push(s@.subrange(start as int, n as int)));
    }
    words
}

/// The pieces joined with `sep` between each two.
pub open spec fn join_with(parts: Seq<Seq<char>>, sep: Seq<char>) -> Seq<char>
    decreases parts.len(),
{
    if parts.len() == 0 {
        Seq::<char>::empty()
    } else if parts.len() == 1 {
        parts[0]
    } else {
        join_with(parts.drop_last(), sep) + sep + parts.last()
    }
}

/// `[String]::join`: the pieces `parts[from..to]` joined with `sep`.
pub fn join_range(parts: &Vec<String>, from: usize, to: usize, sep: &str) -> (s: String)
    requires
        from <= to <= parts@.len(),
    ensures
        s@ == join_with(parts.deep_view().subrange(from as int, to as int), sep@),
{
    let mut s = String::new();
    let ghost all = parts.deep_view();
    for i in from..to
        invariant
            from <= to <= parts@.len(),
            all == parts.deep_view(),
            s@ == join_with(all.subrange(from as int, i as int), sep@),
    {
        let ghost prev = all.subrange(from as int, i as int);
        assert(all.subrange(from as int, i + 1).drop_last() =~= prev);
        if i != from {
            s.append(sep);
        } else {
            assert(all.subrange(from as int, i + 1) =~= seq![all[i as int]]);
        }
        s.append(parts[i].as_str());
    }
    s
}

proof fn lemma_join_push(parts: Seq<Seq<char>>, last: Seq<char>, sep: Seq<char>)
    requires
        parts.len() >= 1,
    ensures
        join_with(parts.push(last), sep) == join_with(parts, sep) + sep + last,
{
    assert(parts.push(last).drop_last() =~= parts);
}

proof fn lemma_join_extend_last(parts: Seq<Seq<char>>, c: char, sep: Seq<char>)
    requires
        parts.len() >= 1,
    ensures
        join_with(parts.update(parts.len() - 1, parts.last().push(c)), sep) == join_with(parts, sep).push(
            c,
        ),
{
    let updated = parts.update(parts.len() - 1, parts.last().push(c));
    if parts.len() == 1 {
    } else {
        assert(updated.drop_last() =~= parts.drop_last());
        assert((join_with(parts.drop_last(), sep) + sep + parts.last()).push(c) =~= join_with(
            parts.drop_last(),
            sep,
        ) + sep + parts.last().push(c));
    }
}

/// Splitting at a character and joining the pieces with it gives the text
/// back: the words of a line, joined with single spaces, are the line.
pub proof fn lemma_join_split(s: Seq<char>, c: char)
    ensures
        join_with(split_on_char(s, c), seq![c]) == s,
    decreases s.len(),
{
    if s.len() == 0 {
        assert(join_with(seq![Seq::<char>::empty()], seq![c]) == Seq::<char>::empty());
    } else {
        let rest = split_on_char(s.drop_last(), c);
        lemma_split_on_char_len(s.drop_last(), c);
        lemma_join_split(s.drop_last(), c);
        if s.last() == c {
            lemma_join_push(rest, Seq::empty(), seq![c]);
            assert(s.drop_last() + seq![c] + Seq::<char>::empty() =~= s);
        } else {
            lemma_join_extend_last(rest, s.last(), seq![c]);
            assert(s.drop_last().push(s.last()) =~= s);
        }
    }
}

proof fn lemma_join_append(a: Seq<Seq<char>>, b: Seq<Seq<char>>, sep: Seq<char>)
    requires
        a.len() >= 1,
        b.len() >= 1,
    ensures
        join_with(a + b, sep) == join_with(a, sep) + sep + join_with(b, sep),
    decreases b.len(),
{
    if b.len() == 1 {
        assert((a + b).drop_last() =~= a);
        assert((a + b).last() == b[0]);
    } else {
        let rest = b.drop_last();
        lemma_join_append(a, rest, sep);
        assert((a + b).drop_last() =~= a + rest);
        assert((a + b).last() == b.last());
        assert(join_with(a, sep) + sep + join_with(rest, sep) + sep + b.last() =~= join_with(a, sep) + sep
            + (join_with(rest, sep) + sep + b.last()));
    }
}

/// A line split at a character, cut after its first `k` pieces: the pieces
/// before, joined with the character, then the character, then the pieces
/// after, joined with it, give the line back. What a command of the text
/// interface is handed after its words is the rest of the line as typed.
pub proof fn lemma_split_rest(s: Seq<char>, c: char, k: int)
    requires
        1 <= k < split_on_char(s, c).len(),
    ensures
        join_with(split_on_char(s, c).take(k), seq![c]) + seq![c] + join_with(
            split_on_char(s, c).skip(k),
            seq![c],
        ) == s,
{
    let parts = split_on_char(s, c);
    lemma_join_append(parts.take(k), parts.skip(k), seq![c]);
    assert(parts.take(k) + parts.skip(k) =~= parts);
    lemma_join_split(s, c);
}

} // verus!

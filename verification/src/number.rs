use vstd::prelude::*;
use vstd::string::*;

use crate::text::{decimal, digit_char};

verus! {

/// Why a text is not a number, as `usize`'s `FromStr` tells it.
#[derive(Debug, Clone, Copy, PartialEq, Eq, Structural)]
pub enum NumberProblem {
    Empty,
    InvalidDigit,
    TooLarge,
}

/// Whether `c` is an ASCII decimal digit.
pub open spec fn is_digit(c: char) -> bool {
    '0' <= c && c <= '9'
}

/// The value of a decimal digit.
pub open spec fn digit_value(c: char) -> int {
    c as int - '0' as int
}

/// The digits of a number: the text after a leading '+', where one stands
/// before something; the whole text otherwise.
pub open spec fn unsigned_digits(s: Seq<char>) -> Seq<char> {
    if s.len() > 1 && s[0] == '+' {
        s.subrange(1, s.len() as int)
    } else {
        s
    }
}

/// Reads `digits` from left to right: their value, or the first problem met
/// on the way (a character that is no digit, or a value past `usize::MAX`).
pub open spec fn read_digits(digits: Seq<char>) -> Result<nat, NumberProblem>
    decreases digits.len(),
{
    if digits.len() == 0 {
        Ok(0)
    } else {
        match read_digits(digits.drop_last()) {
            Err(p) => Err(p),
            Ok(v) => if !is_digit(digits.last()) {
                Err(NumberProblem::InvalidDigit)
            } else if v * 10 + digit_value(digits.last()) > usize::MAX {
                Err(NumberProblem::TooLarge)
            } else {
                Ok((v * 10 + digit_value(digits.last())) as nat)
            },
        }
    }
}

/// `s` read as a `usize` in decimal.
pub open spec fn usize_from_text(s: Seq<char>) -> Result<nat, NumberProblem> {
    if s.len() == 0 {
        Err(NumberProblem::Empty)
    } else {
        read_digits(unsigned_digits(s))
    }
}

/// The message a problem is reported with.
pub open spec fn problem_text(p: NumberProblem) -> Seq<char> {
    match p {
        NumberProblem::Empty => "cannot parse integer from empty string"@,
        NumberProblem::InvalidDigit => "invalid digit found in string"@,
        NumberProblem::TooLarge => "number too large to fit in target type"@,
    }
}

/// Reads `s` as a `usize` in decimal, with an optional leading '+'.
pub fn parse_usize(s: &str) -> (r: Result<usize, NumberProblem>)
    ensures
        match usize_from_text(s@) {
            Ok(v) => r == Ok::<usize, NumberProblem>(v as usize),
            Err(p) => r == Err::<usize, NumberProblem>(p),
        },
{
    let n = s.unicode_len();
    if n == 0 {
        return Err(NumberProblem::Empty);
    }
    let start: usize = if n > 1 && s.get_char(0) == '+' { 1 } else { 0 };
    let ghost digits = unsigned_digits(s@);
    assert(digits =~= s@.subrange(start as int, n as int));
    let mut value: usize = 0;
    let mut i: usize = start;
    assert(digits.take(0) =~= Seq::<char>::empty());
    while i < n
        invariant
            n == s@.len(),
            start <= i <= n,
            digits == s@.subrange(start as int, n as int),
            digits == unsigned_digits(s@),
            read_digits(digits.take(i - start)) == Ok::<nat, NumberProblem>(value as nat),
        decreases n - i,
    {
        let c = s.get_char(i);
        let ghost prefix = digits.take(i + 1 - start);
        assert(prefix.drop_last() =~= digits.take(i - start));
        assert(prefix.last() == c);
        if c < '0' || c > '9' {
            proof {
                assert(read_digits(prefix) == Err::<nat, NumberProblem>(NumberProblem::InvalidDigit));
                lemma_read_digits_stops(digits, (i + 1 - start) as int);
            }
            return Err(NumberProblem::InvalidDigit);
        }
        let d: usize = digit_of(c);
        if value > (usize::MAX - d) / 10 {
            proof {
                assert(value * 10 + d > usize::MAX) by (nonlinear_arith)
                    requires
                        value > (usize::MAX - d) / 10,
                        d <= 9,
                ;
                assert(read_digits(prefix) == Err::<nat, NumberProblem>(NumberProblem::TooLarge));
                lemma_read_digits_stops(digits, (i + 1 - start) as int);
            }
            return Err(NumberProblem::TooLarge);
        }
        assert(value * 10 + d <= usize::MAX) by (nonlinear_arith)
            requires
                value <= (usize::MAX - d) / 10,
                d <= 9,
        ;
        value = value * 10 + d;
        i = i + 1;
        assert(read_digits(prefix) == Ok::<nat, NumberProblem>(value as nat));
    }
    assert(digits.take(n - start) =~= digits);
    Ok(value)
}

/// The value of a decimal digit.
fn digit_of(c: char) -> (d: usize)
    requires
        is_digit(c),
    ensures
        d == digit_value(c),
        d <= 9,
{
    if c == '0' {
        0
    } else if c == '1' {
        1
    } else if c == '2' {
        2
    } else if c == '3' {
        3
    } else if c == '4' {
        4
    } else if c == '5' {
        5
    } else if c == '6' {
        6
    } else if c == '7' {
        7
    } else if c == '8' {
        8
    } else {
        9
    }
}

/// Once reading a prefix of the digits has failed, reading them all fails
/// in the same way.
proof fn lemma_read_digits_stops(digits: Seq<char>, k: int)
    requires
        0 <= k <= digits.len(),
        read_digits(digits.take(k)) is Err,
    ensures
        read_digits(digits) == read_digits(digits.take(k)),
    decreases digits.len() - k,
{
    if k < digits.len() {
        let next = digits.take(k + 1);
        assert(next.drop_last() =~= digits.take(k));
        lemma_read_digits_stops(digits, k + 1);
    } else {
        assert(digits.take(k) =~= digits);
    }
}

/// The message a problem is reported with.
pub fn problem_message(p: NumberProblem) -> (s: &'static str)
    ensures
        s@ == problem_text(p),
{
    match p {
        NumberProblem::Empty => "cannot parse integer from empty string",
        NumberProblem::InvalidDigit => "invalid digit found in string",
        NumberProblem::TooLarge => "number too large to fit in target type",
    }
}

proof fn lemma_digit_char(d: nat)
    requires
        d < 10,
    ensures
        is_digit(digit_char(d)),
        digit_value(digit_char(d)) == d,
{
}

proof fn lemma_read_decimal(n: nat)
    requires
        n <= usize::MAX,
    ensures
        read_digits(decimal(n)) == Ok::<nat, NumberProblem>(n),
        decimal(n).len() >= 1,
        is_digit(decimal(n)[0]),
    decreases n,
{
    if n < 10 {
        lemma_digit_char(n);
        let d = decimal(n);
        assert(d.drop_last() =~= Seq::<char>::empty());
        assert(d.last() == digit_char(n));
        assert(read_digits(d.drop_last()) == Ok::<nat, NumberProblem>(0));
    } else {
        lemma_read_decimal(n / 10);
        lemma_digit_char(n % 10);
        let d = decimal(n);
        assert(d.drop_last() =~= decimal(n / 10));
        assert(d.last() == digit_char(n % 10));
        assert((n / 10) * 10 + n % 10 == n) by (nonlinear_arith);
        assert(read_digits(d) == Ok::<nat, NumberProblem>(((n / 10) * 10 + digit_value(d.last())) as nat));
    }
}

/// Reading back what `usize`'s `Display` writes gives the number: the
/// positions the text interface lists songs with are the ones it reads.
pub proof fn lemma_parse_decimal(n: nat)
    requires
        n <= usize::MAX,
    ensures
        usize_from_text(decimal(n)) == Ok::<nat, NumberProblem>(n),
{
    lemma_read_decimal(n);
    assert(decimal(n)[0] != '+');
    assert(unsigned_digits(decimal(n)) == decimal(n));
}

} // verus!

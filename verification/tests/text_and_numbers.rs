use reverb::failure::{Failure, FailureType};
use reverb::number::{parse_usize, problem_message, NumberProblem};
use reverb::text::{
    format_usize, join_range, split_char, split_spaces,
    split_white, text_equals, trim_nul,
};

fn strings(v: &[&str]) -> Vec<String> {
    v.iter().map(|s| s.to_string()).collect()
}

#[test]
fn split_spaces_keeps_empty_pieces() {
    assert_eq!(split_spaces("a  b"), strings(&["a", "", "b"]));
    assert_eq!(split_spaces(""), strings(&[""]));
    assert_eq!(split_spaces(" x "), strings(&["", "x", ""]));
}

#[test]
fn split_spaces_agrees_with_str_split() {
    for s in ["play", "queue add local a b.mp3", "  ", "a b  c", "é ü"] {
        let expected: Vec<String> = s.split(' ').map(|p| p.to_string()).collect();
        assert_eq!(split_spaces(s), expected);
    }
}

#[test]
fn split_char_on_newlines() {
    assert_eq!(split_char("a\nb\n", '\n'), strings(&["a", "b", ""]));
}

#[test]
fn split_white_agrees_with_split_whitespace() {
    for s in ["  hello \t world\n", "", "   ", "one", "a\u{3000}b\u{a0}c"] {
        let expected: Vec<String> = s.split_whitespace().map(|p| p.to_string()).collect();
        assert_eq!(split_white(s), expected);
    }
}

#[test]
fn join_range_joins_a_slice() {
    let parts = strings(&["q", "add", "local", "a.mp3"]);
    assert_eq!(join_range(&parts, 2, 4, " "), "local a.mp3");
    assert_eq!(join_range(&parts, 1, 1, " "), "");
    assert_eq!(join_range(&parts, 0, 4, " | "), "q | add | local | a.mp3");
}

#[test]
fn join_of_split_gives_the_line_back() {
    for s in ["a  b", "", " lead", "trail ", "x"] {
        let parts = split_spaces(s);
        assert_eq!(join_range(&parts, 0, parts.len(), " "), s);
    }
}

#[test]
fn trim_nul_trims_both_ends_only() {
    assert_eq!(trim_nul("\0\0ab\0c\0"), "ab\0c");
    assert_eq!(trim_nul("\0\0"), "");
}

#[test]
fn format_usize_writes_decimal() {
    assert_eq!(format_usize(0), "0");
    assert_eq!(format_usize(1234), "1234");
    assert_eq!(format_usize(usize::MAX), usize::MAX.to_string());
}

#[test]
fn text_equals_compares_characters() {
    assert!(text_equals("help", "help"));
    assert!(!text_equals("help", "hel"));
    assert!(!text_equals("a", "b"));
}

#[test]
fn parse_usize_reads_numbers() {
    assert_eq!(parse_usize("42"), Ok(42));
    assert_eq!(parse_usize("+7"), Ok(7));
    assert_eq!(parse_usize("007"), Ok(7));
    assert_eq!(parse_usize(""), Err(NumberProblem::Empty));
    assert_eq!(parse_usize("+"), Err(NumberProblem::InvalidDigit));
    assert_eq!(parse_usize("-1"), Err(NumberProblem::InvalidDigit));
    assert_eq!(parse_usize("12a"), Err(NumberProblem::InvalidDigit));
    assert_eq!(parse_usize(" 1"), Err(NumberProblem::InvalidDigit));
}

#[test]
fn parse_usize_refuses_too_large() {
    let too_large = format!("{}0", usize::MAX);
    assert_eq!(parse_usize(&too_large), Err(NumberProblem::TooLarge));
    assert_eq!(parse_usize(&usize::MAX.to_string()), Ok(usize::MAX));
}

#[test]
fn parse_usize_agrees_with_std() {
    let inputs = [
        "0", "9", "+12", "", "+", "-", "-0", "1_000", "12 ", "ab", "99999999999999999999x",
        "99999999999999999999", "x99999999999999999999", "18446744073709551615",
        "18446744073709551616", "4294967296",
    ];
    for s in inputs {
        let ours = parse_usize(s);
        let theirs = s.parse::<usize>();
        match (ours, theirs) {
            (Ok(a), Ok(b)) => assert_eq!(a, b, "{}", s),
            (Err(p), Err(e)) => assert_eq!(problem_message(p), e.to_string(), "{}", s),
            (a, b) => panic!("{}: {:?} vs {:?}", s, a, b),
        }
    }
}

#[test]
fn parse_of_format_gives_the_number_back() {
    for n in [0usize, 1, 10, 99, 65536, usize::MAX] {
        assert_eq!(parse_usize(&format_usize(n)), Ok(n));
    }
}

#[test]
fn failure_display_text() {
    let w = Failure::new("bad".to_string(), FailureType::Warning);
    assert_eq!(w.to_display_string(), "Warning: bad: ");
    let f = Failure::with_context("disk".to_string(), "saving", FailureType::Fatal);
    assert_eq!(f.to_display_string(), "Fatal error: disk: saving");
    assert_eq!(f.failure_type(), FailureType::Fatal);
    assert_eq!(w.error_message(), "bad");
}

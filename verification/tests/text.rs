use spot::text::case::eq_ignoring_case;
use spot::text::chars::{chars_of, same_text};
use spot::text::number::{decimal_text, parse_integer, signed_decimal_text};
use spot::text::order::{rank, Rank};
use spot::text::parts::{first_piece_text, join_first, join_text, pieces_text};
use spot::text::space::{is_blank, trim_text};

fn strings(list: &[&str]) -> Vec<String> {
    list.iter().map(|s| s.to_string()).collect()
}

#[test]
fn chars_are_unicode_scalars() {
    assert_eq!(chars_of("a•é"), vec!['a', '•', 'é']);
    assert!(chars_of("").is_empty());
}

#[test]
fn decimal_writes_base_ten() {
    assert_eq!(decimal_text(0), "0");
    assert_eq!(decimal_text(7), "7");
    assert_eq!(decimal_text(10), "10");
    assert_eq!(decimal_text(1994), "1994");
    assert_eq!(decimal_text(1000000), "1000000");
    assert_eq!(decimal_text(u64::MAX), "18446744073709551615");
    for n in [9u64, 99, 100, 101, 12345678901234567] {
        assert_eq!(decimal_text(n), n.to_string());
    }
}

#[test]
fn signed_decimal_writes_the_sign() {
    assert_eq!(signed_decimal_text(0), "0");
    assert_eq!(signed_decimal_text(-1), "-1");
    assert_eq!(signed_decimal_text(42), "42");
    assert_eq!(signed_decimal_text(i64::MAX), "9223372036854775807");
    assert_eq!(signed_decimal_text(i64::MIN), "-9223372036854775808");
}

#[test]
fn join_puts_the_separator_between_neighbours() {
    let parts = strings(&["A", "B", "C"]);
    assert_eq!(join_text(&parts, ", "), "A, B, C");
    assert_eq!(join_text(&strings(&["A"]), ", "), "A");
    assert_eq!(join_text(&Vec::new(), ", "), "");
    assert_eq!(join_text(&strings(&["", ""]), "-"), "-");
    assert_eq!(join_text(&parts, ""), "ABC");
    assert_eq!(join_text(&parts, ", "), parts.join(", "));
}

#[test]
fn join_first_stops_after_the_count() {
    let parts = strings(&["A", "B", "C"]);
    assert_eq!(join_first(&parts, 3, ", "), "A, B, C");
    assert_eq!(join_first(&parts, 2, ", "), "A, B");
    assert_eq!(join_first(&parts, 1, ", "), "A");
    assert_eq!(join_first(&parts, 0, ", "), "");
    assert_eq!(join_first(&parts, 4, ", "), "A, B, C");
    assert_eq!(join_first(&parts, usize::MAX, ", "), "A, B, C");
}

#[test]
fn pieces_are_cut_at_each_separator() {
    assert_eq!(pieces_text("a|||b|||c", "|||"), strings(&["a", "b", "c"]));
    assert_eq!(pieces_text("abc", "|||"), strings(&["abc"]));
    assert_eq!(pieces_text("", "|||"), strings(&[""]));
    assert_eq!(pieces_text("|||", "|||"), strings(&["", ""]));
    assert_eq!(pieces_text("a||||b", "|||"), strings(&["a", "|b"]));
    assert_eq!(pieces_text("||||||", "|||"), strings(&["", "", ""]));
    assert_eq!(pieces_text("1994-03-01", "-"), strings(&["1994", "03", "01"]));
    assert_eq!(pieces_text("é•é", "•"), strings(&["é", "é"]));
}

#[test]
fn pieces_agree_with_the_standard_split() {
    for (text, sep) in [
        ("a|||b", "|||"),
        ("|||||||", "|||"),
        ("aaaa", "aa"),
        ("aaa", "aa"),
        ("abcabc", "bc"),
        ("-", "-"),
        ("--", "-"),
        ("x", "xyz"),
    ] {
        let expected: Vec<String> = text.split(sep).map(|p| p.to_string()).collect();
        assert_eq!(pieces_text(text, sep), expected);
    }
}

#[test]
fn empty_separator_cuts_nothing() {
    assert_eq!(pieces_text("abc", ""), strings(&["abc"]));
    assert_eq!(pieces_text("", ""), strings(&[""]));
}

#[test]
fn first_piece_is_what_stands_before_the_separator() {
    assert_eq!(first_piece_text("1994-03-01", "-"), "1994");
    assert_eq!(first_piece_text("1994", "-"), "1994");
    assert_eq!(first_piece_text("-1994", "-"), "");
    assert_eq!(first_piece_text("", "-"), "");
}

#[test]
fn case_is_ignored_by_unicode_rules() {
    assert!(eq_ignoring_case("ABC", "abc"));
    assert!(eq_ignoring_case("Radiohead", "rADIOHEAD"));
    assert!(eq_ignoring_case("ÄÖÜ", "äöü"));
    assert!(eq_ignoring_case("", ""));
    assert!(!eq_ignoring_case("abc", "abd"));
    assert!(!eq_ignoring_case("abc", "abc "));
    assert!(!eq_ignoring_case("a", ""));
}

#[test]
fn blank_texts_hold_only_whitespace() {
    assert!(is_blank(""));
    assert!(is_blank(" "));
    assert!(is_blank("\t\r\n "));
    assert!(is_blank("\u{3000}"));
    assert!(!is_blank("a"));
    assert!(!is_blank("  a  "));
    assert!(!is_blank("_"));
    assert!(!is_blank("\u{200b}"));
}

#[test]
fn same_text_compares_characters() {
    assert!(same_text("", ""));
    assert!(same_text("true", "true"));
    assert!(!same_text("true", "True"));
    assert!(!same_text("true", "tru"));
    assert!(!same_text("a", "b"));
}

#[test]
fn integers_are_read_within_bounds() {
    assert_eq!(parse_integer("0", -10, 10), Some(0));
    assert_eq!(parse_integer("10", -10, 10), Some(10));
    assert_eq!(parse_integer("-10", -10, 10), Some(-10));
    assert_eq!(parse_integer("11", -10, 10), None);
    assert_eq!(parse_integer("-11", -10, 10), None);
    assert_eq!(parse_integer("+7", -10, 10), Some(7));
    assert_eq!(parse_integer("0000000000000000000000007", -10, 10), Some(7));
    assert_eq!(parse_integer("5", 0, 0), None);
    assert_eq!(parse_integer("5", 6, 9), None);
    assert_eq!(parse_integer("7", 6, 9), Some(7));
    assert_eq!(parse_integer("-7", -9, -6), Some(-7));
    assert_eq!(parse_integer("-5", -9, -6), None);
    assert_eq!(parse_integer("3", 5, 1), None);
    assert_eq!(parse_integer("-0", 0, 0), Some(0));
    assert_eq!(parse_integer("9223372036854775807", i64::MIN, i64::MAX), Some(i64::MAX));
    assert_eq!(parse_integer("-9223372036854775808", i64::MIN, i64::MAX), Some(i64::MIN));
    assert_eq!(parse_integer("9223372036854775808", i64::MIN, i64::MAX), None);
    assert_eq!(parse_integer("-9223372036854775809", i64::MIN, i64::MAX), None);
}

#[test]
fn integers_must_be_digits_only() {
    for bad in ["", "+", "-", "1 ", " 1", "1_000", "0x10", "1e3", "١٢٣", "1.0", "+-1", "4２"] {
        assert_eq!(parse_integer(bad, i64::MIN, i64::MAX), None);
        assert!(bad.parse::<i64>().is_err());
    }
}

#[test]
fn written_integers_are_read_back() {
    for n in [0i64, 1, -1, 9, 10, -10, 65535, -65536, i64::MAX, i64::MIN] {
        assert_eq!(parse_integer(&signed_decimal_text(n), i64::MIN, i64::MAX), Some(n));
    }
}

#[test]
fn trim_takes_whitespace_off_both_ends() {
    assert_eq!(trim_text("  abc  "), "abc");
    assert_eq!(trim_text("abc"), "abc");
    assert_eq!(trim_text("\ta b\n"), "a b");
    assert_eq!(trim_text("   "), "");
    assert_eq!(trim_text(""), "");
    assert_eq!(trim_text("\u{a0}x\u{2003}"), "x");
    for text in [" a ", "a  b ", "\n", " é• "] {
        assert_eq!(trim_text(text), text.trim());
    }
}

#[test]
fn texts_are_ranked_by_their_first_difference() {
    assert_eq!(rank("a", "b"), Rank::Before);
    assert_eq!(rank("b", "a"), Rank::After);
    assert_eq!(rank("abc", "abc"), Rank::Same);
    assert_eq!(rank("", ""), Rank::Same);
    assert_eq!(rank("", "a"), Rank::Before);
    assert_eq!(rank("ab", "abc"), Rank::Before);
    assert_eq!(rank("abd", "abc"), Rank::After);
    assert_eq!(rank("B", "a"), Rank::Before);
    assert_eq!(rank("z", "é"), Rank::Before);
    for (a, b) in [("a", "b"), ("ab", "a"), ("é", "e"), ("", ""), ("Z", "a"), ("\u{10000}", "\u{ffff}")] {
        let expected = if a < b {
            Rank::Before
        } else if a == b {
            Rank::Same
        } else {
            Rank::After
        };
        assert_eq!(rank(a, b), expected);
    }
}

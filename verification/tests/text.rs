//! Text.
use zeroclaw::text::chars;
use zeroclaw::text::decimal;
use zeroclaw::text::order;
use zeroclaw::text::words;

#[test]
fn white_space_is_that_of_rust() {
    for n in 0..=0x10ffffu32 {
        if let Some(c) = char::from_u32(n) {
            assert_eq!(chars::white_space(c), c.is_whitespace(), "{n:x}");
        }
    }
}

#[test]
fn trims_as_rust_does() {
    for text in ["", " ", "a", " a b ", "\u{2003}ä\u{3000}\n", "\u{200b}x", "no trim"] {
        assert_eq!(chars::trim(text), text.trim());
        assert_eq!(chars::trim(chars::trim(text)), chars::trim(text));
    }
}

#[test]
fn compares_ignoring_ascii_case() {
    for (a, b) in [("ABC", "abc"), ("É", "é"), ("a", "b"), ("", ""), ("ab", "abc"), ("[", "{")] {
        assert_eq!(chars::same_ignoring_ascii_case(a, b), a.eq_ignore_ascii_case(b));
        assert_eq!(chars::same_text(a, b), a == b);
    }
}

#[test]
fn finds_first_and_last_by_character() {
    assert_eq!(chars::find("äbäb", 'b'), Some(1));
    assert_eq!(chars::find_last("äbäb", 'b'), Some(3));
    assert_eq!(chars::find("a", 'b'), None);
    assert_eq!(chars::find_last("", 'b'), None);
}

#[test]
fn strips_and_cuts() {
    assert_eq!(chars::strip_prefix("abc", "ab"), Some("c"));
    assert_eq!(chars::strip_prefix("abc", "b"), None);
    assert_eq!(chars::strip_suffix("abc", "bc"), Some("a"));
    assert_eq!(chars::strip_suffix("c", "bc"), None);
    assert_eq!(chars::keep_first("äöü", 2), "äö");
    assert_eq!(chars::keep_first("äöü", 4), "äöü");
    assert_eq!(chars::keep_first("äöü", 0), "");
}

#[test]
fn numerals_are_those_of_rust() {
    for n in [0, 7, 10, 99, 100, 1234567890, u64::MAX] {
        assert_eq!(decimal::numeral(n), n.to_string());
    }
    assert_eq!(decimal::parse_u32("4294967295"), Some(u32::MAX));
    assert_eq!(decimal::parse_u32("4294967296"), None);
}

#[test]
fn orders_texts_as_rust_does() {
    let all = ["", "A", "Sent", "Sent Messages", "INBOX", "a", "ä", "\u{ffff}", "\u{10000}"];
    for a in all {
        for b in all {
            assert_eq!(order::text_at_or_before(a, b), a <= b, "{a:?} {b:?}");
        }
    }
}

#[test]
fn collapses_white_space() {
    for text in ["", "  ", "a", " a  b\n\tc ", "ä\u{3000}ö", "<p>x</p>\r\n<p>y</p>"] {
        let expected = text.split_whitespace().collect::<Vec<_>>().join(" ");
        assert_eq!(words::single_spaced(text), expected);
    }
}

#[test]
fn joins_texts() {
    assert_eq!(words::join(&vec![], ","), "");
    assert_eq!(words::join(&vec!["a".to_string()], ","), "a");
    assert_eq!(words::join(&vec!["a".to_string(), "b".to_string(), String::new()], ", "), "a, b, ");
}

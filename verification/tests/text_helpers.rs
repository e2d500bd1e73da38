use key_usage::text::{chars_of, equals_ignore_ascii_case, is_whitespace, same_text, text_less, to_ascii_lower, trim};

#[test]
fn trimming_matches_str_trim() {
    for s in ["", "  ", " a ", "\u{3000}x\u{2028}", "\u{85}a b\u{a0}", "a", "\t\n\r\u{b}\u{c}z\u{200a}"] {
        assert_eq!(trim(s), s.trim(), "{s:?}");
    }
}

#[test]
fn whitespace_matches_char_is_whitespace() {
    for u in 0u32..0x3100 {
        if let Some(c) = char::from_u32(u) {
            assert_eq!(is_whitespace(c), c.is_whitespace(), "{u:#x}");
        }
    }
}

#[test]
fn ascii_case_insensitive_equality() {
    assert!(equals_ignore_ascii_case("USD", "usd"));
    assert!(equals_ignore_ascii_case("uSd", "UsD"));
    assert!(!equals_ignore_ascii_case("USD", "US"));
    assert!(!equals_ignore_ascii_case("É", "é"));
    assert_eq!(to_ascii_lower('Q'), 'q');
    assert_eq!(to_ascii_lower('é'), 'é');
}

#[test]
fn string_order_matches_string_ord() {
    let words = ["", "a", "aa", "ab", "b", "Z", "é", "黑", "a\u{0}"];
    for a in words {
        for b in words {
            assert_eq!(text_less(a, b), a < b, "{a:?} {b:?}");
        }
        assert!(same_text(a, a));
    }
    assert!(!same_text("a", "b"));
    assert_eq!(chars_of("黑风"), vec!['黑', '风']);
}

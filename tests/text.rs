use brew_steps::text::{
    chars_of, is_blank_str, is_whitespace, join_newlines_str, split_newlines_str, trim, trim_end,
};

#[test]
fn whitespace_matches_std() {
    for c in ['\t', '\n', '\u{b}', '\u{c}', '\r', ' ', '\u{85}', '\u{a0}', '\u{1680}', '\u{2000}',
        '\u{200a}', '\u{2028}', '\u{2029}', '\u{202f}', '\u{205f}', '\u{3000}', 'a', '\u{200b}',
        '\u{feff}', '0', '\u{1f}']
    {
        assert_eq!(is_whitespace(c), c.is_whitespace(), "{:?}", c);
    }
}

#[test]
fn trim_matches_std() {
    for s in ["", "   ", "  a b  ", "\u{3000}x\u{a0}", "héllo\r\n", "\tz"] {
        assert_eq!(trim(s), s.trim());
        assert_eq!(trim_end(s), s.trim_end());
        assert_eq!(is_blank_str(s), s.trim().is_empty());
    }
}

#[test]
fn chars_round_trip() {
    assert_eq!(chars_of("aé😀"), vec!['a', 'é', '😀']);
    assert_eq!(chars_of(""), Vec::<char>::new());
}

#[test]
fn split_keeps_every_piece() {
    assert_eq!(split_newlines_str(""), vec![String::new()]);
    assert_eq!(split_newlines_str("a\nb\n"), vec!["a".to_string(), "b".to_string(), String::new()]);
    assert_eq!(split_newlines_str("\n"), vec![String::new(), String::new()]);
    assert_eq!(split_newlines_str("x\r\ny"), vec!["x\r".to_string(), "y".to_string()]);
}

#[test]
fn join_puts_newline_between_neighbours() {
    assert_eq!(join_newlines_str(&vec![]), "");
    assert_eq!(join_newlines_str(&vec!["a".to_string()]), "a");
    assert_eq!(
        join_newlines_str(&vec!["a".to_string(), String::new(), "c".to_string()]),
        "a\n\nc"
    );
}

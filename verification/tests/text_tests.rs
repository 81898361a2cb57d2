use pulsecore::text::{
    append_str, chars_of, is_whitespace_char, render_i64, render_u64, split_lines, split_once,
    strip_prefix, trim,
};

fn s(v: Vec<char>) -> String {
    v.into_iter().collect()
}

fn lines(text: &str) -> Vec<String> {
    split_lines(&chars_of(text)).into_iter().map(s).collect()
}

#[test]
fn chars_of_keeps_every_character_in_order() {
    assert_eq!(chars_of("a=b"), vec!['a', '=', 'b']);
    assert_eq!(chars_of(""), Vec::<char>::new());
    assert_eq!(chars_of("né\u{1F600}"), vec!['n', 'é', '\u{1F600}']);
}

#[test]
fn whitespace_is_what_unicode_calls_white_space() {
    for c in ['\t', '\n', '\u{0B}', '\u{0C}', '\r', ' ', '\u{85}', '\u{A0}', '\u{1680}', '\u{2000}', '\u{200A}', '\u{2028}', '\u{2029}', '\u{202F}', '\u{205F}', '\u{3000}'] {
        assert!(is_whitespace_char(c));
    }
    for c in ['a', '0', '=', '\u{08}', '\u{0E}', '\u{1F}', '\u{200B}', '\u{180E}', '\u{FEFF}', '\u{2060}'] {
        assert!(!is_whitespace_char(c));
    }
    // the same answer as the standard library, for every character
    let mut c = '\0';
    loop {
        assert_eq!(is_whitespace_char(c), c.is_whitespace());
        if c == char::MAX {
            break;
        }
        c = char::from_u32(c as u32 + 1).unwrap_or('\u{E000}');
    }
}

#[test]
fn trim_removes_whitespace_at_both_ends_only() {
    assert_eq!(s(trim(&chars_of("  a b \t\r\n"))), "a b");
    assert_eq!(s(trim(&chars_of("\u{3000}x\u{A0}"))), "x");
    assert_eq!(s(trim(&chars_of("x"))), "x");
    assert_eq!(s(trim(&chars_of(" \t "))), "");
    assert_eq!(s(trim(&chars_of(""))), "");
    for t in ["", " ", "a", " a", "a ", " a b  ", "\n\nx\n", "\u{2003}é \u{85}"] {
        assert_eq!(s(trim(&chars_of(t))), t.trim());
    }
}

#[test]
fn lines_end_at_line_feeds() {
    assert_eq!(lines(""), Vec::<String>::new());
    assert_eq!(lines("a"), vec!["a"]);
    assert_eq!(lines("a\n"), vec!["a"]);
    assert_eq!(lines("a\nb"), vec!["a", "b"]);
    assert_eq!(lines("a\r\nb\r\n"), vec!["a", "b"]);
    assert_eq!(lines("\n"), vec![""]);
    assert_eq!(lines("\n\n"), vec!["", ""]);
    assert_eq!(lines("a\n\nb"), vec!["a", "", "b"]);
    // a carriage return counts only directly before a line feed
    assert_eq!(lines("a\rb\n"), vec!["a\rb"]);
    assert_eq!(lines("a\r"), vec!["a\r"]);
    assert_eq!(lines("a\r\r\n"), vec!["a\r"]);
    for t in ["", "x", "x\n", "\r\n", "a\r\n\r\nb", "one\ntwo\r\nthree\r", "\n\r\n\r"] {
        let expected: Vec<String> = t.lines().map(|l| l.to_string()).collect();
        assert_eq!(lines(t), expected);
    }
}

#[test]
fn split_once_cuts_at_the_first_separator() {
    let parts = split_once(&chars_of("Name=a=b"), '=').unwrap();
    assert_eq!((s(parts.0), s(parts.1)), ("Name".to_string(), "a=b".to_string()));
    let parts = split_once(&chars_of("="), '=').unwrap();
    assert_eq!((s(parts.0), s(parts.1)), (String::new(), String::new()));
    assert!(split_once(&chars_of("no separator"), '=').is_none());
    assert!(split_once(&chars_of(""), '=').is_none());
}

#[test]
fn strip_prefix_gives_what_follows_the_prefix() {
    let key = chars_of("Model=");
    assert_eq!(strip_prefix(&chars_of("Model=X1"), &key).map(s), Some("X1".to_string()));
    assert_eq!(strip_prefix(&chars_of("Model="), &key).map(s), Some(String::new()));
    assert_eq!(strip_prefix(&chars_of("Model"), &key).map(s), None);
    assert_eq!(strip_prefix(&chars_of("model=X1"), &key).map(s), None);
    assert_eq!(strip_prefix(&chars_of(" Model=X1"), &key).map(s), None);
    assert_eq!(strip_prefix(&chars_of("abc"), &chars_of("")).map(s), Some("abc".to_string()));
}

#[test]
fn integers_are_written_in_base_ten() {
    for n in [0u64, 1, 9, 10, 11, 99, 100, 12_345, 1_000_000, u64::MAX] {
        assert_eq!(s(render_u64(n)), n.to_string());
    }
    for n in [0i64, 1, -1, 10, -10, 15_000, i64::MAX, i64::MIN] {
        assert_eq!(s(render_i64(n)), n.to_string());
    }
}

#[test]
fn append_str_adds_at_the_end() {
    let mut out = chars_of("SELECT 1");
    append_str(&mut out, " WHERE x");
    append_str(&mut out, "");
    assert_eq!(s(out), "SELECT 1 WHERE x");
}

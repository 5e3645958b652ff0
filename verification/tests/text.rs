use this_env::text::{
    contains_text, ends_with, eq_ignore_ascii_case, join, last_index_of, parse_usize, same_text,
    starts_with, trim_end_matches,
};

#[test]
fn parse_usize_agrees_with_std() {
    for s in [
        "0", "42", "+7", "007", "", "+", "-1", "-0", "1a", " 1", "1 ", "++1", "18446744073709551615",
        "18446744073709551616", "99999999999999999999999", "٣",
    ] {
        assert_eq!(parse_usize(s), s.parse::<usize>().ok(), "text {:?}", s);
    }
}

#[test]
fn parse_usize_values() {
    assert_eq!(parse_usize("50"), Some(50));
    assert_eq!(parse_usize("+0010"), Some(10));
    assert_eq!(parse_usize("ten"), None);
    assert_eq!(parse_usize(&usize::MAX.to_string()), Some(usize::MAX));
}

#[test]
fn ascii_case_comparison_agrees_with_std() {
    for (a, b) in [
        ("websocket", "WebSocket"),
        ("WEBSOCKET", "websocket"),
        ("websockets", "websocket"),
        ("wébsocket", "websocket"),
        ("", ""),
        ("É", "é"),
    ] {
        assert_eq!(eq_ignore_ascii_case(a, b), a.eq_ignore_ascii_case(b), "{:?} {:?}", a, b);
    }
}

#[test]
fn trimming_agrees_with_std() {
    for (s, p) in [("a.b.c", ".b.c"), ("x.b.c.b.c", ".b.c"), ("abc", "z"), ("", "."), ("....", ".."), ("abc", ""), ("", "")] {
        assert_eq!(trim_end_matches(s, p), s.trim_end_matches(p), "{:?} {:?}", s, p);
    }
}

#[test]
fn joining_agrees_with_std() {
    let cases: Vec<Vec<String>> = vec![
        vec![],
        vec!["one".to_string()],
        vec!["a".to_string(), "b".to_string(), "c".to_string()],
        vec!["".to_string(), "".to_string()],
    ];
    for parts in cases {
        assert_eq!(join(&parts, " "), parts.join(" "));
        assert_eq!(join(&parts, ", "), parts.join(", "));
    }
}

#[test]
fn containment_agrees_with_std() {
    for (s, p) in [
        ("text/html,application/xhtml+xml", "text/html"),
        ("application/json", "text/html"),
        ("", ""),
        ("abc", ""),
        ("ab", "abc"),
        ("aaab", "aab"),
    ] {
        assert_eq!(contains_text(s, p), s.contains(p), "{:?} {:?}", s, p);
    }
}

#[test]
fn prefixes_suffixes_and_equality() {
    assert!(starts_with("localhost:80", "localhost"));
    assert!(!starts_with("local", "localhost"));
    assert!(ends_with("a.example.com", ".example.com"));
    assert!(!ends_with("com", ".com"));
    assert!(same_text("héllo", "héllo"));
    assert!(!same_text("hello", "hellö"));
}

#[test]
fn last_index_positions() {
    assert_eq!(last_index_of("a.b.c", '.', 5), Some(3));
    assert_eq!(last_index_of("a.b.c", '.', 3), Some(1));
    assert_eq!(last_index_of("a.b.c", '.', 1), None);
    assert_eq!(last_index_of("ñ.b", '.', 3), Some(1));
}

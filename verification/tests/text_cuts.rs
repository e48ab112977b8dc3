use luciuz::text::{
    before_char, blank, chars_of, decimal_text, has_char, has_prefix, join, text_eq, white_space,
    without_prefix, without_trailing,
};

#[test]
fn white_space_is_what_unicode_says() {
    let mut c = 0u32;
    while c <= 0x3100 {
        if let Some(ch) = char::from_u32(c) {
            assert_eq!(white_space(ch), ch.is_whitespace(), "U+{:04X}", c);
        }
        c += 1;
    }
}

#[test]
fn blank_is_empty_after_trimming() {
    for s in ["", " ", "\t\n", "\u{a0}\u{2003}", "a", " a ", "\u{200b}"] {
        assert_eq!(blank(s), s.trim().is_empty(), "{:?}", s);
    }
}

#[test]
fn chars_of_lists_each_character() {
    assert_eq!(chars_of("héllo"), vec!['h', 'é', 'l', 'l', 'o']);
    assert_eq!(chars_of(""), Vec::<char>::new());
}

#[test]
fn text_eq_compares_characters() {
    assert!(text_eq("", ""));
    assert!(text_eq("abc", "abc"));
    assert!(!text_eq("abc", "abd"));
    assert!(!text_eq("abc", "ab"));
}

#[test]
fn has_prefix_is_starts_with() {
    for (s, p) in [("/api/x", "/api"), ("/api", "/api"), ("/ap", "/api"), ("", ""), ("é", "e")] {
        assert_eq!(has_prefix(s, p), s.starts_with(p), "{:?} {:?}", s, p);
    }
}

#[test]
fn without_prefix_is_strip_prefix() {
    assert_eq!(without_prefix("/api/x", "/api"), Some("/x".to_string()));
    assert_eq!(without_prefix("/api", "/api"), Some(String::new()));
    assert_eq!(without_prefix("/ap", "/api"), None);
    assert_eq!(without_prefix("éa", "é"), Some("a".to_string()));
}

#[test]
fn without_trailing_removes_the_whole_run() {
    assert_eq!(without_trailing("/api//", '/'), "/api");
    assert_eq!(without_trailing("/api", '/'), "/api");
    assert_eq!(without_trailing("///", '/'), "");
    assert_eq!(without_trailing("", '/'), "");
    assert_eq!(without_trailing("/a/b/", '/'), "/a/b");
}

#[test]
fn before_char_cuts_at_the_first_occurrence() {
    assert_eq!(before_char("example.org:8443", ':'), "example.org");
    assert_eq!(before_char("example.org", ':'), "example.org");
    assert_eq!(before_char(":80", ':'), "");
    assert_eq!(before_char("a:b:c", ':'), "a");
    assert_eq!(before_char("", ':'), "");
}

#[test]
fn has_char_is_contains() {
    assert!(has_char("a b", ' '));
    assert!(!has_char("ab", ' '));
    assert!(!has_char("", ' '));
}

#[test]
fn join_appends() {
    assert_eq!(join("ab", "cd"), "abcd");
    assert_eq!(join("", ""), "");
}

#[test]
fn decimal_text_is_the_usual_notation() {
    for n in [0u64, 7, 9, 10, 11, 99, 100, 86400, 31536000, u64::MAX] {
        assert_eq!(decimal_text(n), n.to_string());
    }
}

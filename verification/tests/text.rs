use nemoclaw_engine::text::{
    chars_of, contains, decimal_text, join, less_than, path_join, signed_text, trim,
};

#[test]
fn decimal_numbers() {
    assert_eq!(decimal_text(0), "0");
    assert_eq!(decimal_text(18789), "18789");
    assert_eq!(decimal_text(u64::MAX), u64::MAX.to_string());
    assert_eq!(signed_text(-1), "-1");
    assert_eq!(signed_text(i64::MIN), i64::MIN.to_string());
    assert_eq!(signed_text(42), "42");
}

#[test]
fn substring_search() {
    assert!(contains("error: sandbox already exists", "already exists"));
    assert!(!contains("already exist", "already exists"));
    assert!(contains("", ""));
    assert!(contains("abc", ""));
    assert!(!contains("", "a"));
    assert!(contains("aaab", "aab"));
}

#[test]
fn trimming_like_str_trim() {
    for s in ["", "  ", " a ", "\t\nx y\r\n", "\u{3000}z\u{2028}", "\u{85}q\u{a0}", "no"] {
        assert_eq!(trim(s), s.trim());
    }
}

#[test]
fn joining() {
    let parts = vec!["a".to_string(), "b".to_string(), "c".to_string()];
    assert_eq!(join(&parts, ", "), "a, b, c");
    assert_eq!(join(&Vec::new(), ", "), "");
    assert_eq!(join(&vec!["x".to_string()], ", "), "x");
}

#[test]
fn path_joining() {
    assert_eq!(path_join("/a", "b"), "/a/b");
    assert_eq!(path_join("/a/", "b"), "/a/b");
    assert_eq!(path_join("/a", "/b"), "/b");
    assert_eq!(path_join("", "b"), "b");
    assert_eq!(path_join(".", ".nemoclaw"), "./.nemoclaw");
    for (base, part) in [("/a", "b"), ("/a/", "b"), ("/a", "/b"), ("", "b"), ("a", "")] {
        let expected = std::path::Path::new(base).join(part);
        assert_eq!(path_join(base, part), expected.to_string_lossy());
    }
}

#[test]
fn ordering_like_string() {
    let cases = [("a", "b"), ("a", "ab"), ("", "a"), ("b", "a"), ("x", "x"), ("Z", "a"), ("é", "z")];
    for (a, b) in cases {
        assert_eq!(less_than(a, b), a < b, "{a} < {b}");
    }
    assert_eq!(chars_of("héllo"), vec!['h', 'é', 'l', 'l', 'o']);
}

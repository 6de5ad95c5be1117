use vesper_harness::text::{
    chars_of, contains, ends_with, is_whitespace, join, replace, starts_with, str_eq,
    trim, trim_start_matches,
};

#[test]
fn trim_removes_unicode_white_space_at_both_ends() {
    assert_eq!(trim("  a b \n"), "a b");
    assert_eq!(trim("\u{85}\u{a0}x\u{2028}"), "x");
    assert_eq!(trim(""), "");
    assert_eq!(trim(" \t "), "");
    assert_eq!(trim("x"), " x ".trim());
}

#[test]
fn whitespace_matches_std() {
    for c in ['\t', '\n', '\r', ' ', '\u{85}', '\u{a0}', '\u{1680}', '\u{2000}', '\u{200a}', '\u{2028}', '\u{2029}', '\u{202f}', '\u{205f}', '\u{3000}', 'a', '\u{200b}', '\u{feff}', '0'] {
        assert_eq!(is_whitespace(c), c.is_whitespace(), "{:?}", c);
    }
}

#[test]
fn replace_matches_std() {
    for (s, p, r) in [
        ("{task} and {task}", "{task}", "T"),
        ("aaaa", "aa", "b"),
        ("no match", "{x}", "y"),
        ("{instruction}", "{instruction}", "Task: {instruction}"),
        ("", "a", "b"),
    ] {
        assert_eq!(replace(s, p, r), s.replace(p, r));
    }
}

#[test]
fn trim_start_matches_strips_repeated_prefixes() {
    assert_eq!(trim_start_matches("/task /task x", "/task "), "x");
    assert_eq!(trim_start_matches("abc", ""), "abc");
    assert_eq!(trim_start_matches("/task", "/task "), "/task");
}

#[test]
fn prefix_suffix_and_substring_tests() {
    assert!(starts_with("/sprocket x", "/sprocket "));
    assert!(!starts_with("/sprocke", "/sprocket "));
    assert!(ends_with("src/App.svelte", ".svelte"));
    assert!(!ends_with("rs", ".rs"));
    assert!(contains("a DANGER b", "DANGER"));
    assert!(!contains("DANGE", "DANGER"));
    assert!(contains("x", ""));
    assert!(str_eq("승인", "승인"));
    assert!(!str_eq("승인", "승"));
}

#[test]
fn join_and_chars() {
    assert_eq!(join(&vec!["a".to_string(), "b".to_string(), "c".to_string()], "\n"), "a\nb\nc");
    assert_eq!(join(&vec![], ","), "");
    assert_eq!(chars_of("가나"), vec!['가', '나']);
}

use agentoven::text::{
    clip, decimal_text, ends_with, find_char, shorten, split_once_char, split_trimmed,
    trim_end_char,
};

#[test]
fn decimal_text_writes_integers() {
    assert_eq!(decimal_text(0), "0");
    assert_eq!(decimal_text(7), "7");
    assert_eq!(decimal_text(-32700), "-32700");
    assert_eq!(decimal_text(1234567890), "1234567890");
    assert_eq!(decimal_text(i64::MAX), "9223372036854775807");
    assert_eq!(decimal_text(i64::MIN), "-9223372036854775808");
}

#[test]
fn trim_end_char_removes_the_whole_run() {
    assert_eq!(trim_end_char("http://x/", '/'), "http://x");
    assert_eq!(trim_end_char("http://x///", '/'), "http://x");
    assert_eq!(trim_end_char("http://x", '/'), "http://x");
    assert_eq!(trim_end_char("///", '/'), "");
    assert_eq!(trim_end_char("", '/'), "");
}

#[test]
fn split_once_char_cuts_at_the_first_occurrence() {
    assert_eq!(split_once_char("a:b:c", ':'), ("a", Some("b:c")));
    assert_eq!(split_once_char("abc", ':'), ("abc", None));
    assert_eq!(split_once_char(":x", ':'), ("", Some("x")));
    assert_eq!(split_once_char("x:", ':'), ("x", Some("")));
    assert_eq!(split_once_char("h\u{e9}llo@1.0", '@'), ("h\u{e9}llo", Some("1.0")));
}

#[test]
fn find_char_counts_characters() {
    assert_eq!(find_char("h\u{e9}llo@1", '@'), Some(5));
    assert_eq!(find_char("abc", 'z'), None);
    assert_eq!(find_char("aXbX", 'X'), Some(1));
}

#[test]
fn clip_and_shorten_cut_long_texts() {
    assert_eq!(clip("2026-01-02T03:04:05Z", 16), "2026-01-02T03:04");
    assert_eq!(clip("short", 16), "short");
    assert_eq!(clip("exactly-sixteen!", 16), "exactly-sixteen!");
    assert_eq!(shorten("abcdefghij", 5, 4, "..."), "abcd...");
    assert_eq!(shorten("abcde", 5, 4, "..."), "abcde");
    assert_eq!(shorten("\u{e9}\u{e9}\u{e9}\u{e9}", 3, 2, "~"), "\u{e9}\u{e9}~");
}

#[test]
fn ends_with_compares_the_tail() {
    assert!(ends_with("recipe.toml", ".toml"));
    assert!(!ends_with("recipe.json", ".toml"));
    assert!(!ends_with("oml", ".toml"));
    assert!(ends_with("x", ""));
}

#[test]
fn split_trimmed_cuts_at_commas_and_trims() {
    assert_eq!(split_trimmed("a, b ,c", ','), vec!["a", "b", "c"]);
    assert_eq!(split_trimmed("one", ','), vec!["one"]);
    assert_eq!(split_trimmed("", ','), vec![""]);
    assert_eq!(split_trimmed("a,,b,", ','), vec!["a", "", "b", ""]);
}

#[test]
fn white_space_of_every_kind_is_trimmed() {
    assert_eq!(split_trimmed("\u{a0}a\u{3000}, \tb\u{2028}\r\n", ','), vec!["a", "b"]);
    assert_eq!(split_trimmed("\u{85}\u{1680}\u{2000}x y\u{200a}\u{2029}\u{202f}\u{205f}", ','), vec!["x y"]);
    assert_eq!(split_trimmed("\u{200b}a\u{feff}", ','), vec!["\u{200b}a\u{feff}"]);
    assert_eq!(split_trimmed(" \u{b}\u{c} ", ','), vec![""]);
}

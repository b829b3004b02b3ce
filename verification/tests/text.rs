use image_lab::text::{
    blank, chars_of, contains, decimal_text, ends_with, joined, same_text, strip_end_of, strip_of, strip_start_of,
    to_ascii_lower, trim, truncate, CharSet,
};

#[test]
fn short_text_is_kept() {
    assert_eq!(truncate("abc", 3), "abc");
    assert_eq!(truncate("", 0), "");
}

#[test]
fn long_text_is_cut_by_characters() {
    assert_eq!(truncate("abcd", 3), "abc...");
    assert_eq!(truncate("图片生成失败", 2), "图片...");
    assert_eq!(truncate("a", 0), "...");
}

#[test]
fn truncating_twice_changes_nothing() {
    let once = truncate("abcdefgh", 5);
    assert_eq!(truncate(&once, 5), once);
    assert_eq!(once, "abcde...");
}

#[test]
fn trimming_removes_unicode_white_space() {
    assert_eq!(trim(" \t\n a b \u{3000}\u{a0}"), "a b");
    assert_eq!(trim("\u{2003}\u{85}"), "");
    assert_eq!(trim("\u{200b}x"), "\u{200b}x");
}

#[test]
fn trimming_agrees_with_std() {
    for c in ['\u{0}', '\u{8}', '\u{b}', '\u{1c}', '\u{1680}', '\u{180e}', '\u{2000}', '\u{200a}', '\u{2028}',
        '\u{2029}', '\u{202f}', '\u{205f}', '\u{feff}', '中'] {
        let s = format!("{c}a{c}");
        assert_eq!(trim(&s), s.trim());
    }
}

#[test]
fn blank_means_nothing_but_white_space() {
    assert!(blank(""));
    assert!(blank(" \r\n"));
    assert!(!blank(" . "));
}

#[test]
fn stripping_one_character() {
    assert_eq!(strip_end_of("https://x//", CharSet::Only('/')), "https://x");
    assert_eq!(strip_start_of("--a--", CharSet::Only('-')), "a--");
    assert_eq!(strip_of("--a-b--", CharSet::Only('-')), "a-b");
    assert_eq!(strip_of("---", CharSet::Only('-')), "");
}

#[test]
fn searching() {
    assert!(contains("image/jpeg", "jpeg"));
    assert!(contains("abc", ""));
    assert!(!contains("jpe", "jpeg"));
    assert!(contains("历史记录缺少 task id", "缺少 task id"));
    assert!(ends_with("a.jpg", ".jpg"));
    assert!(!ends_with("jpg", ".jpg"));
    assert!(ends_with("", ""));
}

#[test]
fn lower_case_of_ascii_only() {
    assert_eq!(to_ascii_lower("IMG.JPG"), "img.jpg");
    assert_eq!(to_ascii_lower("ÄZ@["), "Äz@[");
}

#[test]
fn decimal_notation() {
    assert_eq!(decimal_text(0), "0");
    assert_eq!(decimal_text(10), "10");
    assert_eq!(decimal_text(u64::MAX), u64::MAX.to_string());
}

#[test]
fn comparing_and_joining() {
    assert!(same_text("中", "中"));
    assert!(!same_text("a", "A"));
    assert_eq!(joined("a", "b"), "ab");
    assert_eq!(chars_of("é中"), vec!['é', '中']);
}

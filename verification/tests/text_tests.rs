use novelseek::text::{
    ascii_lowercase, clip_chars, contains_sub, ends_with_str, get_last_n_chars, i64_string,
    is_blank, json_escape, starts_with_str, strip_prefix_all, strip_suffix_all, trim_str,
    u32_string, u64_string,
};

#[test]
fn decimal_rendering() {
    assert_eq!(u32_string(0), "0");
    assert_eq!(u32_string(42), "42");
    assert_eq!(u32_string(4294967295), "4294967295");
    assert_eq!(u64_string(18446744073709551615), "18446744073709551615");
    assert_eq!(i64_string(0), "0");
    assert_eq!(i64_string(-1), "-1");
    assert_eq!(i64_string(-9223372036854775808), "-9223372036854775808");
    assert_eq!(i64_string(9223372036854775807), "9223372036854775807");
}

#[test]
fn tail_counts_bytes_widened_to_character_boundaries() {
    assert_eq!(get_last_n_chars("abcdef", 3), "def");
    assert_eq!(get_last_n_chars("abc", 10), "abc");
    assert_eq!(get_last_n_chars("", 5), "");
    // Three-byte CJK characters: a cut inside one widens to its start.
    assert_eq!(get_last_n_chars("一二三四", 3), "四");
    assert_eq!(get_last_n_chars("一二三四", 4), "三四");
    assert_eq!(get_last_n_chars("一二三四", 6), "三四");
    assert_eq!(get_last_n_chars("一二三四", 12), "一二三四");
    assert_eq!(get_last_n_chars("一二三四", 13), "一二三四");
    assert_eq!(get_last_n_chars("ab三", 2), "三");
}

#[test]
fn clipping_marks_the_cut() {
    assert_eq!(clip_chars("abcdef", 3), "abc...");
    assert_eq!(clip_chars("abc", 3), "abc");
    assert_eq!(clip_chars("你好世界", 2), "你好...");
}

#[test]
fn trimming() {
    assert_eq!(trim_str("  hi\t\n"), "hi");
    assert_eq!(trim_str("内容"), "内容");
    assert_eq!(trim_str("   "), "");
    assert!(is_blank(" \t "));
    assert!(!is_blank(" x "));
    // Unicode white space: the ideographic space and the no-break space.
    assert_eq!(trim_str("\u{3000}值\u{3000}"), "值");
    assert_eq!(trim_str("\u{a0}\u{2009}x"), "x");
    assert!(is_blank("\u{3000}\u{2028}"));
}

#[test]
fn json_escaping() {
    assert_eq!(json_escape("plain"), "plain");
    assert_eq!(json_escape("a\"b\\c"), "a\\\"b\\\\c");
    assert_eq!(json_escape("line\nnext\r\ttab"), "line\\nnext\\r\\ttab");
    assert_eq!(json_escape("\u{1}\u{1f}"), "\\u0001\\u001f");
    assert_eq!(json_escape("中文✓"), "中文✓");
}

#[test]
fn substring_search() {
    assert!(contains_sub("simsunb.ttf", "simsun"));
    assert!(!contains_sub("arial.ttf", "simsun"));
    assert!(contains_sub("anything", ""));
    assert!(!contains_sub("", "x"));
}

#[test]
fn prefix_and_suffix() {
    assert!(starts_with_str("data: x", "data: "));
    assert!(!starts_with_str("dat", "data: "));
    assert!(ends_with_str("base/chat/completions", "/chat/completions"));
    assert!(!ends_with_str("short", "/chat/completions"));
    assert_eq!(strip_prefix_all("``````json", "```"), "json");
    assert_eq!(strip_suffix_all("path///", "/"), "path");
    assert_eq!(strip_prefix_all("abc", ""), "abc");
}

#[test]
fn lowercasing_is_ascii_only() {
    assert_eq!(ascii_lowercase("SimSun.TTF"), "simsun.ttf");
    assert_eq!(ascii_lowercase("ABC-123"), "abc-123");
    assert_eq!(ascii_lowercase("中文É"), "中文É");
}

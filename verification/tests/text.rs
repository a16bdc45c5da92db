use local_agent::text::{
    decimal, join, split_line, starts_with, str_eq, strip_prefix, trim, trim_end_matches,
    white_space,
};

#[test]
fn white_space_agrees_with_the_standard_library_on_every_character() {
    for code in 0..=0x10FFFFu32 {
        if let Some(c) = char::from_u32(code) {
            assert_eq!(white_space(c), c.is_whitespace(), "{code:x}");
        }
    }
}

#[test]
fn trim_drops_white_space_at_both_ends() {
    assert_eq!(trim("  data: x \r"), "data: x");
    assert_eq!(trim("\u{2003}a b\u{3000}\t"), "a b");
    assert_eq!(trim(" \t\n"), "");
    assert_eq!(trim(""), "");
    assert_eq!(trim("ä"), "ä");
}

#[test]
fn trailing_characters_are_dropped_however_many() {
    assert_eq!(trim_end_matches("http://x/v1///", '/'), "http://x/v1");
    assert_eq!(trim_end_matches("http://x/v1", '/'), "http://x/v1");
    assert_eq!(trim_end_matches("///", '/'), "");
    assert_eq!(trim_end_matches("", '/'), "");
}

#[test]
fn prefixes_are_found_and_taken_off() {
    assert!(starts_with("ollama:llama3", "ollama:"));
    assert!(!starts_with("ollam", "ollama:"));
    assert!(starts_with("x", ""));
    assert_eq!(strip_prefix("ollama:ü", "ollama:"), Some("ü".to_string()));
    assert_eq!(strip_prefix("ollama", "ollama:"), None);
    assert_eq!(strip_prefix("openrouter:x", "ollama:"), None);
}

#[test]
fn lines_are_split_at_the_first_line_feed() {
    assert_eq!(split_line("ab\ncd\n"), Some(("ab".to_string(), "cd\n".to_string())));
    assert_eq!(split_line("\nx"), Some((String::new(), "x".to_string())));
    assert_eq!(split_line("no end"), None);
    assert_eq!(split_line(""), None);
}

#[test]
fn items_are_joined_with_a_separator_between_them() {
    let items = vec!["a".to_string(), "b".to_string(), "c".to_string()];
    assert_eq!(join(&items, ", "), "a, b, c");
    assert_eq!(join(&vec!["a".to_string()], ", "), "a");
    assert_eq!(join(&Vec::new(), ", "), "");
}

#[test]
fn numbers_are_written_in_decimal() {
    assert_eq!(decimal(0), "0");
    assert_eq!(decimal(10), "10");
    assert_eq!(decimal(9307), "9307");
    assert_eq!(decimal(usize::MAX), usize::MAX.to_string());
}

#[test]
fn texts_are_compared_character_by_character() {
    assert!(str_eq("grep", "grep"));
    assert!(!str_eq("grep", "grap"));
    assert!(!str_eq("grep", "gre"));
    assert!(str_eq("", ""));
}

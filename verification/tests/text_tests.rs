use grumpy_clippy::app_state::{new_shared_state, split_message, AppState};
use grumpy_clippy::text::{
    char_is_whitespace, contains, find, line_at, matches_at, push_decimal, same_text,
    split_lines, to_chars, trimmed_starts_with,
};

fn chars(text: &str) -> Vec<char> {
    text.chars().collect()
}

#[test]
fn characters_of_a_text() {
    assert_eq!(to_chars("héllo ✅"), vec!['h', 'é', 'l', 'l', 'o', ' ', '✅']);
    assert!(to_chars("").is_empty());
}

#[test]
fn search_finds_the_leftmost_occurrence() {
    assert_eq!(find(&chars("abcabc"), &chars("bc")), Some(1));
    assert_eq!(find(&chars("abcabc"), &chars("abcabc")), Some(0));
    assert_eq!(find(&chars("abcabc"), &chars("cb")), None);
    assert_eq!(find(&chars("abc"), &chars("abcd")), None);
    assert_eq!(find(&chars("abc"), &chars("")), Some(0));
    assert_eq!(find(&chars(""), &chars("")), Some(0));
    assert_eq!(find(&chars("aab"), &chars("ab")), Some(1));
    assert!(contains(&chars("xyz"), &chars("z")));
    assert!(!contains(&chars("xyz"), &chars("zz")));
    assert!(matches_at(&chars("xyz"), &chars("yz"), 1));
    assert!(!matches_at(&chars("xyz"), &chars("yz"), 2));
    assert!(!matches_at(&chars("xyz"), &chars("yz"), usize::MAX));
    assert!(matches_at(&chars("xyz"), &chars(""), 3));
    assert!(!matches_at(&chars("xyz"), &chars(""), 4));
}

#[test]
fn texts_are_compared_by_their_characters() {
    assert!(same_text("abc", "abc"));
    assert!(!same_text("abc", "abd"));
    assert!(!same_text("abc", "ab"));
    assert!(same_text("", ""));
}

#[test]
fn numbers_are_written_in_base_ten() {
    for (number, expected) in [
        (0usize, "0"),
        (7, "7"),
        (10, "10"),
        (12, "12"),
        (255, "255"),
        (1000, "1000"),
        (9_007_199_254_740_993, "9007199254740993"),
    ] {
        let mut out = String::from("n=");
        push_decimal(&mut out, number);
        assert_eq!(out, format!("n={}", expected));
    }
    let mut out = String::new();
    push_decimal(&mut out, usize::MAX);
    assert_eq!(out, usize::MAX.to_string());
}

#[test]
fn white_space_is_what_unicode_says() {
    for code in 0u32..=0x3100 {
        if let Some(c) = char::from_u32(code) {
            assert_eq!(char_is_whitespace(c), c.is_whitespace(), "U+{:04X}", code);
        }
    }
    assert!(!char_is_whitespace('\u{FEFF}'));
}

#[test]
fn leading_white_space_is_dropped_before_the_prefix_is_tested() {
    assert!(trimmed_starts_with(&chars("  \t--> src/a.rs"), &chars("--> ")));
    assert!(trimmed_starts_with(&chars("--> x"), &chars("--> ")));
    assert!(!trimmed_starts_with(&chars("  -> x"), &chars("--> ")));
    assert!(!trimmed_starts_with(&chars("   "), &chars("--> ")));
    assert!(trimmed_starts_with(&chars("   "), &chars("")));
    assert!(!trimmed_starts_with(&chars("a --> "), &chars("--> ")));
}

#[test]
fn lines_end_at_line_feeds() {
    let text = chars("ab\r\ncd\n\nlast\r");
    assert_eq!(line_at(&text, 0), (2, 3));
    assert_eq!(line_at(&text, 4), (6, 6));
    assert_eq!(line_at(&text, 7), (7, 7));
    assert_eq!(line_at(&text, 8), (13, 13));
    assert_eq!(line_at(&text, 13), (13, 13));
    assert_eq!(line_at(&chars("\r\n"), 0), (0, 1));
    assert_eq!(line_at(&chars("\r\n"), 1), (1, 1));
}

#[test]
fn message_is_broken_into_lines_of_forty() {
    let ninety: String = "abcdefghij".repeat(9);
    assert_eq!(
        split_message(&ninety),
        format!(
            "{}\n{}\n{}",
            "abcdefghij".repeat(4),
            "abcdefghij".repeat(4),
            "abcdefghij"
        )
    );
    assert_eq!(split_message("short"), "short");
    assert_eq!(split_message(""), "");
    let forty = "é".repeat(40);
    assert_eq!(split_message(&forty), forty);
    let eighty = "é".repeat(80);
    assert_eq!(split_message(&eighty), format!("{}\n{}", forty, forty));
    let forty_one = "x".repeat(41);
    assert_eq!(split_message(&forty_one), format!("{}\nx", "x".repeat(40)));
}

#[test]
fn shared_state_starts_empty_and_keeps_the_last_report() {
    let shared = new_shared_state();
    assert_eq!(shared.read().unwrap().message, "");
    shared.write().unwrap().set_message("first".to_string());
    shared.write().unwrap().set_message("second".to_string());
    assert_eq!(shared.read().unwrap().message, "second");
    assert_eq!(AppState::default().message, "");
}

#[test]
fn text_is_split_into_lines() {
    for text in [
        "",
        "\n",
        "a",
        "a\n",
        "a\r\nb\n\nc",
        "a\r",
        "\r\n\r\n",
        "x\ry\n",
        "one\ntwo\n",
        "\n\nlast",
        "é\r\n✅\n",
    ] {
        let expected: Vec<String> = text.lines().map(|line| line.to_string()).collect();
        assert_eq!(split_lines(text), expected, "{:?}", text);
    }
    assert_eq!(split_lines("a\r\nb\n\nc"), vec!["a", "b", "", "c"]);
}

use video_server::text::{
    chars_of, decimal_text, has_suffix, is_blank, is_white_space, join_texts, same_text,
    split_lines, text_after_last,
};

#[test]
fn decimal_covers_the_whole_range() {
    assert_eq!(decimal_text(i64::MIN), "-9223372036854775808");
    assert_eq!(decimal_text(i64::MAX), "9223372036854775807");
    assert_eq!(decimal_text(0), "0");
    assert_eq!(decimal_text(9), "9");
    assert_eq!(decimal_text(10), "10");
    assert_eq!(decimal_text(-10), "-10");
}

#[test]
fn lines_agree_with_the_standard_library() {
    let texts = [
        "", "\n", "a", "a\n", "a\r\n", "a\r", "a\r\r\nb", "\n\n", "\r\n\r", "a\n\nb\r\nc", "ä\n日本\r\n",
    ];
    for text in texts {
        let expected: Vec<String> = text.lines().map(|line| line.to_string()).collect();
        assert_eq!(split_lines(text), expected);
    }
}

#[test]
fn joining_puts_the_separator_between() {
    assert_eq!(join_texts(&vec![], ", "), "");
    assert_eq!(join_texts(&vec!["a".to_string()], ", "), "a");
    assert_eq!(join_texts(&vec!["a".to_string(), "".to_string(), "b".to_string()], ", "), "a, , b");
}

#[test]
fn joined_lines_come_back() {
    let parts = vec!["#EXTM3U".to_string(), "".to_string(), "a.ts".to_string()];
    assert_eq!(split_lines(&join_texts(&parts, "\n")), parts);
    assert_eq!(join_texts(&split_lines("a\nb\n"), "\n"), "a\nb");
}

#[test]
fn white_space_agrees_with_the_standard_library() {
    for c in '\0'..=char::MAX {
        assert_eq!(is_white_space(c), c.is_whitespace());
    }
}

#[test]
fn blank_is_what_trimming_empties() {
    for text in ["", " ", "\t\r\n", "\u{3000}\u{a0}", " x ", "x", "\u{200b}"] {
        assert_eq!(is_blank(text), text.trim().is_empty());
    }
}

#[test]
fn suffixes_are_told_by_characters() {
    assert!(has_suffix("clip.mp4", ".mp4"));
    assert!(has_suffix(".mp4", ".mp4"));
    assert!(!has_suffix("mp4", ".mp4"));
    assert!(!has_suffix("clip.MP4", ".mp4"));
    assert!(has_suffix("ü.ts", ".ts"));
    assert!(has_suffix("", ""));
}

#[test]
fn text_after_the_last_character() {
    assert_eq!(text_after_last("a.b.mp4", '.'), "mp4");
    assert_eq!(text_after_last("no dot", '.'), "no dot");
    assert_eq!(text_after_last("ends.", '.'), "");
    assert_eq!(text_after_last("", '.'), "");
}

#[test]
fn characters_are_collected_in_order() {
    assert_eq!(chars_of("aß日"), vec!['a', 'ß', '日']);
    assert!(same_text("aß", "aß"));
    assert!(!same_text("a", "A"));
}

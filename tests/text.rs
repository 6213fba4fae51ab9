use video_embed::text::{chars_of, contains_text, text_eq};

#[test]
fn contains_finds_runs() {
    assert!(contains_text("www.youtube.com", "youtube"));
    assert!(contains_text("abc", ""));
    assert!(contains_text("abc", "abc"));
    assert!(!contains_text("abc", "abcd"));
    assert!(!contains_text("ab-c", "abc"));
    assert!(contains_text("ééx", "éx"));
}

#[test]
fn text_equality() {
    assert!(text_eq("video", "video"));
    assert!(!text_eq("video", "Video"));
    assert!(!text_eq("", "a"));
}

#[test]
fn chars_in_order() {
    assert_eq!(chars_of("aé"), vec!['a', 'é']);
    assert!(chars_of("").is_empty());
}

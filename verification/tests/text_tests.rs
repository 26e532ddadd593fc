use flashnotes::text::extract_title_preview;

#[test]
fn title_and_preview_from_two_lines() {
    let (title, preview) = extract_title_preview("\nHello\nWorld\n");
    assert_eq!(title, "Hello");
    assert_eq!(preview, "World");
}

#[test]
fn empty_content_gives_untitled() {
    let (title, preview) = extract_title_preview("");
    assert_eq!(title, "Untitled");
    assert_eq!(preview, "");
}

#[test]
fn blank_content_gives_untitled() {
    let (title, preview) = extract_title_preview(" \t \n\n   \n");
    assert_eq!(title, "Untitled");
    assert_eq!(preview, "");
}

#[test]
fn single_line_has_no_preview() {
    let (title, preview) = extract_title_preview("Solo");
    assert_eq!(title, "Solo");
    assert_eq!(preview, "");
}

#[test]
fn lines_are_trimmed() {
    let (title, preview) = extract_title_preview("   padded title  \n\n\t next one \t\n");
    assert_eq!(title, "padded title");
    assert_eq!(preview, "next one");
}

#[test]
fn long_lines_are_clipped_to_100_chars() {
    let long_a = "a".repeat(250);
    let long_b = "b".repeat(101);
    let content = format!("{}\n{}", long_a, long_b);
    let (title, preview) = extract_title_preview(&content);
    assert_eq!(title, "a".repeat(100));
    assert_eq!(preview, "b".repeat(100));
}

#[test]
fn carriage_returns_are_handled() {
    let (title, preview) = extract_title_preview("first\r\nsecond\r\n");
    assert_eq!(title, "first");
    assert_eq!(preview, "second");
}

#[test]
fn preview_skips_blank_lines_after_title() {
    let (title, preview) = extract_title_preview("Top\n\n\n\nBottom\nIgnored");
    assert_eq!(title, "Top");
    assert_eq!(preview, "Bottom");
}

#[test]
fn title_with_exactly_100_chars_is_kept() {
    let exact = "x".repeat(100);
    let (title, preview) = extract_title_preview(&exact);
    assert_eq!(title, exact);
    assert_eq!(preview, "");
}

#[test]
fn unicode_content_counts_characters_not_bytes() {
    let line = "\u{00e9}".repeat(120);
    let (title, _) = extract_title_preview(&line);
    assert_eq!(title.chars().count(), 100);
}

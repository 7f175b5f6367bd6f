use bound_variables::hydrated_text;

#[test]
fn one_final_line_feed_is_dropped() {
    assert_eq!(hydrated_text("abc123\n"), "abc123");
}

#[test]
fn text_without_a_final_line_feed_is_kept() {
    assert_eq!(hydrated_text("abc123"), "abc123");
}

#[test]
fn only_one_of_two_final_line_feeds_is_dropped() {
    assert_eq!(hydrated_text("abc\n\n"), "abc\n");
}

#[test]
fn blanks_before_the_line_feed_are_kept() {
    assert_eq!(hydrated_text("abc \t\n"), "abc \t");
    assert_eq!(hydrated_text("abc \t"), "abc \t");
    assert_eq!(hydrated_text("  abc\n"), "  abc");
}

#[test]
fn a_carriage_return_is_kept() {
    assert_eq!(hydrated_text("abc\r\n"), "abc\r");
    assert_eq!(hydrated_text("abc\r"), "abc\r");
}

#[test]
fn line_feeds_inside_the_text_are_kept() {
    assert_eq!(hydrated_text("a\nb\nc\n"), "a\nb\nc");
    assert_eq!(hydrated_text("\nabc"), "\nabc");
}

#[test]
fn the_empty_text_stays_empty() {
    assert_eq!(hydrated_text(""), "");
}

#[test]
fn a_lone_line_feed_gives_the_empty_text() {
    assert_eq!(hydrated_text("\n"), "");
}

#[test]
fn characters_of_several_bytes_are_kept_whole() {
    assert_eq!(hydrated_text("clé — ключ\n"), "clé — ключ");
    assert_eq!(hydrated_text("é"), "é");
}

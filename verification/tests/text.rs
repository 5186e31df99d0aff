use harbinger::text::{
    char_width, display_width, join_lines, leading_whitespace, spaces, split_lines, str_eq,
};

#[test]
fn ascii_text_is_as_wide_as_it_is_long() {
    assert_eq!(display_width("abc"), Some(3));
    assert_eq!(display_width("Welcome to Neovim!"), Some(18));
    assert_eq!(display_width(""), Some(0));
    assert_eq!(display_width("   "), Some(3));
}

#[test]
fn wide_glyphs_take_two_cells() {
    assert_eq!(display_width("日本語"), Some(6));
    assert_eq!(display_width("a日b"), Some(4));
    assert_eq!("日本語".len(), 9);
    assert_eq!(char_width('日'), 2);
    assert_eq!(char_width('🦀'), 2);
}

#[test]
fn control_and_combining_characters_take_no_cell() {
    assert_eq!(char_width('\t'), 0);
    assert_eq!(char_width('\u{7f}'), 0);
    assert_eq!(char_width('\u{301}'), 0);
    assert_eq!(display_width("e\u{301}"), Some(1));
}

#[test]
fn printable_ascii_takes_one_cell() {
    assert_eq!(char_width(' '), 1);
    assert_eq!(char_width('~'), 1);
    assert_eq!(char_width('A'), 1);
}

#[test]
fn narrow_characters_beyond_ascii_take_one_cell() {
    assert_eq!(char_width('é'), 1);
    assert_eq!(char_width('\u{ea7f}'), 1);
}

#[test]
fn text_splits_at_every_line_feed() {
    assert_eq!(split_lines("A\nB\nC"), vec!["A", "B", "C"]);
    assert_eq!(split_lines("one line"), vec!["one line"]);
    assert_eq!(split_lines(""), vec![""]);
    assert_eq!(split_lines("A\n"), vec!["A", ""]);
    assert_eq!(split_lines("\n\n"), vec!["", "", ""]);
    assert_eq!(split_lines("日\n本"), vec!["日", "本"]);
}

#[test]
fn joining_undoes_splitting() {
    for text in ["", "a", "a\nb", "\n", "a\n\nb\n", "日本\n語"] {
        assert_eq!(join_lines(&split_lines(text)), text);
    }
}

#[test]
fn joining_puts_one_line_feed_between_neighbours() {
    let parts = vec!["A".to_string(), "B".to_string(), "C".to_string()];
    assert_eq!(join_lines(&parts), "A\nB\nC");
    assert_eq!(join_lines(&vec![]), "");
    assert_eq!(join_lines(&vec!["only".to_string()]), "only");
}

#[test]
fn indentation_counts_leading_white_space() {
    assert_eq!(leading_whitespace("   x"), 3);
    assert_eq!(leading_whitespace("x   "), 0);
    assert_eq!(leading_whitespace(""), 0);
    assert_eq!(leading_whitespace("    "), 4);
    assert_eq!(leading_whitespace("\t x y"), 2);
    assert_eq!(leading_whitespace("\u{3000}x"), 1);
    assert_eq!(leading_whitespace("_ x"), 0);
}

#[test]
fn spaces_builds_a_row_of_blanks() {
    assert_eq!(spaces(0), "");
    assert_eq!(spaces(3), "   ");
    assert_eq!(display_width(&spaces(17)), Some(17));
}

#[test]
fn texts_compare_by_their_characters() {
    assert!(str_eq("left", "left"));
    assert!(!str_eq("left", "Left"));
    assert!(!str_eq("left", "lef"));
    assert!(str_eq("", ""));
}

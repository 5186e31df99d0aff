use harbinger::config::value::DynValue;
use harbinger::config::Config;
use harbinger::content::button::{create_buttons, Button, ButtonGroup, SingleButton};
use harbinger::content::empty_line::EmptyLineElement;
use harbinger::content::footer::create_footer;
use harbinger::content::frame::compose_frame;
use harbinger::content::header::{create_header, create_subheader, Header};
use harbinger::content::text::{render_text, TextElement};
use harbinger::content::{
    leading_padding, parse_position, Content, ContentElement, DashboardElement, ElementAlignment,
    RenderRecord,
};
use harbinger::lifecycle::dashboard_content;
use harbinger::text::display_width;

fn default_content() -> Content {
    dashboard_content(&Config::from_dict(&DynValue::Dict(vec![])))
}

fn text(s: &str) -> DynValue {
    DynValue::Str(s.to_string())
}

fn triple(a: &str, b: &str, c: &str) -> (String, String, String) {
    (a.to_string(), b.to_string(), c.to_string())
}

#[test]
fn default_dashboard_in_a_viewport_of_80_by_24() {
    let frame = default_content().render(80, 24).unwrap();
    assert_eq!(frame.button_count, 4);
    assert_eq!(frame.lines.len(), 24);
    assert_eq!(frame.top_padding, 7);
    assert_eq!(frame.first_button_line, 12);
    assert_eq!(frame.command_map.len(), 4);
    assert_eq!(frame.command_map[&12], "edit new_file.txt");
    assert_eq!(frame.command_map[&13], "Telescope find_files");
    assert_eq!(frame.command_map[&14], "Telescope oldfiles");
    assert_eq!(frame.command_map[&15], "qall");
}

#[test]
fn default_dashboard_lines() {
    let frame = default_content().render(80, 24).unwrap();
    let blank = String::new();
    for line in &frame.lines[0..7] {
        assert_eq!(line, &blank);
    }
    assert_eq!(frame.lines[7], format!("{}Welcome to Neovim!", " ".repeat(31)));
    assert_eq!(frame.lines[8], "");
    assert_eq!(frame.lines[9], format!("{}==================", " ".repeat(31)));
    assert_eq!(frame.lines[10], "");
    assert_eq!(frame.lines[11], format!("{} Create new file     \u{ea7f}", " ".repeat(29)));
    assert_eq!(frame.lines[12], format!("{} Find file           \u{ea6d}", " ".repeat(29)));
    assert_eq!(frame.lines[13], format!("{} Recent files        \u{ea82}", " ".repeat(29)));
    assert_eq!(frame.lines[14], format!("{} Exit                \u{f426}", " ".repeat(29)));
    assert_eq!(frame.lines[15], "");
    assert_eq!(frame.lines[16], format!("{}created with Rust by RAprogramm", " ".repeat(24)));
    for line in &frame.lines[17..24] {
        assert_eq!(line, &blank);
    }
}

#[test]
fn default_dashboard_highlights() {
    let frame = default_content().render(80, 24).unwrap();
    let spans: Vec<(usize, &str, usize, usize)> = frame
        .highlights
        .iter()
        .map(|s| (s.line, s.group.as_str(), s.col_start, s.col_len))
        .collect();
    assert_eq!(
        spans,
        vec![
            (7, "HarbingerHeader", 31, 18),
            (9, "HarbingerSubHeader", 31, 18),
            (11, "HarbingerButton", 29, 22),
            (12, "HarbingerButton", 29, 22),
            (13, "HarbingerButton", 29, 22),
            (14, "HarbingerButton", 29, 22),
            (16, "HarbingerFooter", 24, 31),
        ]
    );
}

#[test]
fn a_highlight_names_the_bytes_of_its_text() {
    let mut content = Content::new();
    content.add_element(create_header("日本", "center"));
    content.add_element(ContentElement::EmptyLine(EmptyLineElement));
    content.add_element(create_footer("ab", "right"));
    let frame = content.render(10, 3).unwrap();
    assert_eq!(frame.lines, vec!["   日本", "", "        ab"]);
    let spans: Vec<(usize, usize, usize, usize, usize)> = frame
        .highlights
        .iter()
        .map(|s| (s.line, s.col_start, s.col_len, s.byte_start, s.byte_end))
        .collect();
    assert_eq!(spans, vec![(0, 3, 4, 3, 9), (2, 8, 2, 8, 10)]);
    for span in &frame.highlights {
        let line = &frame.lines[span.line];
        assert_eq!(line[span.byte_start..span.byte_end].trim_start(), line.trim_start());
    }
}

#[test]
fn every_highlight_lies_within_its_line() {
    for (width, height) in [(80, 24), (10, 3), (0, 0), (200, 100), (23, 11)] {
        let frame = default_content().render(width, height).unwrap();
        for span in &frame.highlights {
            assert!(span.line < frame.lines.len());
            assert!(span.col_len > 0);
            let line_width = display_width(&frame.lines[span.line]).unwrap();
            assert!(span.col_start + span.col_len <= line_width);
            assert_eq!(span.byte_start, span.col_start);
            assert_eq!(span.byte_end, frame.lines[span.line].len());
        }
    }
}

#[test]
fn a_header_of_three_lines_in_a_viewport_of_80_by_30() {
    let options = DynValue::Dict(vec![(
        "header".to_string(),
        DynValue::Dict(vec![(
            "text".to_string(),
            DynValue::List(vec![text("A"), text("B"), text("C")]),
        )]),
    )]);
    let config = Config::from_dict(&options);
    assert_eq!(config.header.text, "A\nB\nC");
    let frame = dashboard_content(&config).render(80, 30).unwrap();
    assert_eq!(frame.top_padding, 9);
    assert_eq!(frame.lines.len(), 30);
    assert_eq!(frame.lines[9], format!("{}A", " ".repeat(39)));
    assert_eq!(frame.lines[10], format!("{}B", " ".repeat(39)));
    assert_eq!(frame.lines[11], format!("{}C", " ".repeat(39)));
    assert_eq!(frame.lines[12], "");
    assert_eq!(frame.first_button_line, 16);
    assert_eq!(frame.button_count, 4);
}

#[test]
fn the_command_map_has_exactly_the_button_lines_as_keys() {
    for (width, height) in [(80, 24), (80, 30), (5, 2), (0, 0), (120, 51)] {
        let frame = default_content().render(width, height).unwrap();
        assert_eq!(frame.command_map.len(), frame.button_count);
        let mut keys: Vec<usize> = frame.command_map.keys().copied().collect();
        keys.sort();
        let expected: Vec<usize> =
            (frame.first_button_line..frame.first_button_line + frame.button_count).collect();
        assert_eq!(keys, expected);
    }
}

#[test]
fn top_padding_is_half_of_the_lines_left_over() {
    let content = default_content();
    for height in 10..60usize {
        let frame = content.render(80, height).unwrap();
        assert_eq!(frame.top_padding, (height - 10) / 2);
        assert_eq!(frame.lines.len(), height);
        assert_eq!(frame.first_button_line, frame.top_padding + 5);
    }
}

#[test]
fn content_higher_than_the_viewport_is_not_cut_and_not_padded() {
    let content = default_content();
    for height in 0..10usize {
        let frame = content.render(80, height).unwrap();
        assert_eq!(frame.top_padding, 0);
        assert_eq!(frame.lines.len(), 10);
        assert_eq!(frame.first_button_line, 5);
        assert_eq!(frame.lines[9], format!("{}created with Rust by RAprogramm", " ".repeat(24)));
    }
}

#[test]
fn a_window_narrower_than_the_block_shows_it_at_column_zero() {
    let frame = default_content().render(10, 24).unwrap();
    assert_eq!(frame.lines[7], "Welcome to Neovim!");
    assert_eq!(frame.lines[11], " Create new file     \u{ea7f}");
    assert_eq!(frame.lines[14], " Exit                \u{f426}");
    assert_eq!(frame.lines[16], "created with Rust by RAprogramm");
    let button = frame.highlights.iter().find(|s| s.line == 11).unwrap();
    assert_eq!((button.col_start, button.col_len), (0, 22));
}

#[test]
fn leading_padding_follows_the_alignment() {
    assert_eq!(leading_padding(ElementAlignment::Left, 80, 22), 0);
    assert_eq!(leading_padding(ElementAlignment::Center, 80, 22), 29);
    assert_eq!(leading_padding(ElementAlignment::Center, 81, 22), 29);
    assert_eq!(leading_padding(ElementAlignment::Right, 80, 22), 58);
    assert_eq!(leading_padding(ElementAlignment::Center, 10, 22), 0);
    assert_eq!(leading_padding(ElementAlignment::Right, 10, 22), 0);
    assert_eq!(leading_padding(ElementAlignment::Right, 22, 22), 0);
    assert_eq!(leading_padding(ElementAlignment::Center, usize::MAX, 0), usize::MAX / 2);
    assert_eq!(leading_padding(ElementAlignment::Right, usize::MAX, usize::MAX), 0);
}

#[test]
fn position_words_name_the_sides() {
    assert_eq!(parse_position("left"), ElementAlignment::Left);
    assert_eq!(parse_position("right"), ElementAlignment::Right);
    assert_eq!(parse_position("center"), ElementAlignment::Center);
    assert_eq!(parse_position(""), ElementAlignment::Center);
    assert_eq!(parse_position("LEFT"), ElementAlignment::Center);
    assert_eq!(parse_position("middle"), ElementAlignment::Center);
}

#[test]
fn rows_of_a_centered_group_share_padding_and_width() {
    let buttons = vec![
        Button::new("Open", "->", "edit"),
        Button::new("日本語のボタン", "🦀", "lua f()"),
        Button::new("", "", "qa"),
        Button::new("A much longer title than the rest", "x", "help"),
    ];
    let group = ButtonGroup::new(buttons, ElementAlignment::Center);
    let rows = group.render(100).unwrap();
    let block = 1 + 33 + 5 + 2;
    let lead = (100 - block) / 2;
    assert_eq!(rows.len(), 4);
    for row in &rows {
        assert_eq!(row.lead, lead);
        assert_eq!(row.width, block);
        assert_eq!(display_width(&row.raw), Some(block));
        assert_eq!(row.group, "HarbingerButton");
    }
    assert_eq!(rows[1].raw, format!(" 日本語のボタン{}     🦀", " ".repeat(33 - 14)));
    assert_eq!(rows[0].raw, format!(" Open{}     ->", " ".repeat(29)));
    assert_eq!(rows[2].raw, format!(" {}       ", " ".repeat(33)));
    assert_eq!(rows[3].raw, " A much longer title than the rest     x ");
    let commands: Vec<&str> = rows.iter().map(|r| r.command.as_deref().unwrap()).collect();
    assert_eq!(commands, vec!["edit", "lua f()", "qa", "help"]);

    let mut content = Content::new();
    content.add_element(ContentElement::ButtonGroup(group));
    let frame = content.render(100, 4).unwrap();
    for line in &frame.lines {
        assert_eq!(display_width(line), Some(block + lead));
    }
}

#[test]
fn a_group_aligns_its_block_left_and_right() {
    let items = vec![triple("One", "1", "a"), triple("Three", "3", "b")];
    let left = create_buttons(&items, "left");
    let right = create_buttons(&items, "right");
    let block = 1 + 5 + 5 + 1;
    let rows = left[0].render(40).unwrap();
    assert_eq!(rows[0].lead, 0);
    assert_eq!(rows[0].raw, " One       1");
    let rows = right[0].render(40).unwrap();
    assert_eq!(rows[0].lead, 40 - block);
    assert_eq!(rows[1].lead, 40 - block);
    assert_eq!(rows[1].raw, " Three     3");
    assert_eq!(left[0].alignment(), ElementAlignment::Left);
    assert_eq!(right[0].alignment(), ElementAlignment::Right);
}

#[test]
fn a_lone_button_is_a_group_of_one() {
    let lone = SingleButton::new(Button::new("Quit", "q", "qa"), ElementAlignment::Center);
    let rows = lone.render(20).unwrap();
    assert_eq!(rows.len(), 1);
    assert_eq!(rows[0].raw, " Quit     q");
    assert_eq!(rows[0].width, 11);
    assert_eq!(rows[0].lead, 4);
    assert_eq!(rows[0].command.as_deref(), Some("qa"));
    assert_eq!(lone.alignment(), ElementAlignment::Center);
    let mut content = Content::new();
    content.add_element(ContentElement::Button(lone));
    let frame = content.render(20, 3).unwrap();
    assert_eq!(frame.lines, vec!["", "     Quit     q", ""]);
    assert_eq!(frame.first_button_line, 2);
    assert_eq!(frame.command_map[&2], "qa");
}

#[test]
fn a_group_without_buttons_has_no_rows() {
    let group = ButtonGroup::new(vec![], ElementAlignment::Center);
    assert!(group.render(80).unwrap().is_empty());
}

#[test]
fn a_text_is_padded_line_by_line() {
    let rows = render_text("ab\nabcdef\n\n日本", ElementAlignment::Center, "Group", 10).unwrap();
    let shown: Vec<(&str, usize, usize)> =
        rows.iter().map(|r| (r.raw.as_str(), r.lead, r.width)).collect();
    assert_eq!(shown, vec![("ab", 4, 2), ("abcdef", 2, 6), ("", 5, 0), ("日本", 3, 4)]);
    assert!(rows.iter().all(|r| r.group == "Group" && r.command.is_none()));
    let rows = render_text("ab\nabcdef", ElementAlignment::Right, "Group", 10).unwrap();
    assert_eq!((rows[0].lead, rows[1].lead), (8, 4));
    let rows = render_text("ab\nabcdef", ElementAlignment::Left, "Group", 10).unwrap();
    assert_eq!((rows[0].lead, rows[1].lead), (0, 0));
}

#[test]
fn the_elements_carry_their_highlight_groups() {
    let header = create_header("H", "left");
    let sub = create_subheader("S", "right");
    let footer = create_footer("F", "nowhere");
    assert!(matches!(&header, ContentElement::Header(h)
        if h.highlight == "HarbingerHeader" && h.text == "H" && h.alignment == ElementAlignment::Left));
    assert!(matches!(&sub, ContentElement::Header(h)
        if h.highlight == "HarbingerSubHeader" && h.text == "S" && h.alignment == ElementAlignment::Right));
    assert!(matches!(&footer, ContentElement::Text(t)
        if t.highlight == "HarbingerFooter" && t.text == "F" && t.alignment == ElementAlignment::Center));
    assert_eq!(header.render(9).unwrap()[0].group, "HarbingerHeader");
    assert_eq!(sub.render(9).unwrap()[0].lead, 8);
    assert_eq!(footer.render(9).unwrap()[0].lead, 4);
    let blank = EmptyLineElement.render(9).unwrap();
    assert_eq!(blank.len(), 1);
    assert_eq!((blank[0].raw.as_str(), blank[0].lead, blank[0].width), ("", 0, 0));
    assert_eq!(blank[0].group, "HarbingerEmptyLine");
    assert_eq!(EmptyLineElement.highlight_group(), "HarbingerEmptyLine");
    assert_eq!(Header::new("x", ElementAlignment::Right).alignment(), ElementAlignment::Right);
    let plain = TextElement::new("x", ElementAlignment::Left, "Mine");
    assert_eq!(plain.highlight_group(), "Mine");
    assert_eq!(plain.alignment(), ElementAlignment::Left);
}

#[test]
fn a_dashboard_without_buttons_starts_its_buttons_below_the_padding() {
    let mut content = Content::new();
    content.add_element(create_header("Title", "center"));
    let frame = content.render(20, 5).unwrap();
    assert_eq!(frame.button_count, 0);
    assert_eq!(frame.top_padding, 2);
    assert_eq!(frame.first_button_line, 3);
    assert!(frame.command_map.is_empty());
    assert_eq!(frame.lines, vec!["", "", "       Title", "", ""]);
}

#[test]
fn an_empty_dashboard_is_a_viewport_of_blank_lines() {
    let frame = Content::new().render(80, 3).unwrap();
    assert_eq!(frame.lines, vec!["", "", ""]);
    assert_eq!(frame.top_padding, 1);
    assert!(frame.highlights.is_empty());
    let frame = Content::new().render(80, 0).unwrap();
    assert!(frame.lines.is_empty());
}

#[test]
fn two_groups_apart_keep_their_own_lines() {
    let mut content = Content::new();
    for element in create_buttons(&[triple("a", "1", "first")], "left") {
        content.add_element(element);
    }
    content.add_element(ContentElement::EmptyLine(EmptyLineElement));
    for element in create_buttons(&[triple("b", "2", "second")], "left") {
        content.add_element(element);
    }
    let frame = content.render(10, 3).unwrap();
    assert_eq!(frame.button_count, 2);
    assert_eq!(frame.first_button_line, 1);
    assert_eq!(frame.command_map.len(), 2);
    assert_eq!(frame.command_map[&1], "first");
    assert_eq!(frame.command_map[&3], "second");
    assert_eq!(frame.command_at(2), None);
    assert_eq!(frame.command_at(3).map(|s| s.as_str()), Some("second"));
}

#[test]
fn compose_frame_places_given_rows() {
    let rows = vec![
        RenderRecord {
            raw: "title".to_string(),
            width: 5,
            lead: 2,
            group: "G".to_string(),
            command: None,
        },
        RenderRecord {
            raw: "go".to_string(),
            width: 2,
            lead: 1,
            group: "B".to_string(),
            command: Some("run".to_string()),
        },
    ];
    let frame = compose_frame(&rows, 7);
    assert_eq!(frame.top_padding, 2);
    assert_eq!(frame.lines, vec!["", "", "  title", " go", "", "", ""]);
    assert_eq!(frame.first_button_line, 4);
    assert_eq!(frame.button_count, 1);
    assert_eq!(frame.command_map[&4], "run");
    assert_eq!(frame.line_at(3).map(|s| s.as_str()), Some("  title"));
    assert_eq!(frame.line_at(0), None);
    assert_eq!(frame.line_at(8), None);
    assert_eq!(frame.highlights.len(), 2);
    assert_eq!(frame.highlights[1].line, 3);
    assert_eq!(frame.highlights[1].col_start, 1);
    assert_eq!(frame.highlights[1].col_len, 2);
}

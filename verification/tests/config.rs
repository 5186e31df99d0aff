use harbinger::config::content::{
    Alignment, Command, Content as LayoutContent, HorizontalAlignment, VerticalAlignment,
};
use harbinger::config::highlights::parse_highlights;
use harbinger::config::keymaps::Keymaps;
use harbinger::config::layout::column::ColumnBuilder;
use harbinger::config::layout::DashboardLayout;
use harbinger::config::value::DynValue;
use harbinger::config::{
    parse_bool_option, parse_buttons_items, parse_string_option, parse_usize_option, Config,
};
use harbinger::content::ElementAlignment;
use harbinger::dashboard::Dashboard as LayoutDashboard;
use harbinger::defaults::default_buttons_items;
use harbinger::error::PluginError;

fn s(text: &str) -> DynValue {
    DynValue::Str(text.to_string())
}

fn dict(entries: Vec<(&str, DynValue)>) -> DynValue {
    DynValue::Dict(entries.into_iter().map(|(k, v)| (k.to_string(), v)).collect())
}

fn list(items: Vec<DynValue>) -> DynValue {
    DynValue::List(items)
}

fn assert_is_default(config: &Config) {
    assert!(config.open_on_start);
    assert_eq!(config.keymap, "<M-d>");
    assert_eq!(config.header.text, "Welcome to Neovim!");
    assert_eq!(config.header.alignment, ElementAlignment::Center);
    assert_eq!(config.sub_header.text, "==================");
    assert_eq!(config.sub_header.alignment, ElementAlignment::Center);
    assert_eq!(config.footer.text, "created with Rust by RAprogramm");
    assert_eq!(config.footer.alignment, ElementAlignment::Center);
    assert_eq!(config.buttons.alignment, ElementAlignment::Center);
    let items: Vec<(&str, &str, &str)> = config
        .buttons
        .items
        .iter()
        .map(|(a, b, c)| (a.as_str(), b.as_str(), c.as_str()))
        .collect();
    assert_eq!(
        items,
        vec![
            ("Create new file", "\u{ea7f}", "edit new_file.txt"),
            ("Find file", "\u{ea6d}", "Telescope find_files"),
            ("Recent files", "\u{ea82}", "Telescope oldfiles"),
            ("Exit", "\u{f426}", "qall"),
        ]
    );
    assert!(config.highlights.header.is_none());
    assert!(config.highlights.sub_header.is_none());
    assert!(config.highlights.button.is_none());
    assert!(config.highlights.footer.is_none());
    assert!(config.highlights.empty_line.is_none());
    assert!(config.layout.rows.is_empty());
    assert_eq!(config.borders, "rounded");
    assert_eq!(config.keymaps.toggle_dashboard, "<leader>db");
    assert_eq!(config.keymaps.navigate_sections, "<Tab>");
    assert_eq!(config.keymaps.navigate_buttons, "<Down>");
    assert_eq!(config.keymaps.execute_button, "<Enter>");
}

#[test]
fn no_options_give_the_default_configuration() {
    assert_is_default(&Config::from_dict(&dict(vec![])));
    assert_is_default(&Config::from_dict(&DynValue::Nil));
    assert_is_default(&Config::from_dict(&s("not a mapping")));
    assert_is_default(&Config::default());
}

#[test]
fn the_default_values_written_out_give_the_default_configuration() {
    let defaults = Config::default();
    let items = defaults
        .buttons
        .items
        .iter()
        .map(|(a, b, c)| list(vec![s(a), s(b), s(c)]))
        .collect();
    let section = |text: &str| dict(vec![("text", s(text)), ("position", s("center"))]);
    let options = dict(vec![
        ("open_on_start", DynValue::Bool(defaults.open_on_start)),
        ("keymap", s(&defaults.keymap)),
        ("header", section(&defaults.header.text)),
        ("sub_header", section(&defaults.sub_header.text)),
        ("footer", section(&defaults.footer.text)),
        ("buttons", dict(vec![("items", list(items)), ("position", s("center"))])),
    ]);
    assert_is_default(&Config::from_dict(&options));
}

#[test]
fn options_of_the_wrong_type_fall_back_to_the_defaults() {
    let options = dict(vec![
        ("open_on_start", s("yes")),
        ("keymap", DynValue::Int(3)),
        ("header", list(vec![])),
        ("sub_header", dict(vec![("text", DynValue::Bool(true)), ("position", DynValue::Int(1))])),
        ("footer", DynValue::Other),
        ("buttons", dict(vec![("items", s("none")), ("position", DynValue::Nil)])),
        ("layout", s("flat")),
        ("borders", DynValue::Bool(false)),
    ]);
    assert_is_default(&Config::from_dict(&options));
}

#[test]
fn options_override_the_defaults() {
    let options = dict(vec![
        ("open_on_start", DynValue::Bool(false)),
        ("keymap", s("<leader>h")),
        ("header", dict(vec![("text", s("Hello")), ("position", s("left"))])),
        ("sub_header", dict(vec![("position", s("right"))])),
        ("footer", dict(vec![("text", list(vec![s("a"), DynValue::Int(1), s("b")]))])),
        (
            "buttons",
            dict(vec![
                ("position", s("right")),
                (
                    "items",
                    list(vec![
                        list(vec![s("Quit"), s("q"), s("qa")]),
                        list(vec![s("two"), s("parts")]),
                        list(vec![s("a"), s("b"), DynValue::Int(3)]),
                        s("no tuple"),
                        list(vec![s("a"), s("b"), s("c"), s("d")]),
                        list(vec![s("Help"), s("?"), s("help")]),
                    ]),
                ),
            ]),
        ),
        ("borders", s("single")),
        ("toggle_dashboard", s("<F2>")),
    ]);
    let config = Config::from_dict(&options);
    assert!(!config.open_on_start);
    assert_eq!(config.keymap, "<leader>h");
    assert_eq!(config.header.text, "Hello");
    assert_eq!(config.header.alignment, ElementAlignment::Left);
    assert_eq!(config.sub_header.text, "==================");
    assert_eq!(config.sub_header.alignment, ElementAlignment::Right);
    assert_eq!(config.footer.text, "a\nb");
    assert_eq!(config.footer.alignment, ElementAlignment::Center);
    assert_eq!(config.buttons.alignment, ElementAlignment::Right);
    assert_eq!(
        config.buttons.items,
        vec![
            ("Quit".to_string(), "q".to_string(), "qa".to_string()),
            ("Help".to_string(), "?".to_string(), "help".to_string()),
        ]
    );
    assert_eq!(config.borders, "single");
    assert_eq!(config.keymaps.toggle_dashboard, "<F2>");
    assert_eq!(config.keymaps.execute_button, "<Enter>");
}

#[test]
fn an_empty_list_of_buttons_stays_empty() {
    let options = dict(vec![("buttons", dict(vec![("items", list(vec![]))]))]);
    assert!(Config::from_dict(&options).buttons.items.is_empty());
    assert!(parse_buttons_items(&vec![]).is_empty());
    assert_eq!(default_buttons_items().len(), 4);
}

#[test]
fn a_text_given_as_an_empty_list_is_empty() {
    let options = dict(vec![("header", dict(vec![("text", list(vec![]))]))]);
    assert_eq!(Config::from_dict(&options).header.text, "");
}

#[test]
fn of_two_entries_with_one_key_the_first_counts() {
    let options = dict(vec![("keymap", s("first")), ("keymap", s("second"))]);
    assert_eq!(Config::from_dict(&options).keymap, "first");
    assert!(matches!(options.get("keymap"), Some(DynValue::Str(k)) if k == "first"));
    assert!(options.get("other").is_none());
    assert!(DynValue::Nil.get("keymap").is_none());
}

#[test]
fn coercions_accept_one_kind_each() {
    assert_eq!(DynValue::Bool(true).as_bool(), Some(true));
    assert_eq!(DynValue::Int(1).as_bool(), None);
    assert_eq!(s("x").as_str(), Some("x"));
    assert_eq!(DynValue::Nil.as_str(), None);
    assert_eq!(DynValue::Int(42).as_usize(), Some(42));
    assert_eq!(DynValue::Int(0).as_usize(), Some(0));
    assert_eq!(DynValue::Int(-1).as_usize(), None);
    assert_eq!(DynValue::Int(i64::MAX).as_usize(), Some(i64::MAX as usize));
    assert_eq!(s("42").as_usize(), None);
    assert_eq!(DynValue::Other.as_usize(), None);
    assert_eq!(list(vec![DynValue::Nil]).as_list().map(|l| l.len()), Some(1));
    assert!(s("x").as_list().is_none());
    assert!(dict(vec![]).is_dict());
    assert!(!list(vec![]).is_dict());
}

#[test]
fn typed_options_fall_back_one_by_one() {
    let options = dict(vec![
        ("flag", DynValue::Bool(false)),
        ("count", DynValue::Int(7)),
        ("negative", DynValue::Int(-7)),
        ("name", s("n")),
    ]);
    assert!(!parse_bool_option(&options, "flag", true));
    assert!(parse_bool_option(&options, "count", true));
    assert!(parse_bool_option(&options, "missing", true));
    assert_eq!(parse_usize_option(&options, "count", 1), 7);
    assert_eq!(parse_usize_option(&options, "negative", 1), 1);
    assert_eq!(parse_usize_option(&options, "name", 1), 1);
    assert_eq!(parse_usize_option(&options, "missing", 9), 9);
    assert_eq!(parse_string_option(&options, "name", "d"), "n");
    assert_eq!(parse_string_option(&options, "flag", "d"), "d");
    assert_eq!(parse_string_option(&options, "missing", "d"), "d");
}

#[test]
fn keymaps_have_their_defaults() {
    let keys = Keymaps::from_dict(&dict(vec![("navigate_buttons", s("j"))]));
    assert_eq!(keys.toggle_dashboard, "<leader>db");
    assert_eq!(keys.navigate_sections, "<Tab>");
    assert_eq!(keys.navigate_buttons, "j");
    assert_eq!(keys.execute_button, "<Enter>");
}

#[test]
fn highlights_are_read_from_a_mapping_only() {
    assert!(parse_highlights(&dict(vec![])).is_none());
    assert!(parse_highlights(&dict(vec![("highlights", s("red"))])).is_none());
    let h = parse_highlights(&dict(vec![("highlights", dict(vec![("fg", s("#112233"))]))]));
    let h = h.unwrap();
    assert_eq!(h.fg, "#112233");
    assert_eq!(h.bg, "#000000");
    let h = parse_highlights(&dict(vec![("highlights", dict(vec![]))])).unwrap();
    assert_eq!((h.fg.as_str(), h.bg.as_str()), ("#FFFFFF", "#000000"));
}

fn custom_message(result: Result<LayoutContent, PluginError>) -> String {
    match result {
        Err(PluginError::Custom(message)) => message,
        _ => panic!("expected a custom error"),
    }
}

#[test]
fn content_without_a_readable_type_is_refused() {
    assert_eq!(
        custom_message(LayoutContent::from_dict(&dict(vec![]))),
        "Failed to get 'content' from dictionary: Custom error: 'content' field is missing"
    );
    assert_eq!(
        custom_message(LayoutContent::from_dict(&dict(vec![("content", s("text"))]))),
        "Failed to convert 'content' to Dictionary: expected a dictionary"
    );
    assert_eq!(
        custom_message(LayoutContent::from_dict(&dict(vec![("content", dict(vec![]))]))),
        "Failed to get 'type' field from content dictionary: Custom error: 'type' field is missing"
    );
    assert_eq!(
        custom_message(LayoutContent::from_dict(&dict(vec![(
            "content",
            dict(vec![("type", DynValue::Int(1))])
        )]))),
        "Failed to convert 'type' to string: expected a string"
    );
    assert_eq!(
        custom_message(LayoutContent::from_dict(&dict(vec![(
            "content",
            dict(vec![("type", s("image"))])
        )]))),
        "Unknown content type: image"
    );
}

#[test]
fn text_content_has_lines_and_an_alignment() {
    let content = LayoutContent::from_dict(&dict(vec![(
        "content",
        dict(vec![
            ("type", s("text")),
            ("value", list(vec![s("one"), DynValue::Bool(true), s("two")])),
            ("alignment", dict(vec![("horizontal", s("right")), ("vertical", s("top"))])),
        ]),
    )]))
    .unwrap();
    match content {
        LayoutContent::Text(t) => {
            assert_eq!(t.value, vec!["one", "two"]);
            assert_eq!(
                t.alignment,
                Alignment {
                    horizontal: HorizontalAlignment::Right,
                    vertical: VerticalAlignment::Top
                }
            );
        },
        _ => panic!("expected a text"),
    }
    let content =
        LayoutContent::from_dict(&dict(vec![("content", dict(vec![("type", s("text"))]))]))
            .unwrap();
    match content {
        LayoutContent::Text(t) => {
            assert_eq!(t.value, vec!["Default Text"]);
            assert_eq!(t.alignment, Alignment::default());
            assert_eq!(t.alignment.horizontal, HorizontalAlignment::Center);
            assert_eq!(t.alignment.vertical, VerticalAlignment::Middle);
        },
        _ => panic!("expected a text"),
    }
    let content = LayoutContent::from_dict(&dict(vec![(
        "content",
        dict(vec![
            ("type", s("text")),
            ("alignment", dict(vec![("horizontal", s("left")), ("vertical", s("bottom"))])),
        ]),
    )]))
    .unwrap();
    assert!(matches!(content, LayoutContent::Text(t)
        if t.alignment.horizontal == HorizontalAlignment::Left
            && t.alignment.vertical == VerticalAlignment::Bottom));
}

#[test]
fn buttons_content_reads_each_mapping_as_a_button() {
    let content = LayoutContent::from_dict(&dict(vec![(
        "content",
        dict(vec![
            ("type", s("buttons")),
            (
                "items",
                list(vec![
                    dict(vec![
                        ("label", s("Save")),
                        ("command", s(":w")),
                        ("icon", s("S")),
                        ("highlights", dict(vec![("bg", s("#222222"))])),
                    ]),
                    s("skipped"),
                    dict(vec![("command", s("require('x').go()"))]),
                    dict(vec![("command", DynValue::Int(1))]),
                    dict(vec![("command", s(""))]),
                ]),
            ),
        ]),
    )]))
    .unwrap();
    let items = match content {
        LayoutContent::Buttons(b) => b.items,
        _ => panic!("expected buttons"),
    };
    assert_eq!(items.len(), 4);
    assert_eq!(items[0].label, "Save");
    assert!(matches!(&items[0].command, Command::VimCommand(c) if c == ":w"));
    assert_eq!(items[0].icon.as_deref(), Some("S"));
    assert_eq!(items[0].highlights.fg, "#FFFFFF");
    assert_eq!(items[0].highlights.bg, "#222222");
    assert_eq!(items[1].label, "");
    assert!(matches!(&items[1].command, Command::LuaFunction(c) if c == "require('x').go()"));
    assert_eq!(items[1].icon, None);
    assert_eq!(items[1].highlights.bg, "#000000");
    assert!(matches!(&items[2].command, Command::VimCommand(c) if c.is_empty()));
    assert!(matches!(&items[3].command, Command::LuaFunction(c) if c.is_empty()));
    assert!(matches!(Command::default(), Command::VimCommand(c) if c.is_empty()));
    assert!(matches!(LayoutContent::default(), LayoutContent::Text(t) if t.value.is_empty()));
    let none = LayoutContent::from_dict(&dict(vec![(
        "content",
        dict(vec![("type", s("buttons")), ("items", s("x"))]),
    )]))
    .unwrap();
    assert!(matches!(none, LayoutContent::Buttons(b) if b.items.is_empty()));
}

#[test]
fn content_is_shown_as_one_text() {
    let text = LayoutContent::from_dict(&dict(vec![(
        "content",
        dict(vec![("type", s("text")), ("value", list(vec![s("one"), s("two")]))]),
    )]))
    .unwrap();
    assert_eq!(text.get_text(), "one\ntwo");
    let buttons = LayoutContent::from_dict(&dict(vec![(
        "content",
        dict(vec![
            ("type", s("buttons")),
            (
                "items",
                list(vec![dict(vec![("label", s("Save"))]), dict(vec![("label", s("Quit"))])]),
            ),
        ]),
    )]))
    .unwrap();
    assert_eq!(buttons.get_text(), "Save\nQuit");
    assert_eq!(LayoutContent::default().get_text(), "");
}

fn text_content(line: &str) -> DynValue {
    dict(vec![("type", s("text")), ("value", list(vec![s(line)]))])
}

fn sample_layout() -> DynValue {
    dict(vec![(
        "layout",
        dict(vec![(
            "rows",
            list(vec![
                dict(vec![
                    ("content", text_content("top")),
                    ("height", s("20%")),
                    ("priority", DynValue::Int(3)),
                    ("hide_on_resize", DynValue::Bool(true)),
                ]),
                DynValue::Int(5),
                dict(vec![(
                    "columns",
                    list(vec![
                        dict(vec![
                            ("width", s("30%")),
                            ("content", text_content("left")),
                            ("active", DynValue::Bool(true)),
                            ("highlights", dict(vec![("fg", s("#ABCDEF"))])),
                        ]),
                        dict(vec![
                            (
                                "rows",
                                list(vec![
                                    dict(vec![("content", text_content("inner row"))]),
                                    dict(vec![("height", s("1"))]),
                                    dict(vec![(
                                        "columns",
                                        list(vec![dict(vec![("width", s("5"))])]),
                                    )]),
                                ]),
                            ),
                            (
                                "columns",
                                list(vec![
                                    dict(vec![("width", s("10%"))]),
                                    dict(vec![("content", text_content("inner column"))]),
                                    s("skipped"),
                                ]),
                            ),
                        ]),
                        dict(vec![]),
                    ]),
                )]),
                dict(vec![]),
            ]),
        )]),
    )])
}

#[test]
fn a_layout_is_read_with_its_nested_rows_and_columns() {
    let layout = DashboardLayout::from_dict(&sample_layout());
    assert_eq!(layout.rows.len(), 3);
    let top = &layout.rows[0];
    assert!(top.content.is_some());
    assert_eq!(top.width, "100%");
    assert_eq!(top.height, "20%");
    assert_eq!(top.priority, Some(3));
    assert_eq!(top.hide_on_resize, Some(true));
    assert!(top.columns.is_empty());

    let middle = &layout.rows[1];
    assert!(middle.content.is_none());
    assert_eq!(middle.priority, Some(1));
    assert_eq!(middle.hide_on_resize, Some(false));
    assert_eq!(middle.columns.len(), 3);
    let left = &middle.columns[0];
    assert_eq!(left.width, "30%");
    assert_eq!(left.height, "100%");
    assert!(left.active);
    assert_eq!(left.highlights.as_ref().map(|h| h.fg.as_str()), Some("#ABCDEF"));
    assert!(left.rows.is_empty() && left.columns.is_empty());

    let nest = &middle.columns[1];
    assert!(!nest.active);
    assert!(nest.highlights.is_none());
    assert_eq!(nest.rows.len(), 2);
    assert!(nest.rows[0].content.is_some());
    assert!(nest.rows[1].content.is_none());
    assert_eq!(nest.rows[1].columns.len(), 1);
    assert_eq!(nest.rows[1].columns[0].width, "5");
    assert_eq!(nest.columns.len(), 1);
    assert!(nest.columns[0].content.is_some());

    let bare = &middle.columns[2];
    assert!(bare.content.is_none() && bare.rows.is_empty() && bare.columns.is_empty());
    assert!(layout.rows[2].content.is_none() && layout.rows[2].columns.is_empty());
}

#[test]
fn options_without_a_list_of_rows_give_an_empty_layout() {
    assert!(DashboardLayout::from_dict(&dict(vec![])).rows.is_empty());
    assert!(DashboardLayout::from_dict(&dict(vec![("layout", s("x"))])).rows.is_empty());
    assert!(DashboardLayout::from_dict(&dict(vec![("layout", dict(vec![("rows", s("x"))]))]))
        .rows
        .is_empty());
    assert!(DashboardLayout::default().rows.is_empty());
}

#[test]
fn widgets_are_the_rows_and_columns_with_content() {
    let dashboard = LayoutDashboard::new(Config::from_dict(&sample_layout()));
    assert_eq!(dashboard.count_widgets(), Some(4));
    assert_eq!(LayoutDashboard::new(Config::default()).count_widgets(), Some(0));
}

#[test]
fn toggling_the_layout_dashboard_turns_its_flag_over() {
    let mut dashboard = LayoutDashboard::new(Config::default());
    assert!(dashboard.config.open_on_start);
    assert!(!dashboard.toggle_dashboard());
    assert!(!dashboard.config.open_on_start);
    assert!(dashboard.toggle_dashboard());
    assert!(dashboard.config.open_on_start);
    assert_eq!(dashboard.config.keymap, "<M-d>");
}

#[test]
fn a_column_builder_starts_from_the_defaults() {
    let column = ColumnBuilder::new().build();
    assert_eq!(column.width, "100%");
    assert_eq!(column.height, "100%");
    assert!(column.content.is_none());
    assert!(column.rows.is_empty());
    assert!(column.columns.is_empty());
    assert!(!column.active);
    assert!(column.highlights.is_none());
    assert_eq!(column.priority, Some(1));
    assert_eq!(column.hide_on_resize, Some(false));
}

#[test]
fn a_column_builder_sets_field_by_field() {
    let inner = ColumnBuilder::new().width("1".to_string()).build();
    let column = ColumnBuilder::new()
        .width("40%".to_string())
        .height("12".to_string())
        .content(Some(LayoutContent::default()))
        .rows(vec![])
        .columns(vec![inner])
        .active(true)
        .highlights(parse_highlights(&dict(vec![("highlights", dict(vec![]))])))
        .priority(5)
        .hide_on_resize(true)
        .build();
    assert_eq!(column.width, "40%");
    assert_eq!(column.height, "12");
    assert!(column.content.is_some());
    assert!(column.rows.is_empty());
    assert_eq!(column.columns.len(), 1);
    assert_eq!(column.columns[0].width, "1");
    assert!(column.active);
    assert_eq!(column.highlights.map(|h| h.fg), Some("#FFFFFF".to_string()));
    assert_eq!(column.priority, Some(5));
    assert_eq!(column.hide_on_resize, Some(true));
}

//! What a part of the layout shows: a text or a list of buttons.
use crate::config::defaults::{DEFAULT_BACKGROUND, DEFAULT_FOREGROUND, DEFAULT_TEXT};
use crate::config::highlights::{
    default_highlights, highlights_of, parse_highlights, Highlights, HighlightsView,
};
use crate::config::value::DynValue;
use crate::config::{parse_string_option, string_option, strings_of};
use crate::error::{handle_error, with_context, PluginError, PluginErrorView};
use crate::text::{join_lines, joined, str_eq, views};
use vstd::prelude::*;
use vstd::string::*;

verus! {

/// Where a text stands from left to right.
#[derive(Clone, Copy, Debug, PartialEq, Eq, Structural)]
pub enum HorizontalAlignment {
    Left,
    Center,
    Right,
}

/// Where a text stands from top to bottom.
#[derive(Clone, Copy, Debug, PartialEq, Eq, Structural)]
pub enum VerticalAlignment {
    Top,
    Middle,
    Bottom,
}

/// Where a text stands in its part of the layout.
#[derive(Clone, Copy, Debug, PartialEq, Eq, Structural)]
pub struct Alignment {
    pub horizontal: HorizontalAlignment,
    pub vertical: VerticalAlignment,
}

impl Default for HorizontalAlignment {
    fn default() -> (r: Self)
        ensures
            r == HorizontalAlignment::Center,
    {
        HorizontalAlignment::Center
    }
}

impl Default for VerticalAlignment {
    fn default() -> (r: Self)
        ensures
            r == VerticalAlignment::Middle,
    {
        VerticalAlignment::Middle
    }
}

impl Default for Alignment {
    fn default() -> (r: Self)
        ensures
            r == (Alignment {
                horizontal: HorizontalAlignment::Center,
                vertical: VerticalAlignment::Middle,
            }),
    {
        Alignment { horizontal: HorizontalAlignment::Center, vertical: VerticalAlignment::Middle }
    }
}

/// What the button of a layout runs: a command of the editor, or a function
/// of its scripting language.
#[derive(Debug)]
pub enum Command {
    VimCommand(String),
    LuaFunction(String),
}

/// A `Command` as a mathematical value.
pub enum CommandView {
    VimCommand(Seq<char>),
    LuaFunction(Seq<char>),
}

impl View for Command {
    type V = CommandView;

    open spec fn view(&self) -> CommandView {
        match self {
            Command::VimCommand(c) => CommandView::VimCommand(c@),
            Command::LuaFunction(c) => CommandView::LuaFunction(c@),
        }
    }
}

impl Default for Command {
    fn default() -> (r: Self)
        ensures
            r@ == CommandView::VimCommand(Seq::<char>::empty()),
    {
        Command::VimCommand(String::new())
    }
}

/// A button of a layout.
#[derive(Debug)]
pub struct Button {
    pub label: String,
    pub command: Command,
    pub icon: Option<String>,
    pub highlights: Highlights,
}

/// A `Button` as a mathematical value.
pub struct ButtonView {
    pub label: Seq<char>,
    pub command: CommandView,
    pub icon: Option<Seq<char>>,
    pub highlights: HighlightsView,
}

impl View for Button {
    type V = ButtonView;

    open spec fn view(&self) -> ButtonView {
        ButtonView {
            label: self.label@,
            command: self.command@,
            icon: match self.icon {
                Some(i) => Some(i@),
                None => None,
            },
            highlights: self.highlights@,
        }
    }
}

/// The lines of a text and where they stand.
#[derive(Debug)]
pub struct TextContent {
    pub value: Vec<String>,
    pub alignment: Alignment,
}

/// The buttons of a part of the layout.
#[derive(Debug)]
pub struct ButtonsContent {
    pub items: Vec<Button>,
}

/// What a part of the layout shows.
#[derive(Debug)]
pub enum Content {
    Text(TextContent),
    Buttons(ButtonsContent),
}

/// `Content` as a mathematical value.
pub enum ContentView {
    Text { value: Seq<Seq<char>>, alignment: Alignment },
    Buttons { items: Seq<ButtonView> },
}

/// The views of a list of buttons.
pub open spec fn button_views(items: Seq<Button>) -> Seq<ButtonView> {
    Seq::new(items.len(), |i: int| items[i]@)
}

impl View for Content {
    type V = ContentView;

    open spec fn view(&self) -> ContentView {
        match self {
            Content::Text(t) => ContentView::Text { value: views(t.value@), alignment: t.alignment },
            Content::Buttons(b) => ContentView::Buttons { items: button_views(b.items@) },
        }
    }
}

/// The view of optional content.
pub open spec fn content_view(c: Option<Content>) -> Option<ContentView> {
    match c {
        Some(c) => Some(c@),
        None => None,
    }
}

/// The lines of a text: the texts of the list under `"value"`, or one line
/// of default text where there is no list.
pub open spec fn text_value_of(dict: DynValue) -> Seq<Seq<char>> {
    match dict.get_spec("value"@) {
        Some(DynValue::List(items)) => strings_of(items@),
        _ => seq![DEFAULT_TEXT@],
    }
}

/// The word under `key` in the mapping under `"alignment"`.
pub open spec fn alignment_word(dict: DynValue, key: Seq<char>) -> Option<Seq<char>> {
    match dict.get_spec("alignment"@) {
        Some(inner) => match inner.get_spec(key) {
            Some(DynValue::Str(s)) => Some(s@),
            _ => None,
        },
        None => None,
    }
}

/// The alignment that a mapping describes: `"left"` and `"right"`, `"top"`
/// and `"bottom"` name their sides; anything else is the middle.
pub open spec fn alignment_of(dict: DynValue) -> Alignment {
    Alignment {
        horizontal: match alignment_word(dict, "horizontal"@) {
            Some(w) => if w == "left"@ {
                HorizontalAlignment::Left
            } else if w == "right"@ {
                HorizontalAlignment::Right
            } else {
                HorizontalAlignment::Center
            },
            None => HorizontalAlignment::Center,
        },
        vertical: match alignment_word(dict, "vertical"@) {
            Some(w) => if w == "top"@ {
                VerticalAlignment::Top
            } else if w == "bottom"@ {
                VerticalAlignment::Bottom
            } else {
                VerticalAlignment::Middle
            },
            None => VerticalAlignment::Middle,
        },
    }
}

/// The command that a mapping describes: a text under `"command"` that
/// begins with a colon is a command of the editor, any other text a
/// function; without a text it is the empty command.
pub open spec fn command_of(dict: DynValue) -> CommandView {
    match dict.get_spec("command"@) {
        Some(DynValue::Str(s)) => if s@.len() > 0 && s@[0] == ':' {
            CommandView::VimCommand(s@)
        } else {
            CommandView::LuaFunction(s@)
        },
        _ => CommandView::VimCommand(Seq::<char>::empty()),
    }
}

/// The button that a mapping describes.
pub open spec fn button_of(dict: DynValue) -> ButtonView {
    ButtonView {
        label: string_option(dict, "label"@, ""@),
        command: command_of(dict),
        icon: match dict.get_spec("icon"@) {
            Some(DynValue::Str(s)) => Some(s@),
            _ => None,
        },
        highlights: match highlights_of(dict) {
            Some(h) => h,
            None => default_highlights(),
        },
    }
}

/// The buttons that the mappings among the items describe, in order.
pub open spec fn buttons_among(items: Seq<DynValue>) -> Seq<ButtonView>
    decreases items.len(),
{
    if items.len() == 0 {
        Seq::<ButtonView>::empty()
    } else {
        let before = buttons_among(items.drop_last());
        if items.last() is Dict {
            before.push(button_of(items.last()))
        } else {
            before
        }
    }
}

/// The buttons of the list under `"items"`; none where there is no list.
pub open spec fn button_items_of(dict: DynValue) -> Seq<ButtonView> {
    match dict.get_spec("items"@) {
        Some(DynValue::List(items)) => buttons_among(items@),
        _ => Seq::<ButtonView>::empty(),
    }
}

/// The message of the failure to find a field.
pub open spec fn missing_field(context: Seq<char>, field: Seq<char>) -> PluginErrorView {
    PluginErrorView::Custom(
        with_context(context, PluginErrorView::Custom("'"@ + field + "' field is missing"@).message()),
    )
}

/// The message of the failure to read a field as the type it must have.
pub open spec fn wrong_type(context: Seq<char>, expected: Seq<char>) -> PluginErrorView {
    PluginErrorView::Custom(with_context(context, "expected "@ + expected))
}

/// The message for a content type that is neither `"text"` nor `"buttons"`.
pub open spec fn unknown_type(name: Seq<char>) -> PluginErrorView {
    PluginErrorView::Custom("Unknown content type: "@ + name)
}

/// The content that a mapping describes under `"content"`, or why it
/// describes none.
pub open spec fn content_of(dict: DynValue) -> Result<ContentView, PluginErrorView> {
    match dict.get_spec("content"@) {
        None => Err(missing_field("Failed to get 'content' from dictionary"@, "content"@)),
        Some(inner) => if !(inner is Dict) {
            Err(wrong_type("Failed to convert 'content' to Dictionary"@, "a dictionary"@))
        } else {
            match inner.get_spec("type"@) {
                None => Err(
                    missing_field("Failed to get 'type' field from content dictionary"@, "type"@),
                ),
                Some(DynValue::Str(name)) => if name@ == "text"@ {
                    Ok(
                        ContentView::Text {
                            value: text_value_of(inner),
                            alignment: alignment_of(inner),
                        },
                    )
                } else if name@ == "buttons"@ {
                    Ok(ContentView::Buttons { items: button_items_of(inner) })
                } else {
                    Err(unknown_type(name@))
                },
                Some(_) => Err(wrong_type("Failed to convert 'type' to string"@, "a string"@)),
            }
        },
    }
}

/// The content that a mapping describes, and none where it describes none.
pub open spec fn content_if_any(dict: DynValue) -> Option<ContentView> {
    match content_of(dict) {
        Ok(c) => Some(c),
        Err(_) => None,
    }
}

/// Reads the lines of a text.
fn parse_text_value(dict: &DynValue) -> (r: Vec<String>)
    ensures
        views(r@) == text_value_of(*dict),
{
    match dict.get("value") {
        Some(DynValue::List(items)) => {
            let mut parts: Vec<String> = Vec::new();
            let mut i: usize = 0;
            proof {
                assert(items@.take(0) =~= Seq::<DynValue>::empty());
                assert(views(parts@) =~= strings_of(items@.take(0)));
            }
            while i < items.len()
                invariant
                    i <= items.len(),
                    views(parts@) == strings_of(items@.take(i as int)),
                decreases items.len() - i,
            {
                proof {
                    assert(items@.take(i + 1).drop_last() =~= items@.take(i as int));
                }
                let ghost before = views(parts@);
                match &items[i] {
                    DynValue::Str(s) => {
                        parts.push(s.clone());
                        proof {
                            assert(views(parts@) =~= before.push(s@));
                        }
                    },
                    _ => {},
                }
                i = i + 1;
            }
            proof {
                assert(items@.take(items.len() as int) =~= items@);
            }
            parts
        },
        _ => {
            let mut parts: Vec<String> = Vec::new();
            parts.push(DEFAULT_TEXT.to_owned());
            proof {
                assert(views(parts@) =~= seq![DEFAULT_TEXT@]);
            }
            parts
        },
    }
}

/// Reads the word under `key` in the mapping under `"alignment"`.
fn parse_alignment_word<'a>(dict: &'a DynValue, key: &str) -> (r: Option<&'a str>)
    ensures
        match r {
            Some(w) => alignment_word(*dict, key@) == Some(w@),
            None => alignment_word(*dict, key@) is None,
        },
{
    match dict.get("alignment") {
        Some(inner) => match inner.get(key) {
            Some(DynValue::Str(s)) => Some(s.as_str()),
            _ => None,
        },
        None => None,
    }
}

/// Reads an alignment.
fn parse_alignment(dict: &DynValue) -> (r: Alignment)
    ensures
        r == alignment_of(*dict),
{
    let horizontal = match parse_alignment_word(dict, "horizontal") {
        Some(w) => if str_eq(w, "left") {
            HorizontalAlignment::Left
        } else if str_eq(w, "right") {
            HorizontalAlignment::Right
        } else {
            HorizontalAlignment::Center
        },
        None => HorizontalAlignment::Center,
    };
    let vertical = match parse_alignment_word(dict, "vertical") {
        Some(w) => if str_eq(w, "top") {
            VerticalAlignment::Top
        } else if str_eq(w, "bottom") {
            VerticalAlignment::Bottom
        } else {
            VerticalAlignment::Middle
        },
        None => VerticalAlignment::Middle,
    };
    Alignment { horizontal, vertical }
}

/// Reads a command.
fn parse_command(dict: &DynValue) -> (r: Command)
    ensures
        r@ == command_of(*dict),
{
    match dict.get("command") {
        Some(DynValue::Str(s)) => {
            let text = s.as_str();
            if text.unicode_len() > 0 && text.get_char(0) == ':' {
                Command::VimCommand(s.clone())
            } else {
                Command::LuaFunction(s.clone())
            }
        },
        _ => Command::VimCommand(String::new()),
    }
}

/// Reads one button.
fn parse_button(dict: &DynValue) -> (r: Button)
    ensures
        r@ == button_of(*dict),
{
    let icon = match dict.get("icon") {
        Some(DynValue::Str(s)) => Some(s.clone()),
        _ => None,
    };
    let highlights = match parse_highlights(dict) {
        Some(h) => h,
        None => Highlights { fg: DEFAULT_FOREGROUND.to_owned(), bg: DEFAULT_BACKGROUND.to_owned() },
    };
    Button {
        label: parse_string_option(dict, "label", ""),
        command: parse_command(dict),
        icon,
        highlights,
    }
}

/// Reads the buttons of the list under `"items"`.
fn parse_buttons_items(dict: &DynValue) -> (r: Vec<Button>)
    ensures
        button_views(r@) == button_items_of(*dict),
{
    let mut out: Vec<Button> = Vec::new();
    match dict.get("items") {
        Some(DynValue::List(items)) => {
            let mut i: usize = 0;
            proof {
                assert(items@.take(0) =~= Seq::<DynValue>::empty());
                assert(button_views(out@) =~= buttons_among(items@.take(0)));
            }
            while i < items.len()
                invariant
                    i <= items.len(),
                    button_views(out@) == buttons_among(items@.take(i as int)),
                decreases items.len() - i,
            {
                proof {
                    assert(items@.take(i + 1).drop_last() =~= items@.take(i as int));
                }
                let ghost before = button_views(out@);
                if items[i].is_dict() {
                    let button = parse_button(&items[i]);
                    let ghost shown = button@;
                    out.push(button);
                    proof {
                        assert(button_views(out@) =~= before.push(shown));
                    }
                }
                i = i + 1;
            }
            proof {
                assert(items@.take(items.len() as int) =~= items@);
            }
            out
        },
        _ => {
            proof {
                assert(button_views(out@) =~= Seq::<ButtonView>::empty());
            }
            out
        },
    }
}

impl Default for Content {
    fn default() -> (r: Self)
        ensures
            r@ == (ContentView::Text {
                value: Seq::<Seq<char>>::empty(),
                alignment: Alignment {
                    horizontal: HorizontalAlignment::Center,
                    vertical: VerticalAlignment::Middle,
                },
            }),
    {
        let value: Vec<String> = Vec::new();
        proof {
            assert(views(value@) =~= Seq::<Seq<char>>::empty());
        }
        Content::Text(TextContent { value, alignment: Alignment::default() })
    }
}

/// The labels of a list of buttons.
pub open spec fn labels_of(items: Seq<ButtonView>) -> Seq<Seq<char>> {
    Seq::new(items.len(), |i: int| items[i].label)
}

impl ContentView {
    /// The content as one text: the lines of a text, or the labels of the
    /// buttons, joined by line feeds.
    pub open spec fn text(self) -> Seq<char> {
        match self {
            ContentView::Text { value, alignment } => joined(value),
            ContentView::Buttons { items } => joined(labels_of(items)),
        }
    }
}

impl Content {
    /// The content as one text, as a widget shows it.
    pub fn get_text(&self) -> (r: String)
        ensures
            r@ == self@.text(),
    {
        match self {
            Content::Text(t) => join_lines(&t.value),
            Content::Buttons(b) => {
                let mut labels: Vec<String> = Vec::new();
                let mut i: usize = 0;
                while i < b.items.len()
                    invariant
                        i <= b.items.len(),
                        labels.len() == i,
                        forall|j: int| 0 <= j < i ==> (#[trigger] labels[j])@ == b.items[j].label@,
                    decreases b.items.len() - i,
                {
                    labels.push(b.items[i].label.clone());
                    i = i + 1;
                }
                proof {
                    assert(views(labels@) =~= labels_of(button_views(b.items@)));
                }
                join_lines(&labels)
            },
        }
    }

    /// Reads the content that a mapping describes under `"content"`. It
    /// fails where the mapping has no content, where the content is no
    /// mapping, and where its `"type"` is missing, no text, or neither
    /// `"text"` nor `"buttons"`.
    pub fn from_dict(dict: &DynValue) -> (r: Result<Self, PluginError>)
        ensures
            match r {
                Ok(c) => content_of(*dict) == Ok::<ContentView, PluginErrorView>(c@),
                Err(e) => content_of(*dict) == Err::<ContentView, PluginErrorView>(e@),
            },
    {
        let inner = match dict.get("content") {
            Some(inner) => inner,
            None => {
                let missing: Result<Content, String> = Err(
                    PluginError::custom("'content' field is missing").message(),
                );
                proof {
                    reveal_strlit("'content' field is missing");
                    reveal_strlit("content");
                    reveal_strlit("'");
                    reveal_strlit("' field is missing");
                    assert("'content' field is missing"@ =~= "'"@ + "content"@
                        + "' field is missing"@);
                }
                return handle_error(missing, "Failed to get 'content' from dictionary");
            },
        };
        if !inner.is_dict() {
            let wrong: Result<Content, String> = Err("expected ".to_owned().concat("a dictionary"));
            return handle_error(wrong, "Failed to convert 'content' to Dictionary");
        }
        let name = match inner.get("type") {
            Some(DynValue::Str(name)) => name,
            Some(_) => {
                let wrong: Result<Content, String> = Err("expected ".to_owned().concat("a string"));
                return handle_error(wrong, "Failed to convert 'type' to string");
            },
            None => {
                let missing: Result<Content, String> = Err(
                    PluginError::custom("'type' field is missing").message(),
                );
                proof {
                    reveal_strlit("'type' field is missing");
                    reveal_strlit("type");
                    reveal_strlit("'");
                    reveal_strlit("' field is missing");
                    assert("'type' field is missing"@ =~= "'"@ + "type"@ + "' field is missing"@);
                }
                return handle_error(missing, "Failed to get 'type' field from content dictionary");
            },
        };
        if str_eq(name.as_str(), "text") {
            Ok(
                Content::Text(
                    TextContent { value: parse_text_value(inner), alignment: parse_alignment(inner) },
                ),
            )
        } else if str_eq(name.as_str(), "buttons") {
            Ok(Content::Buttons(ButtonsContent { items: parse_buttons_items(inner) }))
        } else {
            Err(PluginError::Custom("Unknown content type: ".to_owned().concat(name.as_str())))
        }
    }
}

} // verus!

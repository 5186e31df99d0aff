//! The configuration of the plugin and how it is read from the options that
//! the user hands to `setup`.
use crate::config::defaults::DEFAULT_BORDERS;
use crate::config::keymaps::{keymaps_of, Keymaps, KeymapsView};
use crate::config::layout::{layout_of, DashboardLayout, RowView};
use crate::config::value::DynValue;
use crate::content::{parse_position, position_of, ElementAlignment};
use crate::highlights::{role_highlights_of, RoleHighlights, RoleHighlightsView};
use crate::defaults::{
    default_button_triples, default_buttons_items, triple_views, DEFAULT_AUTO_OPEN,
    DEFAULT_FOOTER_TEXT, DEFAULT_HEADER_TEXT, DEFAULT_KEYMAP, DEFAULT_SUB_HEADER_TEXT,
};
use crate::text::{join_lines, joined, views};
use vstd::prelude::*;
use vstd::string::*;

pub mod content;
pub mod defaults;
pub mod highlights;
pub mod keymaps;
pub mod layout;
pub mod value;

verus! {

/// A text of the dashboard and where it stands.
#[derive(Debug)]
pub struct TextSection {
    pub text: String,
    pub alignment: ElementAlignment,
}

/// A `TextSection` as a mathematical value.
pub struct TextSectionView {
    pub text: Seq<char>,
    pub alignment: ElementAlignment,
}

impl View for TextSection {
    type V = TextSectionView;

    open spec fn view(&self) -> TextSectionView {
        TextSectionView { text: self.text@, alignment: self.alignment }
    }
}

/// The buttons of the dashboard as `(title, icon, command)` triples, and
/// where they stand.
#[derive(Debug)]
pub struct ButtonsSection {
    pub items: Vec<(String, String, String)>,
    pub alignment: ElementAlignment,
}

/// A `ButtonsSection` as a mathematical value.
pub struct ButtonsSectionView {
    pub items: Seq<(Seq<char>, Seq<char>, Seq<char>)>,
    pub alignment: ElementAlignment,
}

impl View for ButtonsSection {
    type V = ButtonsSectionView;

    open spec fn view(&self) -> ButtonsSectionView {
        ButtonsSectionView { items: triple_views(self.items@), alignment: self.alignment }
    }
}

/// The configuration of the plugin.
#[derive(Debug)]
pub struct Config {
    pub open_on_start: bool,
    pub keymap: String,
    pub header: TextSection,
    pub sub_header: TextSection,
    pub footer: TextSection,
    pub buttons: ButtonsSection,
    pub highlights: RoleHighlights,
    pub layout: DashboardLayout,
    pub borders: String,
    pub keymaps: Keymaps,
}

/// A `Config` as a mathematical value.
pub struct ConfigView {
    pub open_on_start: bool,
    pub keymap: Seq<char>,
    pub header: TextSectionView,
    pub sub_header: TextSectionView,
    pub footer: TextSectionView,
    pub buttons: ButtonsSectionView,
    pub highlights: RoleHighlightsView,
    pub layout: Seq<RowView>,
    pub borders: Seq<char>,
    pub keymaps: KeymapsView,
}

impl View for Config {
    type V = ConfigView;

    open spec fn view(&self) -> ConfigView {
        ConfigView {
            open_on_start: self.open_on_start,
            keymap: self.keymap@,
            header: self.header@,
            sub_header: self.sub_header@,
            footer: self.footer@,
            buttons: self.buttons@,
            highlights: self.highlights@,
            layout: self.layout@,
            borders: self.borders@,
            keymaps: self.keymaps@,
        }
    }
}

/// The text under `key`, or the default where there is none.
pub open spec fn string_option(options: DynValue, key: Seq<char>, default: Seq<char>) -> Seq<char> {
    match options.get_spec(key) {
        Some(DynValue::Str(s)) => s@,
        _ => default,
    }
}

/// The truth value under `key`, or the default where there is none.
pub open spec fn bool_option(options: DynValue, key: Seq<char>, default: bool) -> bool {
    match options.get_spec(key) {
        Some(DynValue::Bool(b)) => b,
        _ => default,
    }
}

/// The number under `key`, or the default where there is none that a `usize`
/// holds.
pub open spec fn usize_option(options: DynValue, key: Seq<char>, default: usize) -> usize {
    match options.get_spec(key) {
        Some(v) => match v.usize_spec() {
            Some(n) => n,
            None => default,
        },
        None => default,
    }
}

/// Reads a text option.
pub fn parse_string_option(options: &DynValue, key: &str, default: &str) -> (r: String)
    ensures
        r@ == string_option(*options, key@, default@),
{
    match options.get(key) {
        Some(v) => match v.as_str() {
            Some(s) => s.to_owned(),
            None => default.to_owned(),
        },
        None => default.to_owned(),
    }
}

/// Reads a truth value option.
pub fn parse_bool_option(options: &DynValue, key: &str, default: bool) -> (r: bool)
    ensures
        r == bool_option(*options, key@, default),
{
    match options.get(key) {
        Some(v) => match v.as_bool() {
            Some(b) => b,
            None => default,
        },
        None => default,
    }
}

/// Reads a number option.
pub fn parse_usize_option(options: &DynValue, key: &str, default: usize) -> (r: usize)
    ensures
        r == usize_option(*options, key@, default),
{
    match options.get(key) {
        Some(v) => match v.as_usize() {
            Some(n) => n,
            None => default,
        },
        None => default,
    }
}

/// The texts among the items of a list, in order.
pub open spec fn strings_of(items: Seq<DynValue>) -> Seq<Seq<char>>
    decreases items.len(),
{
    if items.len() == 0 {
        Seq::<Seq<char>>::empty()
    } else {
        let before = strings_of(items.drop_last());
        match items.last() {
            DynValue::Str(s) => before.push(s@),
            _ => before,
        }
    }
}

/// The text of a section: the text under `"text"`, or the texts of the list
/// under it joined by line feeds, or the default.
pub open spec fn text_option(section: DynValue, default: Seq<char>) -> Seq<char> {
    match section.get_spec("text"@) {
        Some(DynValue::Str(s)) => s@,
        Some(DynValue::List(items)) => joined(strings_of(items@)),
        _ => default,
    }
}

/// The alignment of a section: that of the word under `"position"`, and the
/// centre where there is no word.
pub open spec fn position_option(section: DynValue) -> ElementAlignment {
    match section.get_spec("position"@) {
        Some(DynValue::Str(s)) => position_of(s@),
        _ => ElementAlignment::Center,
    }
}

/// The section under `key`, or nothing where there is none.
pub open spec fn section_of(options: DynValue, key: Seq<char>) -> DynValue {
    match options.get_spec(key) {
        Some(v) => v,
        None => DynValue::Nil,
    }
}

/// The text section under `key`.
pub open spec fn text_section(options: DynValue, key: Seq<char>, default: Seq<char>)
    -> TextSectionView {
    TextSectionView {
        text: text_option(section_of(options, key), default),
        alignment: position_option(section_of(options, key)),
    }
}

/// The triple that an item stands for: a list of exactly three texts.
pub open spec fn triple_of(item: DynValue) -> Option<(Seq<char>, Seq<char>, Seq<char>)> {
    match item {
        DynValue::List(parts) => if parts@.len() == 3 {
            match (parts@[0], parts@[1], parts@[2]) {
                (DynValue::Str(a), DynValue::Str(b), DynValue::Str(c)) => Some((a@, b@, c@)),
                _ => None,
            }
        } else {
            None
        },
        _ => None,
    }
}

/// The triples among the items of a list, in order; an item that is no
/// triple is left out.
pub open spec fn triples_of(items: Seq<DynValue>) -> Seq<(Seq<char>, Seq<char>, Seq<char>)>
    decreases items.len(),
{
    if items.len() == 0 {
        Seq::<(Seq<char>, Seq<char>, Seq<char>)>::empty()
    } else {
        let before = triples_of(items.drop_last());
        match triple_of(items.last()) {
            Some(t) => before.push(t),
            None => before,
        }
    }
}

/// The buttons section under `"buttons"`: the triples of the list under
/// `"items"`, or the default buttons where there is no list.
pub open spec fn buttons_section(options: DynValue) -> ButtonsSectionView {
    let section = section_of(options, "buttons"@);
    ButtonsSectionView {
        items: match section.get_spec("items"@) {
            Some(DynValue::List(items)) => triples_of(items@),
            _ => default_button_triples(),
        },
        alignment: position_option(section),
    }
}

/// The configuration that the options stand for. An option that is missing,
/// or has a type that the option does not accept, has its default.
pub open spec fn config_of(options: DynValue) -> ConfigView {
    ConfigView {
        open_on_start: bool_option(options, "open_on_start"@, DEFAULT_AUTO_OPEN),
        keymap: string_option(options, "keymap"@, DEFAULT_KEYMAP@),
        header: text_section(options, "header"@, DEFAULT_HEADER_TEXT@),
        sub_header: text_section(options, "sub_header"@, DEFAULT_SUB_HEADER_TEXT@),
        footer: text_section(options, "footer"@, DEFAULT_FOOTER_TEXT@),
        buttons: buttons_section(options),
        highlights: role_highlights_of(options),
        layout: layout_of(options),
        borders: string_option(options, "borders"@, DEFAULT_BORDERS@),
        keymaps: keymaps_of(options),
    }
}

/// The configuration without any option.
pub open spec fn default_config() -> ConfigView {
    ConfigView {
        open_on_start: DEFAULT_AUTO_OPEN,
        keymap: DEFAULT_KEYMAP@,
        header: TextSectionView { text: DEFAULT_HEADER_TEXT@, alignment: ElementAlignment::Center },
        sub_header: TextSectionView {
            text: DEFAULT_SUB_HEADER_TEXT@,
            alignment: ElementAlignment::Center,
        },
        footer: TextSectionView { text: DEFAULT_FOOTER_TEXT@, alignment: ElementAlignment::Center },
        buttons: ButtonsSectionView {
            items: default_button_triples(),
            alignment: ElementAlignment::Center,
        },
        highlights: RoleHighlights::none(),
        layout: Seq::<RowView>::empty(),
        borders: DEFAULT_BORDERS@,
        keymaps: keymaps_of(DynValue::Nil),
    }
}

/// Options that are no mapping, or a mapping without entries, stand for the
/// default configuration.
pub proof fn lemma_no_options_give_defaults(options: DynValue)
    requires
        options matches DynValue::Dict(entries) ==> entries@.len() == 0,
    ensures
        config_of(options) == default_config(),
{
}

/// Reads the text of a section.
fn parse_text(section: &DynValue, default: &str) -> (r: String)
    ensures
        r@ == text_option(*section, default@),
{
    match section.get("text") {
        Some(DynValue::Str(s)) => s.clone(),
        Some(DynValue::List(items)) => {
            let mut parts: Vec<String> = Vec::new();
            let mut i: usize = 0;
            proof {
                assert(items@.take(0) =~= Seq::<DynValue>::empty());
                assert(views(parts@) =~= strings_of(items@.take(0)));
            }
            while i < items.len()
                invariant
                    i <= items.len(),
                    views(parts@) == strings_of(items@.take(i as int)),
                decreases items.len() - i,
            {
                proof {
                    assert(items@.take(i + 1).drop_last() =~= items@.take(i as int));
                }
                let ghost before = views(parts@);
                match &items[i] {
                    DynValue::Str(s) => {
                        parts.push(s.clone());
                        proof {
                            assert(views(parts@) =~= before.push(s@));
                        }
                    },
                    _ => {},
                }
                i = i + 1;
            }
            proof {
                assert(items@.take(items.len() as int) =~= items@);
            }
            join_lines(&parts)
        },
        _ => default.to_owned(),
    }
}

/// Reads the alignment of a section.
fn parse_section_position(section: &DynValue) -> (r: ElementAlignment)
    ensures
        r == position_option(*section),
{
    match section.get("position") {
        Some(DynValue::Str(s)) => parse_position(s.as_str()),
        _ => ElementAlignment::Center,
    }
}

/// Reads the text section under `key`.
fn parse_text_section(options: &DynValue, key: &str, default: &str) -> (r: TextSection)
    ensures
        r@ == text_section(*options, key@, default@),
{
    let nothing = DynValue::Nil;
    let section = match options.get(key) {
        Some(v) => v,
        None => &nothing,
    };
    TextSection { text: parse_text(section, default), alignment: parse_section_position(section) }
}

/// Reads one item as a triple.
fn parse_triple(item: &DynValue) -> (r: Option<(String, String, String)>)
    ensures
        match r {
            Some(t) => triple_of(*item) == Some((t.0@, t.1@, t.2@)),
            None => triple_of(*item) is None,
        },
{
    match item {
        DynValue::List(parts) => {
            if parts.len() != 3 {
                return None;
            }
            match (&parts[0], &parts[1], &parts[2]) {
                (DynValue::Str(a), DynValue::Str(b), DynValue::Str(c)) => Some(
                    (a.clone(), b.clone(), c.clone()),
                ),
                _ => None,
            }
        },
        _ => None,
    }
}

/// Reads the triples among the items of a list.
pub fn parse_buttons_items(items: &Vec<DynValue>) -> (r: Vec<(String, String, String)>)
    ensures
        triple_views(r@) == triples_of(items@),
{
    let mut out: Vec<(String, String, String)> = Vec::new();
    let mut i: usize = 0;
    proof {
        assert(items@.take(0) =~= Seq::<DynValue>::empty());
        assert(triple_views(out@) =~= triples_of(items@.take(0)));
    }
    while i < items.len()
        invariant
            i <= items.len(),
            triple_views(out@) == triples_of(items@.take(i as int)),
        decreases items.len() - i,
    {
        proof {
            assert(items@.take(i + 1).drop_last() =~= items@.take(i as int));
        }
        let ghost before = triple_views(out@);
        match parse_triple(&items[i]) {
            Some(t) => {
                let ghost shown = (t.0@, t.1@, t.2@);
                out.push(t);
                proof {
                    assert(triple_views(out@) =~= before.push(shown));
                }
            },
            None => {},
        }
        i = i + 1;
    }
    proof {
        assert(items@.take(items.len() as int) =~= items@);
    }
    out
}

/// Reads the buttons section.
fn parse_buttons_section(options: &DynValue) -> (r: ButtonsSection)
    ensures
        r@ == buttons_section(*options),
{
    let nothing = DynValue::Nil;
    let section = match options.get("buttons") {
        Some(v) => v,
        None => &nothing,
    };
    let items = match section.get("items") {
        Some(DynValue::List(items)) => parse_buttons_items(items),
        _ => default_buttons_items(),
    };
    ButtonsSection { items, alignment: parse_section_position(section) }
}

impl Config {
    /// Reads the configuration from the options. Never fails: an option that
    /// is missing or of the wrong type has its default.
    pub fn from_dict(options: &DynValue) -> (r: Self)
        ensures
            r@ == config_of(*options),
    {
        Self {
            open_on_start: parse_bool_option(options, "open_on_start", DEFAULT_AUTO_OPEN),
            keymap: parse_string_option(options, "keymap", DEFAULT_KEYMAP),
            header: parse_text_section(options, "header", DEFAULT_HEADER_TEXT),
            sub_header: parse_text_section(options, "sub_header", DEFAULT_SUB_HEADER_TEXT),
            footer: parse_text_section(options, "footer", DEFAULT_FOOTER_TEXT),
            buttons: parse_buttons_section(options),
            highlights: RoleHighlights::from_dict(options),
            layout: DashboardLayout::from_dict(options),
            borders: parse_string_option(options, "borders", DEFAULT_BORDERS),
            keymaps: Keymaps::from_dict(options),
        }
    }
}

impl Default for Config {
    /// The configuration without any option.
    fn default() -> (r: Self)
        ensures
            r@ == default_config(),
    {
        let nothing = DynValue::Nil;
        Config::from_dict(&nothing)
    }
}

} // verus!

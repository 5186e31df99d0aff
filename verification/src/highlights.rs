//! The highlight groups of the dashboard: the styles that the user may give
//! to the roles of its rows, and the groups that the plugin defines for them.
use crate::config::value::DynValue;
use crate::config::section_of;
use vstd::prelude::*;
use vstd::string::*;

verus! {

/// The role of a row of the dashboard.
#[derive(Clone, Copy, Debug, PartialEq, Eq, Structural)]
pub enum HighlightRole {
    Header,
    SubHeader,
    Button,
    Footer,
    EmptyLine,
}

/// The style that the user gives to a role. Each part is optional.
#[derive(Debug)]
pub struct HighlightStyle {
    pub fg: Option<String>,
    pub bg: Option<String>,
    pub link: Option<String>,
    pub bold: Option<bool>,
    pub italic: Option<bool>,
}

/// A `HighlightStyle` as a mathematical value.
pub struct HighlightStyleView {
    pub fg: Option<Seq<char>>,
    pub bg: Option<Seq<char>>,
    pub link: Option<Seq<char>>,
    pub bold: Option<bool>,
    pub italic: Option<bool>,
}

/// The view of an optional text.
pub open spec fn text_view(text: Option<String>) -> Option<Seq<char>> {
    match text {
        Some(t) => Some(t@),
        None => None,
    }
}

impl View for HighlightStyle {
    type V = HighlightStyleView;

    open spec fn view(&self) -> HighlightStyleView {
        HighlightStyleView {
            fg: text_view(self.fg),
            bg: text_view(self.bg),
            link: text_view(self.link),
            bold: self.bold,
            italic: self.italic,
        }
    }
}

/// The view of an optional style.
pub open spec fn style_view(style: Option<HighlightStyle>) -> Option<HighlightStyleView> {
    match style {
        Some(s) => Some(s@),
        None => None,
    }
}

/// The styles that the user gives to the roles.
#[derive(Debug)]
pub struct RoleHighlights {
    pub header: Option<HighlightStyle>,
    pub sub_header: Option<HighlightStyle>,
    pub button: Option<HighlightStyle>,
    pub footer: Option<HighlightStyle>,
    pub empty_line: Option<HighlightStyle>,
}

/// `RoleHighlights` as a mathematical value.
pub struct RoleHighlightsView {
    pub header: Option<HighlightStyleView>,
    pub sub_header: Option<HighlightStyleView>,
    pub button: Option<HighlightStyleView>,
    pub footer: Option<HighlightStyleView>,
    pub empty_line: Option<HighlightStyleView>,
}

impl View for RoleHighlights {
    type V = RoleHighlightsView;

    open spec fn view(&self) -> RoleHighlightsView {
        RoleHighlightsView {
            header: style_view(self.header),
            sub_header: style_view(self.sub_header),
            button: style_view(self.button),
            footer: style_view(self.footer),
            empty_line: style_view(self.empty_line),
        }
    }
}

/// The text under `key`, where there is one.
pub open spec fn optional_text(dict: DynValue, key: Seq<char>) -> Option<Seq<char>> {
    match dict.get_spec(key) {
        Some(DynValue::Str(s)) => Some(s@),
        _ => None,
    }
}

/// The truth value under `key`, where there is one.
pub open spec fn optional_flag(dict: DynValue, key: Seq<char>) -> Option<bool> {
    match dict.get_spec(key) {
        Some(DynValue::Bool(b)) => Some(b),
        _ => None,
    }
}

/// The style that a mapping describes.
pub open spec fn style_of(dict: DynValue) -> HighlightStyleView {
    HighlightStyleView {
        fg: optional_text(dict, "fg"@),
        bg: optional_text(dict, "bg"@),
        link: optional_text(dict, "link"@),
        bold: optional_flag(dict, "bold"@),
        italic: optional_flag(dict, "italic"@),
    }
}

/// The style under the name of a role, where a mapping stands there.
pub open spec fn role_style_of(section: DynValue, role: Seq<char>) -> Option<HighlightStyleView> {
    match section.get_spec(role) {
        Some(DynValue::Dict(entries)) => Some(style_of(DynValue::Dict(entries))),
        _ => None,
    }
}

/// The styles that the options give to the roles, in the mapping under
/// `"highlights"`.
pub open spec fn role_highlights_of(options: DynValue) -> RoleHighlightsView {
    let section = section_of(options, "highlights"@);
    RoleHighlightsView {
        header: role_style_of(section, "Header"@),
        sub_header: role_style_of(section, "SubHeader"@),
        button: role_style_of(section, "Button"@),
        footer: role_style_of(section, "Footer"@),
        empty_line: role_style_of(section, "EmptyLine"@),
    }
}

/// Reads the text under `key`.
fn parse_optional_text(dict: &DynValue, key: &str) -> (r: Option<String>)
    ensures
        text_view(r) == optional_text(*dict, key@),
{
    match dict.get(key) {
        Some(v) => match v.as_str() {
            Some(s) => Some(s.to_owned()),
            None => None,
        },
        None => None,
    }
}

/// Reads the truth value under `key`.
fn parse_optional_flag(dict: &DynValue, key: &str) -> (r: Option<bool>)
    ensures
        r == optional_flag(*dict, key@),
{
    match dict.get(key) {
        Some(v) => v.as_bool(),
        None => None,
    }
}

/// Reads the style under the name of a role.
fn parse_role_style(section: &DynValue, role: &str) -> (r: Option<HighlightStyle>)
    ensures
        style_view(r) == role_style_of(*section, role@),
{
    match section.get(role) {
        Some(inner) => {
            if inner.is_dict() {
                Some(
                    HighlightStyle {
                        fg: parse_optional_text(inner, "fg"),
                        bg: parse_optional_text(inner, "bg"),
                        link: parse_optional_text(inner, "link"),
                        bold: parse_optional_flag(inner, "bold"),
                        italic: parse_optional_flag(inner, "italic"),
                    },
                )
            } else {
                None
            }
        },
        None => None,
    }
}

impl RoleHighlights {
    /// Reads the styles of the roles from the options. A role without a
    /// mapping of its own has no style.
    pub fn from_dict(options: &DynValue) -> (r: Self)
        ensures
            r@ == role_highlights_of(*options),
    {
        let nothing = DynValue::Nil;
        let section = match options.get("highlights") {
            Some(v) => v,
            None => &nothing,
        };
        RoleHighlights {
            header: parse_role_style(section, "Header"),
            sub_header: parse_role_style(section, "SubHeader"),
            button: parse_role_style(section, "Button"),
            footer: parse_role_style(section, "Footer"),
            empty_line: parse_role_style(section, "EmptyLine"),
        }
    }

    /// No role has a style.
    pub open spec fn none() -> RoleHighlightsView {
        RoleHighlightsView {
            header: None,
            sub_header: None,
            button: None,
            footer: None,
            empty_line: None,
        }
    }
}

/// A highlight group as the host defines it: its name, its colours, the
/// group it takes the rest from, and whether its text is bold or italic.
#[derive(Debug)]
pub struct HighlightGroup {
    pub name: &'static str,
    pub fg: Option<String>,
    pub bg: Option<String>,
    pub link: Option<String>,
    pub bold: bool,
    pub italic: bool,
}

/// A `HighlightGroup` as a mathematical value.
pub struct HighlightGroupView {
    pub name: Seq<char>,
    pub fg: Option<Seq<char>>,
    pub bg: Option<Seq<char>>,
    pub link: Option<Seq<char>>,
    pub bold: bool,
    pub italic: bool,
}

impl View for HighlightGroup {
    type V = HighlightGroupView;

    open spec fn view(&self) -> HighlightGroupView {
        HighlightGroupView {
            name: self.name@,
            fg: text_view(self.fg),
            bg: text_view(self.bg),
            link: text_view(self.link),
            bold: self.bold,
            italic: self.italic,
        }
    }
}

/// The name of the namespace that holds the highlights of the dashboard
/// buffer.
pub const HIGHLIGHT_NAMESPACE: &'static str = "harbinger";

impl HighlightRole {
    /// The name of the group of the role.
    pub open spec fn group_name(self) -> Seq<char> {
        match self {
            HighlightRole::Header => "HarbingerHeader"@,
            HighlightRole::SubHeader => "HarbingerSubHeader"@,
            HighlightRole::Button => "HarbingerButton"@,
            HighlightRole::Footer => "HarbingerFooter"@,
            HighlightRole::EmptyLine => "HarbingerEmptyLine"@,
        }
    }

    /// The group that the role takes its colours from where the user gives
    /// it no style.
    pub open spec fn default_link(self) -> Seq<char> {
        match self {
            HighlightRole::Header => "String"@,
            HighlightRole::SubHeader => "Comment"@,
            HighlightRole::Button => "Constant"@,
            HighlightRole::Footer => "NonText"@,
            HighlightRole::EmptyLine => "Normal"@,
        }
    }

    /// The header and the footer are bold where the user gives no style.
    pub open spec fn default_bold(self) -> bool {
        self == HighlightRole::Header || self == HighlightRole::Footer
    }

    /// The line below the header and the buttons are italic where the user
    /// gives no style.
    pub open spec fn default_italic(self) -> bool {
        self == HighlightRole::SubHeader || self == HighlightRole::Button
    }

    /// The name of the group of the role.
    pub fn name(self) -> (r: &'static str)
        ensures
            r@ == self.group_name(),
    {
        match self {
            HighlightRole::Header => "HarbingerHeader",
            HighlightRole::SubHeader => "HarbingerSubHeader",
            HighlightRole::Button => "HarbingerButton",
            HighlightRole::Footer => "HarbingerFooter",
            HighlightRole::EmptyLine => "HarbingerEmptyLine",
        }
    }
}

/// The group of a role: with the style of the user, where there is one, and
/// else linked to the default group of the role, bold or italic as that
/// role is by default.
pub open spec fn group_of(role: HighlightRole, style: Option<HighlightStyleView>)
    -> HighlightGroupView {
    match style {
        Some(s) => HighlightGroupView {
            name: role.group_name(),
            fg: s.fg,
            bg: s.bg,
            link: s.link,
            bold: s.bold == Some(true),
            italic: s.italic == Some(true),
        },
        None => HighlightGroupView {
            name: role.group_name(),
            fg: None,
            bg: None,
            link: Some(role.default_link()),
            bold: role.default_bold(),
            italic: role.default_italic(),
        },
    }
}

/// Builds the group of a role.
fn make_group(role: HighlightRole, style: &Option<HighlightStyle>) -> (r: HighlightGroup)
    ensures
        r@ == group_of(role, style_view(*style)),
{
    match style {
        Some(s) => HighlightGroup {
            name: role.name(),
            fg: s.fg.clone(),
            bg: s.bg.clone(),
            link: s.link.clone(),
            bold: matches!(s.bold, Some(true)),
            italic: matches!(s.italic, Some(true)),
        },
        None => {
            let link = match role {
                HighlightRole::Header => "String",
                HighlightRole::SubHeader => "Comment",
                HighlightRole::Button => "Constant",
                HighlightRole::Footer => "NonText",
                HighlightRole::EmptyLine => "Normal",
            };
            let bold = match role {
                HighlightRole::Header | HighlightRole::Footer => true,
                _ => false,
            };
            let italic = match role {
                HighlightRole::SubHeader | HighlightRole::Button => true,
                _ => false,
            };
            HighlightGroup {
                name: role.name(),
                fg: None,
                bg: None,
                link: Some(link.to_owned()),
                bold,
                italic,
            }
        },
    }
}

/// The groups that the plugin defines, one for each role, in the order
/// header, line below the header, button, footer, blank row.
pub fn highlight_groups(highlights: &RoleHighlights) -> (r: Vec<HighlightGroup>)
    ensures
        r.len() == 5,
        r[0]@ == group_of(HighlightRole::Header, highlights@.header),
        r[1]@ == group_of(HighlightRole::SubHeader, highlights@.sub_header),
        r[2]@ == group_of(HighlightRole::Button, highlights@.button),
        r[3]@ == group_of(HighlightRole::Footer, highlights@.footer),
        r[4]@ == group_of(HighlightRole::EmptyLine, highlights@.empty_line),
{
    let mut groups: Vec<HighlightGroup> = Vec::new();
    groups.push(make_group(HighlightRole::Header, &highlights.header));
    groups.push(make_group(HighlightRole::SubHeader, &highlights.sub_header));
    groups.push(make_group(HighlightRole::Button, &highlights.button));
    groups.push(make_group(HighlightRole::Footer, &highlights.footer));
    groups.push(make_group(HighlightRole::EmptyLine, &highlights.empty_line));
    groups
}

/// The groups that the plugin defines where the user gives no style: the
/// header is a bold `String`, the line below it an italic `Comment`, a
/// button an italic `Constant`, the footer a bold `NonText`, and a blank row
/// `Normal`.
pub fn setup_highlight_groups() -> (r: Vec<HighlightGroup>)
    ensures
        r.len() == 5,
        r[0]@ == group_of(HighlightRole::Header, None),
        r[1]@ == group_of(HighlightRole::SubHeader, None),
        r[2]@ == group_of(HighlightRole::Button, None),
        r[3]@ == group_of(HighlightRole::Footer, None),
        r[4]@ == group_of(HighlightRole::EmptyLine, None),
{
    let plain = RoleHighlights {
        header: None,
        sub_header: None,
        button: None,
        footer: None,
        empty_line: None,
    };
    highlight_groups(&plain)
}

} // verus!

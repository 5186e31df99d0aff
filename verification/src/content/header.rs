//! The header and the line below it.
use crate::content::text::{render_text, text_fits, text_records};
use crate::content::{
    parse_position, position_of, ContentElement, DashboardElement, ElementAlignment, RecordView,
    RenderRecord,
};
use crate::error::PluginError;
use crate::highlights::HighlightRole;
use vstd::prelude::*;
use vstd::string::*;

verus! {

/// A heading: its text, which may run over several lines, its alignment and
/// the highlight group it is shown in.
#[derive(Debug)]
pub struct Header {
    pub text: String,
    pub alignment: ElementAlignment,
    pub highlight: &'static str,
}

/// The highlight group of the header.
pub open spec fn header_group_name() -> Seq<char> {
    HighlightRole::Header.group_name()
}

/// The highlight group of the line below the header.
pub open spec fn sub_header_group_name() -> Seq<char> {
    HighlightRole::SubHeader.group_name()
}

impl Header {
    /// A header with the given text and alignment.
    pub fn new(text: &str, alignment: ElementAlignment) -> (r: Self)
        ensures
            r.text@ == text@,
            r.alignment == alignment,
            r.highlight@ == header_group_name(),
    {
        Self { text: text.to_owned(), alignment, highlight: HighlightRole::Header.name() }
    }
}

impl DashboardElement for Header {
    open spec fn records(&self, win_width: nat) -> Seq<RecordView> {
        text_records(self.text@, self.alignment, self.highlight@, win_width)
    }

    open spec fn fits(&self) -> bool {
        text_fits(self.text@)
    }

    fn render(&self, win_width: usize) -> (r: Result<Vec<RenderRecord>, PluginError>) {
        render_text(self.text.as_str(), self.alignment, self.highlight, win_width)
    }

    open spec fn alignment_spec(&self) -> ElementAlignment {
        self.alignment
    }

    fn alignment(&self) -> (r: ElementAlignment) {
        self.alignment
    }
}

/// The header element for a text and a position word.
pub fn create_header(content: &str, alignment: &str) -> (r: ContentElement)
    ensures
        r matches ContentElement::Header(h) && h.text@ == content@ && h.alignment == position_of(
            alignment@,
        ) && h.highlight@ == header_group_name(),
{
    ContentElement::Header(Header::new(content, parse_position(alignment)))
}

/// The element of the line below the header, for a text and a position word.
pub fn create_subheader(content: &str, alignment: &str) -> (r: ContentElement)
    ensures
        r matches ContentElement::Header(h) && h.text@ == content@ && h.alignment == position_of(
            alignment@,
        ) && h.highlight@ == sub_header_group_name(),
{
    ContentElement::Header(
        Header {
            text: content.to_owned(),
            alignment: parse_position(alignment),
            highlight: HighlightRole::SubHeader.name(),
        },
    )
}

} // verus!

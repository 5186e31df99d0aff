//! The footer.
use crate::content::text::TextElement;
use crate::content::{parse_position, position_of, ContentElement};
use crate::highlights::HighlightRole;
use vstd::prelude::*;
use vstd::string::*;

verus! {

/// The highlight group of the footer.
pub open spec fn footer_group_name() -> Seq<char> {
    HighlightRole::Footer.group_name()
}

/// The footer element for a text and a position word.
pub fn create_footer(content: &str, alignment: &str) -> (r: ContentElement)
    ensures
        r matches ContentElement::Text(t) && t.text@ == content@ && t.alignment == position_of(
            alignment@,
        ) && t.highlight@ == footer_group_name(),
{
    ContentElement::Text(
        TextElement::new(content, parse_position(alignment), HighlightRole::Footer.name()),
    )
}

} // verus!

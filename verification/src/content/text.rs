//! A run of text with an alignment and a highlight group.
use crate::content::{
    leading_padding, lead_of, record_views, records_wf, too_wide, too_wide_error,
    DashboardElement, ElementAlignment, RecordView, RenderRecord,
};
use crate::error::PluginError;
use crate::text::{display_width, segments, split_lines, text_width, views};
use vstd::prelude::*;
use vstd::string::*;

verus! {

/// The records of a text: one for each segment between line feeds, each
/// padded on its own width and carrying the text's group.
pub open spec fn text_records(
    text: Seq<char>,
    alignment: ElementAlignment,
    group: Seq<char>,
    win_width: nat,
) -> Seq<RecordView> {
    Seq::new(
        segments(text).len(),
        |i: int|
            RecordView {
                raw: segments(text)[i],
                lead: lead_of(alignment, win_width, text_width(segments(text)[i])),
                group: group,
                command: None,
            },
    )
}

/// Every segment of the text has a width that a `usize` holds.
pub open spec fn text_fits(text: Seq<char>) -> bool {
    forall|i: int| 0 <= i < segments(text).len() ==> text_width(#[trigger] segments(text)[i])
        <= usize::MAX
}

/// Expands a text into its records.
pub fn render_text(text: &str, alignment: ElementAlignment, group: &str, win_width: usize) -> (r:
    Result<Vec<RenderRecord>, PluginError>)
    ensures
        r is Ok <==> text_fits(text@),
        r matches Ok(v) ==> record_views(v@) == text_records(
            text@,
            alignment,
            group@,
            win_width as nat,
        ) && records_wf(v@),
        r matches Err(e) ==> e@ == too_wide(),
{
    let parts = split_lines(text);
    let mut out: Vec<RenderRecord> = Vec::new();
    let mut i: usize = 0;
    while i < parts.len()
        invariant
            i <= parts.len(),
            views(parts@) == segments(text@),
            out.len() == i,
            records_wf(out@),
            forall|j: int|
                0 <= j < i ==> (#[trigger] out[j])@ == text_records(
                    text@,
                    alignment,
                    group@,
                    win_width as nat,
                )[j],
            forall|j: int| 0 <= j < i ==> text_width(#[trigger] segments(text@)[j]) <= usize::MAX,
        decreases parts.len() - i,
    {
        let part = &parts[i];
        assert(part@ == views(parts@)[i as int]);
        let width = match display_width(part.as_str()) {
            Some(w) => w,
            None => {
                return Err(too_wide_error());
            },
        };
        let lead = leading_padding(alignment, win_width, width);
        out.push(
            RenderRecord {
                raw: part.clone(),
                width,
                lead,
                group: group.to_owned(),
                command: None,
            },
        );
        i = i + 1;
    }
    proof {
        assert(views(parts@).len() == parts.len());
        assert(record_views(out@) =~= text_records(text@, alignment, group@, win_width as nat));
    }
    Ok(out)
}

/// A text with its alignment and the highlight group it is shown in.
#[derive(Debug)]
pub struct TextElement {
    pub text: String,
    pub alignment: ElementAlignment,
    pub highlight: &'static str,
}

impl TextElement {
    /// A text element with the given text, alignment and highlight group.
    pub fn new(text: &str, alignment: ElementAlignment, highlight: &'static str) -> (r: Self)
        ensures
            r.text@ == text@,
            r.alignment == alignment,
            r.highlight@ == highlight@,
    {
        Self { text: text.to_owned(), alignment, highlight }
    }

    /// The highlight group of the element.
    pub fn highlight_group(&self) -> (r: &'static str)
        ensures
            r@ == self.highlight@,
    {
        self.highlight
    }
}

impl DashboardElement for TextElement {
    open spec fn records(&self, win_width: nat) -> Seq<RecordView> {
        text_records(self.text@, self.alignment, self.highlight@, win_width)
    }

    open spec fn fits(&self) -> bool {
        text_fits(self.text@)
    }

    fn render(&self, win_width: usize) -> (r: Result<Vec<RenderRecord>, PluginError>) {
        render_text(self.text.as_str(), self.alignment, self.highlight, win_width)
    }

    open spec fn alignment_spec(&self) -> ElementAlignment {
        self.alignment
    }

    fn alignment(&self) -> (r: ElementAlignment) {
        self.alignment
    }
}

} // verus!

//! The blank row between the parts of the dashboard.
use crate::content::{
    record_views, DashboardElement, ElementAlignment, RecordView, RenderRecord,
};
use crate::error::PluginError;
use crate::highlights::HighlightRole;
use vstd::prelude::*;
use vstd::string::*;

verus! {

/// One blank row.
#[derive(Debug)]
pub struct EmptyLineElement;

/// The highlight group of a blank row.
pub open spec fn empty_line_group_name() -> Seq<char> {
    HighlightRole::EmptyLine.group_name()
}

/// The record of a blank row: no text, no padding, no command.
pub open spec fn empty_record() -> RecordView {
    RecordView {
        raw: Seq::<char>::empty(),
        lead: 0,
        group: empty_line_group_name(),
        command: None,
    }
}

impl EmptyLineElement {
    /// The highlight group of a blank row.
    pub fn highlight_group(&self) -> (r: &'static str)
        ensures
            r@ == empty_line_group_name(),
    {
        HighlightRole::EmptyLine.name()
    }
}

impl DashboardElement for EmptyLineElement {
    open spec fn records(&self, win_width: nat) -> Seq<RecordView> {
        seq![empty_record()]
    }

    open spec fn fits(&self) -> bool {
        true
    }

    fn render(&self, win_width: usize) -> (r: Result<Vec<RenderRecord>, PluginError>) {
        let mut out: Vec<RenderRecord> = Vec::new();
        out.push(
            RenderRecord {
                raw: String::new(),
                width: 0,
                lead: 0,
                group: self.highlight_group().to_owned(),
                command: None,
            },
        );
        proof {
            assert(record_views(out@) =~= seq![empty_record()]);
        }
        Ok(out)
    }

    open spec fn alignment_spec(&self) -> ElementAlignment {
        ElementAlignment::Left
    }

    fn alignment(&self) -> (r: ElementAlignment) {
        ElementAlignment::Left
    }
}

} // verus!

//! The colours of a part of the layout.
use crate::config::defaults::{DEFAULT_BACKGROUND, DEFAULT_FOREGROUND};
use crate::config::value::DynValue;
use crate::config::{parse_string_option, string_option};
use vstd::prelude::*;
use vstd::string::*;

verus! {

/// A foreground and a background colour.
#[derive(Debug)]
pub struct Highlights {
    pub fg: String,
    pub bg: String,
}

/// `Highlights` as a mathematical value.
pub struct HighlightsView {
    pub fg: Seq<char>,
    pub bg: Seq<char>,
}

impl View for Highlights {
    type V = HighlightsView;

    open spec fn view(&self) -> HighlightsView {
        HighlightsView { fg: self.fg@, bg: self.bg@ }
    }
}

/// White on black.
pub open spec fn default_highlights() -> HighlightsView {
    HighlightsView { fg: DEFAULT_FOREGROUND@, bg: DEFAULT_BACKGROUND@ }
}

/// The colours under `"highlights"`, where a mapping stands there: its
/// `"fg"` and `"bg"`, white and black where they are missing.
pub open spec fn highlights_of(dict: DynValue) -> Option<HighlightsView> {
    match dict.get_spec("highlights"@) {
        Some(DynValue::Dict(entries)) => Some(
            HighlightsView {
                fg: string_option(DynValue::Dict(entries), "fg"@, DEFAULT_FOREGROUND@),
                bg: string_option(DynValue::Dict(entries), "bg"@, DEFAULT_BACKGROUND@),
            },
        ),
        _ => None,
    }
}

/// The view of optional colours.
pub open spec fn highlights_view(h: Option<Highlights>) -> Option<HighlightsView> {
    match h {
        Some(h) => Some(h@),
        None => None,
    }
}

/// Reads the colours under `"highlights"`.
pub fn parse_highlights(dict: &DynValue) -> (r: Option<Highlights>)
    ensures
        highlights_view(r) == highlights_of(*dict),
{
    match dict.get("highlights") {
        Some(inner) => {
            if inner.is_dict() {
                Some(
                    Highlights {
                        fg: parse_string_option(inner, "fg", DEFAULT_FOREGROUND),
                        bg: parse_string_option(inner, "bg", DEFAULT_BACKGROUND),
                    },
                )
            } else {
                None
            }
        },
        None => None,
    }
}

} // verus!

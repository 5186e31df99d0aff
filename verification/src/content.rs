//! The content model: an ordered list of elements, each of which expands to
//! one or more display records, and the rendering of that list into a frame.
use crate::content::button::{ButtonGroup, SingleButton};
use crate::content::empty_line::EmptyLineElement;
use crate::content::frame::{compose_frame, frame_of, RenderedFrame};
use crate::content::header::Header;
use crate::content::text::TextElement;
use crate::error::{PluginError, PluginErrorView};
use crate::text::{blanks, str_eq, text_width};
use vstd::prelude::*;
use vstd::string::*;

pub mod button;
pub mod empty_line;
pub mod footer;
pub mod frame;
pub mod header;
pub mod text;

verus! {

/// Where an element stands in the width of the window.
#[derive(Clone, Copy, Debug, PartialEq, Eq, Structural)]
pub enum ElementAlignment {
    Left,
    Center,
    Right,
}

/// The alignment a position word stands for: `"left"` and `"right"` name
/// their sides, every other word means the centre.
pub open spec fn position_of(word: Seq<char>) -> ElementAlignment {
    if word == "left"@ {
        ElementAlignment::Left
    } else if word == "right"@ {
        ElementAlignment::Right
    } else {
        ElementAlignment::Center
    }
}

/// Reads a position word.
pub fn parse_position(word: &str) -> (r: ElementAlignment)
    ensures
        r == position_of(word@),
{
    if str_eq(word, "left") {
        ElementAlignment::Left
    } else if str_eq(word, "right") {
        ElementAlignment::Right
    } else {
        ElementAlignment::Center
    }
}

/// The blank cells in front of a block `block` cells wide in a window
/// `win_width` cells wide. A block wider than the window starts at column 0.
pub open spec fn lead_of(alignment: ElementAlignment, win_width: nat, block: nat) -> nat {
    match alignment {
        ElementAlignment::Left => 0,
        ElementAlignment::Center => if win_width >= block {
            ((win_width - block) / 2) as nat
        } else {
            0
        },
        ElementAlignment::Right => if win_width >= block {
            (win_width - block) as nat
        } else {
            0
        },
    }
}

/// Computes the leading padding of a block.
pub fn leading_padding(alignment: ElementAlignment, win_width: usize, block: usize) -> (r: usize)
    ensures
        r == lead_of(alignment, win_width as nat, block as nat),
        r + block <= usize::MAX,
{
    match alignment {
        ElementAlignment::Left => 0,
        ElementAlignment::Center => if win_width >= block {
            (win_width - block) / 2
        } else {
            0
        },
        ElementAlignment::Right => if win_width >= block {
            win_width - block
        } else {
            0
        },
    }
}

/// One display row before vertical placement, as a mathematical value: the
/// text without its padding, the padding in front of it, the highlight group
/// and, for a button, the command behind it.
pub struct RecordView {
    pub raw: Seq<char>,
    pub lead: nat,
    pub group: Seq<char>,
    pub command: Option<Seq<char>>,
}

impl RecordView {
    pub open spec fn is_button(self) -> bool {
        self.command is Some
    }

    /// The row as it is displayed: the padding, then the text.
    pub open spec fn line(self) -> Seq<char> {
        blanks(self.lead) + self.raw
    }
}

/// One display row before vertical placement. `width` caches the display
/// width of `raw`.
#[derive(Debug)]
pub struct RenderRecord {
    pub raw: String,
    pub width: usize,
    pub lead: usize,
    pub group: String,
    pub command: Option<String>,
}

impl View for RenderRecord {
    type V = RecordView;

    open spec fn view(&self) -> RecordView {
        RecordView {
            raw: self.raw@,
            lead: self.lead as nat,
            group: self.group@,
            command: match self.command {
                Some(c) => Some(c@),
                None => None,
            },
        }
    }
}

impl RenderRecord {
    /// The cached width is the width of the text, and the padded row still
    /// has a width that a `usize` holds.
    pub open spec fn wf(&self) -> bool {
        &&& self.width == text_width(self.raw@)
        &&& self.lead + self.width <= usize::MAX
    }
}

/// The views of a list of records.
pub open spec fn record_views(v: Seq<RenderRecord>) -> Seq<RecordView> {
    Seq::new(v.len(), |i: int| v[i]@)
}

/// Every record of the list is well formed.
pub open spec fn records_wf(v: Seq<RenderRecord>) -> bool {
    forall|i: int| 0 <= i < v.len() ==> (#[trigger] v[i]).wf()
}

/// The error of an element with a row wider than a `usize` can count.
pub open spec fn too_wide() -> PluginErrorView {
    PluginErrorView::Custom("Content is wider than the window can address"@)
}

/// Builds the error of an element that is too wide.
pub fn too_wide_error() -> (r: PluginError)
    ensures
        r@ == too_wide(),
{
    PluginError::custom("Content is wider than the window can address")
}

/// What every element of a dashboard can do: expand to its display records
/// for a window of a given width, and tell its alignment.
pub trait DashboardElement {
    /// The records the element expands to.
    spec fn records(&self, win_width: nat) -> Seq<RecordView>;

    /// No row of the element is wider than a `usize` can count.
    spec fn fits(&self) -> bool;

    /// Expands the element. Fails exactly when a row is too wide to count.
    fn render(&self, win_width: usize) -> (r: Result<Vec<RenderRecord>, PluginError>)
        ensures
            r is Ok <==> self.fits(),
            r matches Ok(v) ==> record_views(v@) == self.records(win_width as nat) && records_wf(
                v@,
            ),
            r matches Err(e) ==> e@ == too_wide(),
    ;

    /// The alignment of the element.
    spec fn alignment_spec(&self) -> ElementAlignment;

    fn alignment(&self) -> (r: ElementAlignment)
        ensures
            r == self.alignment_spec(),
    ;
}

/// One element of the dashboard.
#[derive(Debug)]
pub enum ContentElement {
    Header(Header),
    Text(TextElement),
    EmptyLine(EmptyLineElement),
    Button(SingleButton),
    ButtonGroup(ButtonGroup),
}

impl DashboardElement for ContentElement {
    open spec fn records(&self, win_width: nat) -> Seq<RecordView> {
        match self {
            ContentElement::Header(e) => e.records(win_width),
            ContentElement::Text(e) => e.records(win_width),
            ContentElement::EmptyLine(e) => e.records(win_width),
            ContentElement::Button(e) => e.records(win_width),
            ContentElement::ButtonGroup(e) => e.records(win_width),
        }
    }

    open spec fn fits(&self) -> bool {
        match self {
            ContentElement::Header(e) => e.fits(),
            ContentElement::Text(e) => e.fits(),
            ContentElement::EmptyLine(e) => e.fits(),
            ContentElement::Button(e) => e.fits(),
            ContentElement::ButtonGroup(e) => e.fits(),
        }
    }

    fn render(&self, win_width: usize) -> (r: Result<Vec<RenderRecord>, PluginError>) {
        match self {
            ContentElement::Header(e) => e.render(win_width),
            ContentElement::Text(e) => e.render(win_width),
            ContentElement::EmptyLine(e) => e.render(win_width),
            ContentElement::Button(e) => e.render(win_width),
            ContentElement::ButtonGroup(e) => e.render(win_width),
        }
    }

    open spec fn alignment_spec(&self) -> ElementAlignment {
        match self {
            ContentElement::Header(e) => e.alignment_spec(),
            ContentElement::Text(e) => e.alignment_spec(),
            ContentElement::EmptyLine(e) => e.alignment_spec(),
            ContentElement::Button(e) => e.alignment_spec(),
            ContentElement::ButtonGroup(e) => e.alignment_spec(),
        }
    }

    fn alignment(&self) -> (r: ElementAlignment) {
        match self {
            ContentElement::Header(e) => e.alignment(),
            ContentElement::Text(e) => e.alignment(),
            ContentElement::EmptyLine(e) => e.alignment(),
            ContentElement::Button(e) => e.alignment(),
            ContentElement::ButtonGroup(e) => e.alignment(),
        }
    }
}

/// The rows of a list of elements: the rows of each, one after the other.
pub open spec fn content_records(elements: Seq<ContentElement>, win_width: nat) -> Seq<RecordView>
    decreases elements.len(),
{
    if elements.len() == 0 {
        Seq::<RecordView>::empty()
    } else {
        content_records(elements.drop_last(), win_width) + elements.last().records(win_width)
    }
}

/// Every element of the list fits.
pub open spec fn content_fits(elements: Seq<ContentElement>) -> bool {
    forall|i: int| 0 <= i < elements.len() ==> (#[trigger] elements[i]).fits()
}

/// The elements of a dashboard, from top to bottom.
#[derive(Debug)]
pub struct Content {
    pub elements: Vec<ContentElement>,
}

impl Content {
    /// A dashboard without elements.
    pub fn new() -> (r: Self)
        ensures
            r.elements@ == Seq::<ContentElement>::empty(),
    {
        Self { elements: Vec::new() }
    }

    /// Adds an element below those already there.
    pub fn add_element(&mut self, element: ContentElement)
        ensures
            final(self).elements@ == old(self).elements@.push(element),
    {
        self.elements.push(element);
    }

    /// The rows of the dashboard in a window `win_width` cells wide.
    pub open spec fn records(&self, win_width: nat) -> Seq<RecordView> {
        content_records(self.elements@, win_width)
    }

    /// No row of the dashboard is wider than a `usize` can count.
    pub open spec fn fits(&self) -> bool {
        content_fits(self.elements@)
    }

    /// Expands every element into its rows. Fails exactly when a row is too
    /// wide to count.
    pub fn expand(&self, win_width: usize) -> (r: Result<Vec<RenderRecord>, PluginError>)
        ensures
            r is Ok <==> self.fits(),
            r matches Ok(v) ==> record_views(v@) == self.records(win_width as nat) && records_wf(
                v@,
            ),
            r matches Err(e) ==> e@ == too_wide(),
    {
        let mut out: Vec<RenderRecord> = Vec::new();
        let mut i: usize = 0;
        proof {
            assert(self.elements@.take(0) =~= Seq::<ContentElement>::empty());
            assert(record_views(out@) =~= content_records(
                self.elements@.take(0),
                win_width as nat,
            ));
        }
        while i < self.elements.len()
            invariant
                i <= self.elements.len(),
                records_wf(out@),
                record_views(out@) == content_records(
                    self.elements@.take(i as int),
                    win_width as nat,
                ),
                forall|j: int| 0 <= j < i ==> (#[trigger] self.elements@[j]).fits(),
            decreases self.elements.len() - i,
        {
            let mut rows = match self.elements[i].render(win_width) {
                Ok(rows) => rows,
                Err(e) => {
                    return Err(e);
                },
            };
            proof {
                assert(self.elements@.take(i + 1).drop_last() =~= self.elements@.take(i as int));
                assert(record_views(out@ + rows@) =~= record_views(out@) + record_views(rows@));
            }
            out.append(&mut rows);
            i = i + 1;
        }
        proof {
            assert(self.elements@.take(self.elements.len() as int) =~= self.elements@);
        }
        Ok(out)
    }

    /// Renders the dashboard for a viewport of `win_width` by `win_height`
    /// cells. Fails exactly when a row is too wide to count.
    pub fn render(&self, win_width: usize, win_height: usize) -> (r: Result<
        RenderedFrame,
        PluginError,
    >)
        ensures
            r is Ok <==> self.fits(),
            r matches Ok(frame) ==> {
                &&& frame@ == frame_of(self.records(win_width as nat), win_height as nat)
                &&& frame.command_map@.dom().finite()
                &&& frame.command_map@.len() == frame.button_count
            },
            r matches Err(e) ==> e@ == too_wide(),
    {
        match self.expand(win_width) {
            Ok(records) => Ok(compose_frame(&records, win_height)),
            Err(e) => Err(e),
        }
    }
}

} // verus!

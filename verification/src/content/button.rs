//! Buttons, and the group that lays them out as one aligned block.
use crate::content::{
    leading_padding, lead_of, parse_position, position_of, record_views, records_wf,
    too_wide_error, ContentElement, DashboardElement, ElementAlignment, RecordView, RenderRecord,
};
use crate::error::PluginError;
use crate::highlights::HighlightRole;
use crate::text::{
    blanks, display_width, lemma_blanks_width, lemma_text_width_concat, spaces, text_width,
};
use vstd::prelude::*;
use vstd::string::*;

verus! {

/// A button: what it says, the icon at its right, and the host command that
/// the confirm key runs on its line.
#[derive(Debug)]
pub struct Button {
    pub title: String,
    pub icon: String,
    pub command: String,
}

/// A button as a mathematical value.
pub struct ButtonView {
    pub title: Seq<char>,
    pub icon: Seq<char>,
    pub command: Seq<char>,
}

impl View for Button {
    type V = ButtonView;

    open spec fn view(&self) -> ButtonView {
        ButtonView { title: self.title@, icon: self.icon@, command: self.command@ }
    }
}

impl Button {
    /// A button with the given title, icon and command.
    pub fn new(title: &str, icon: &str, command: &str) -> (r: Self)
        ensures
            r@ == (ButtonView { title: title@, icon: icon@, command: command@ }),
    {
        Self { title: title.to_owned(), icon: icon.to_owned(), command: command.to_owned() }
    }
}

/// The views of a list of buttons.
pub open spec fn button_views(v: Seq<Button>) -> Seq<ButtonView> {
    Seq::new(v.len(), |i: int| v[i]@)
}

/// The highlight group of every button row.
pub open spec fn button_group_name() -> Seq<char> {
    HighlightRole::Button.group_name()
}

/// The width of the widest title.
pub open spec fn max_title_width(buttons: Seq<ButtonView>) -> nat
    decreases buttons.len(),
{
    if buttons.len() == 0 {
        0
    } else {
        let rest = max_title_width(buttons.drop_last());
        let own = text_width(buttons.last().title);
        if own > rest {
            own
        } else {
            rest
        }
    }
}

/// The width of the widest icon.
pub open spec fn max_icon_width(buttons: Seq<ButtonView>) -> nat
    decreases buttons.len(),
{
    if buttons.len() == 0 {
        0
    } else {
        let rest = max_icon_width(buttons.drop_last());
        let own = text_width(buttons.last().icon);
        if own > rest {
            own
        } else {
            rest
        }
    }
}

/// The cells between a title column and an icon column.
pub open spec fn column_gap() -> nat {
    5
}

/// The common width of the rows of a group: one leading space, the title
/// column, the gap and the icon column.
pub open spec fn block_width(buttons: Seq<ButtonView>) -> nat {
    1 + max_title_width(buttons) + column_gap() + max_icon_width(buttons)
}

/// The row of one button: a space, the title filled up to the title column,
/// the gap, and the icon filled up to the icon column.
pub open spec fn button_raw(b: ButtonView, title_column: nat, icon_column: nat) -> Seq<char> {
    blanks(1) + b.title + blanks((title_column - text_width(b.title)) as nat) + blanks(
        column_gap(),
    ) + b.icon + blanks((icon_column - text_width(b.icon)) as nat)
}

/// The records of a group: one row per button, in order, all with the
/// padding of the whole block.
pub open spec fn group_records(
    buttons: Seq<ButtonView>,
    alignment: ElementAlignment,
    win_width: nat,
) -> Seq<RecordView> {
    Seq::new(
        buttons.len(),
        |i: int|
            RecordView {
                raw: button_raw(buttons[i], max_title_width(buttons), max_icon_width(buttons)),
                lead: lead_of(alignment, win_width, block_width(buttons)),
                group: button_group_name(),
                command: Some(buttons[i].command),
            },
    )
}

/// The block of a group with buttons has a width that a `usize` holds.
pub open spec fn group_fits(buttons: Seq<ButtonView>) -> bool {
    buttons.len() > 0 ==> block_width(buttons) <= usize::MAX
}

/// No title is wider than the title column, no icon than the icon column.
pub proof fn lemma_columns_hold_each(buttons: Seq<ButtonView>, i: int)
    requires
        0 <= i < buttons.len(),
    ensures
        text_width(buttons[i].title) <= max_title_width(buttons),
        text_width(buttons[i].icon) <= max_icon_width(buttons),
    decreases buttons.len(),
{
    if i < buttons.len() - 1 {
        lemma_columns_hold_each(buttons.drop_last(), i);
    }
}

/// A row whose title and icon fit their columns is exactly one leading
/// space, the two columns and the gap wide.
pub proof fn lemma_button_raw_width(b: ButtonView, title_column: nat, icon_column: nat)
    requires
        text_width(b.title) <= title_column,
        text_width(b.icon) <= icon_column,
    ensures
        text_width(button_raw(b, title_column, icon_column)) == 1 + title_column + column_gap()
            + icon_column,
{
    let space = blanks(1);
    let title_fill = blanks((title_column - text_width(b.title)) as nat);
    let icon_fill = blanks((icon_column - text_width(b.icon)) as nat);
    let gap = blanks(column_gap());
    lemma_blanks_width(1);
    lemma_blanks_width((title_column - text_width(b.title)) as nat);
    lemma_blanks_width(column_gap());
    lemma_blanks_width((icon_column - text_width(b.icon)) as nat);
    lemma_text_width_concat(space, b.title);
    lemma_text_width_concat(space + b.title, title_fill);
    lemma_text_width_concat(space + b.title + title_fill, gap);
    lemma_text_width_concat(space + b.title + title_fill + gap, b.icon);
    lemma_text_width_concat(space + b.title + title_fill + gap + b.icon, icon_fill);
}

/// In a group, every row has the same leading padding, and every padded row
/// is exactly the block and that padding wide.
pub proof fn lemma_group_rows_align(
    buttons: Seq<ButtonView>,
    alignment: ElementAlignment,
    win_width: nat,
    i: int,
)
    requires
        0 <= i < buttons.len(),
    ensures
        group_records(buttons, alignment, win_width)[i].lead == lead_of(
            alignment,
            win_width,
            block_width(buttons),
        ),
        text_width(group_records(buttons, alignment, win_width)[i].raw) == block_width(buttons),
        text_width(group_records(buttons, alignment, win_width)[i].line()) == block_width(buttons)
            + lead_of(alignment, win_width, block_width(buttons)),
{
    let r = group_records(buttons, alignment, win_width)[i];
    lemma_columns_hold_each(buttons, i);
    lemma_button_raw_width(buttons[i], max_title_width(buttons), max_icon_width(buttons));
    lemma_blanks_width(r.lead);
    lemma_text_width_concat(blanks(r.lead), r.raw);
}

/// Buttons shown as consecutive rows with one alignment.
#[derive(Debug)]
pub struct ButtonGroup {
    pub buttons: Vec<Button>,
    pub alignment: ElementAlignment,
}

impl ButtonGroup {
    /// A group of the given buttons.
    pub fn new(buttons: Vec<Button>, alignment: ElementAlignment) -> (r: Self)
        ensures
            r.buttons == buttons,
            r.alignment == alignment,
    {
        Self { buttons, alignment }
    }
}

/// The widths of the titles and of the icons of `buttons`, or `None` when one
/// of them is more than a `usize` holds.
fn measure(buttons: &Vec<Button>) -> (r: Option<(Vec<usize>, Vec<usize>, usize, usize)>)
    ensures
        match r {
            Some((titles, icons, title_column, icon_column)) => {
                &&& titles.len() == buttons.len()
                &&& icons.len() == buttons.len()
                &&& forall|i: int|
                    0 <= i < buttons.len() ==> #[trigger] titles[i] == text_width(buttons[i].title@)
                &&& forall|i: int|
                    0 <= i < buttons.len() ==> #[trigger] icons[i] == text_width(buttons[i].icon@)
                &&& title_column == max_title_width(button_views(buttons@))
                &&& icon_column == max_icon_width(button_views(buttons@))
            },
            None => max_title_width(button_views(buttons@)) > usize::MAX || max_icon_width(
                button_views(buttons@),
            ) > usize::MAX,
        },
{
    let ghost all = button_views(buttons@);
    let mut titles: Vec<usize> = Vec::new();
    let mut icons: Vec<usize> = Vec::new();
    let mut title_column: usize = 0;
    let mut icon_column: usize = 0;
    let mut i: usize = 0;
    while i < buttons.len()
        invariant
            i <= buttons.len(),
            all == button_views(buttons@),
            titles.len() == i,
            icons.len() == i,
            forall|j: int| 0 <= j < i ==> #[trigger] titles[j] == text_width(buttons[j].title@),
            forall|j: int| 0 <= j < i ==> #[trigger] icons[j] == text_width(buttons[j].icon@),
            title_column == max_title_width(all.take(i as int)),
            icon_column == max_icon_width(all.take(i as int)),
        decreases buttons.len() - i,
    {
        proof {
            assert(all.take(i + 1).drop_last() =~= all.take(i as int));
            assert(all.take(i + 1).last() == buttons[i as int]@);
            lemma_columns_grow(all, i + 1);
        }
        let title = match display_width(buttons[i].title.as_str()) {
            Some(w) => w,
            None => {
                return None;
            },
        };
        let icon = match display_width(buttons[i].icon.as_str()) {
            Some(w) => w,
            None => {
                return None;
            },
        };
        if title > title_column {
            title_column = title;
        }
        if icon > icon_column {
            icon_column = icon;
        }
        titles.push(title);
        icons.push(icon);
        i = i + 1;
    }
    proof {
        assert(all.take(buttons.len() as int) =~= all);
    }
    Some((titles, icons, title_column, icon_column))
}

/// The columns of a prefix are no wider than those of the whole group.
proof fn lemma_columns_grow(buttons: Seq<ButtonView>, n: int)
    requires
        0 <= n <= buttons.len(),
    ensures
        max_title_width(buttons.take(n)) <= max_title_width(buttons),
        max_icon_width(buttons.take(n)) <= max_icon_width(buttons),
    decreases buttons.len(),
{
    if n < buttons.len() {
        lemma_columns_grow(buttons.drop_last(), n);
        assert(buttons.drop_last().take(n) =~= buttons.take(n));
    } else {
        assert(buttons.take(n) =~= buttons);
    }
}

/// Builds the row of one button from its measured widths.
fn button_row(b: &Button, title: usize, icon: usize, title_column: usize, icon_column: usize) -> (r:
    String)
    requires
        title == text_width(b.title@),
        icon == text_width(b.icon@),
        title <= title_column,
        icon <= icon_column,
    ensures
        r@ == button_raw(b@, title_column as nat, icon_column as nat),
{
    let mut row = spaces(1);
    row.append(b.title.as_str());
    row.append(spaces(title_column - title).as_str());
    row.append(spaces(5).as_str());
    row.append(b.icon.as_str());
    row.append(spaces(icon_column - icon).as_str());
    row
}

impl DashboardElement for ButtonGroup {
    open spec fn records(&self, win_width: nat) -> Seq<RecordView> {
        group_records(button_views(self.buttons@), self.alignment, win_width)
    }

    open spec fn fits(&self) -> bool {
        group_fits(button_views(self.buttons@))
    }

    fn render(&self, win_width: usize) -> (r: Result<Vec<RenderRecord>, PluginError>) {
        let ghost all = button_views(self.buttons@);
        let mut out: Vec<RenderRecord> = Vec::new();
        if self.buttons.len() == 0 {
            proof {
                assert(record_views(out@) =~= self.records(win_width as nat));
            }
            return Ok(out);
        }
        let (titles, icons, title_column, icon_column) = match measure(&self.buttons) {
            Some(m) => m,
            None => {
                return Err(too_wide_error());
            },
        };
        let block = match checked_block(title_column, icon_column) {
            Some(b) => b,
            None => {
                return Err(too_wide_error());
            },
        };
        let lead = leading_padding(self.alignment, win_width, block);
        let mut i: usize = 0;
        while i < self.buttons.len()
            invariant
                i <= self.buttons.len(),
                all == button_views(self.buttons@),
                titles.len() == self.buttons.len(),
                icons.len() == self.buttons.len(),
                forall|j: int|
                    0 <= j < self.buttons.len() ==> #[trigger] titles[j] == text_width(
                        self.buttons[j].title@,
                    ),
                forall|j: int|
                    0 <= j < self.buttons.len() ==> #[trigger] icons[j] == text_width(
                        self.buttons[j].icon@,
                    ),
                title_column == max_title_width(all),
                icon_column == max_icon_width(all),
                block == block_width(all),
                lead == lead_of(self.alignment, win_width as nat, block as nat),
                lead + block <= usize::MAX,
                out.len() == i,
                records_wf(out@),
                forall|j: int|
                    0 <= j < i ==> (#[trigger] out[j])@ == self.records(win_width as nat)[j],
            decreases self.buttons.len() - i,
        {
            let b = &self.buttons[i];
            proof {
                lemma_columns_hold_each(all, i as int);
                lemma_button_raw_width(all[i as int], title_column as nat, icon_column as nat);
            }
            let raw = button_row(b, titles[i], icons[i], title_column, icon_column);
            out.push(
                RenderRecord {
                    raw,
                    width: block,
                    lead,
                    group: HighlightRole::Button.name().to_owned(),
                    command: Some(b.command.clone()),
                },
            );
            i = i + 1;
        }
        proof {
            assert(record_views(out@) =~= self.records(win_width as nat));
        }
        Ok(out)
    }

    open spec fn alignment_spec(&self) -> ElementAlignment {
        self.alignment
    }

    fn alignment(&self) -> (r: ElementAlignment) {
        self.alignment
    }
}

/// One button on a row of its own: a group of one.
#[derive(Debug)]
pub struct SingleButton {
    pub button: Button,
    pub alignment: ElementAlignment,
}

impl SingleButton {
    /// A button that stands alone.
    pub fn new(button: Button, alignment: ElementAlignment) -> (r: Self)
        ensures
            r.button == button,
            r.alignment == alignment,
    {
        Self { button, alignment }
    }
}

impl DashboardElement for SingleButton {
    open spec fn records(&self, win_width: nat) -> Seq<RecordView> {
        group_records(seq![self.button@], self.alignment, win_width)
    }

    open spec fn fits(&self) -> bool {
        group_fits(seq![self.button@])
    }

    fn render(&self, win_width: usize) -> (r: Result<Vec<RenderRecord>, PluginError>) {
        let mut buttons: Vec<Button> = Vec::new();
        buttons.push(
            Button::new(
                self.button.title.as_str(),
                self.button.icon.as_str(),
                self.button.command.as_str(),
            ),
        );
        proof {
            assert(button_views(buttons@) =~= seq![self.button@]);
        }
        ButtonGroup::new(buttons, self.alignment).render(win_width)
    }

    open spec fn alignment_spec(&self) -> ElementAlignment {
        self.alignment
    }

    fn alignment(&self) -> (r: ElementAlignment) {
        self.alignment
    }
}

/// One leading space, the two columns and the gap, or `None` when the sum is
/// more than a `usize` holds.
fn checked_block(title_column: usize, icon_column: usize) -> (r: Option<usize>)
    ensures
        r == if 1 + title_column + column_gap() + icon_column <= usize::MAX {
            Some((1 + title_column + column_gap() + icon_column) as usize)
        } else {
            None
        },
{
    match title_column.checked_add(6) {
        Some(left) => left.checked_add(icon_column),
        None => None,
    }
}

/// The buttons that a list of `(title, icon, command)` triples stands for.
pub open spec fn item_views(items: Seq<(String, String, String)>) -> Seq<ButtonView> {
    Seq::new(
        items.len(),
        |i: int| ButtonView { title: items[i].0@, icon: items[i].1@, command: items[i].2@ },
    )
}

/// A button for each `(title, icon, command)` triple, in order.
pub fn buttons_from(content: &[(String, String, String)]) -> (r: Vec<Button>)
    ensures
        button_views(r@) == item_views(content@),
{
    let mut buttons: Vec<Button> = Vec::new();
    let mut i: usize = 0;
    while i < content.len()
        invariant
            i <= content.len(),
            buttons.len() == i,
            forall|j: int| 0 <= j < i ==> (#[trigger] buttons[j])@ == item_views(content@)[j],
        decreases content.len() - i,
    {
        let item = &content[i];
        buttons.push(Button::new(item.0.as_str(), item.1.as_str(), item.2.as_str()));
        i = i + 1;
    }
    proof {
        assert(button_views(buttons@) =~= item_views(content@));
    }
    buttons
}

/// The elements for a list of `(title, icon, command)` triples and a
/// position word: one group that holds a button for each triple, in order.
pub fn create_buttons(content: &[(String, String, String)], alignment: &str) -> (r: Vec<
    ContentElement,
>)
    ensures
        r.len() == 1,
        r[0] matches ContentElement::ButtonGroup(g) && g.alignment == position_of(alignment@)
            && button_views(g.buttons@) == item_views(content@),
{
    let group = ButtonGroup::new(buttons_from(content), parse_position(alignment));
    let mut out: Vec<ContentElement> = Vec::new();
    out.push(ContentElement::ButtonGroup(group));
    out
}

} // verus!

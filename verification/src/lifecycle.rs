//! The lifecycle of the dashboard: what it does when it is set up, opened,
//! toggled, closed, and when the user leaves its buffer. The functions here
//! decide; the caller asks the host and carries the decisions out.
use crate::buffer::keymap::{moved, KeyAction, KeymapManager};
use crate::config::value::DynValue;
use crate::config::{config_of, Config, ConfigView};
use crate::content::button::{
    button_views, buttons_from, group_fits, group_records, item_views, ButtonGroup, ButtonView,
};
use crate::content::empty_line::{empty_record, EmptyLineElement};
use crate::content::footer::footer_group_name;
use crate::content::frame::{
    buttons_in_a_row, count_buttons, frame_of, lemma_buttons_follow_the_first,
    lemma_command_lines_are_a_range, lemma_count_adds, lemma_count_of_button_rows,
    lemma_count_of_plain_rows, lemma_one_command_per_button, top_padding_of, RenderedFrame,
};
use crate::content::header::{header_group_name, sub_header_group_name, Header};
use crate::content::text::{text_fits, text_records, TextElement};
use crate::content::{
    content_fits, content_records, too_wide, Content, ContentElement, DashboardElement,
    RecordView,
};
use crate::error::{PluginError, PluginErrorView};
use crate::highlights::HighlightRole;
use crate::text::{indent_of, leading_whitespace};
use crate::utils::{count_file_buffers, file_buffer_count, BufferInfo};
use vstd::prelude::*;
use vstd::string::*;

verus! {

/// What the host reports when the dashboard is toggled: the buffer that is
/// current, and all buffers.
#[derive(Debug)]
pub struct HostSnapshot {
    pub current: BufferInfo,
    pub buffers: Vec<BufferInfo>,
}

/// One open dashboard.
#[derive(Debug)]
pub struct DashboardSession {
    /// The scratch buffer that shows the dashboard.
    pub buf: i32,
    /// What the buffer shows.
    pub frame: RenderedFrame,
    /// The lines of the first and of the last button, counted from 1.
    pub first_button_line: usize,
    pub last_button_line: usize,
    /// The buffer to go back to on close, if there was a file buffer.
    pub previous_buf: Option<i32>,
    /// The column of the first character of the first button that is not
    /// white space.
    pub cursor_col: usize,
}

/// Whether a dashboard is open.
#[derive(Debug)]
pub enum DashboardState {
    /// No dashboard is shown.
    Idle,
    /// The dashboard is shown.
    Open(DashboardSession),
    /// The dashboard is being closed: the caller switches to another buffer
    /// and then deletes the buffer with the given handle.
    Closing(i32),
}

/// The plugin: its configuration, the elements of its dashboard, and its
/// state.
#[derive(Debug)]
pub struct Dashboard {
    pub config: Config,
    pub content: Content,
    pub state: DashboardState,
}

/// The name of the user command that toggles the dashboard.
pub const TOGGLE_COMMAND: &'static str = "Harbinger";

/// What the caller registers with the host after `setup`.
#[derive(Debug)]
pub struct SetupPlan {
    /// The key that toggles the dashboard, in every buffer.
    pub keymap: String,
    /// The user command that toggles the dashboard. It takes no argument.
    pub command: &'static str,
    /// Whether to ask once, when the user interface is ready, if the
    /// dashboard opens by itself.
    pub open_on_ui_enter: bool,
}

/// What the caller does to show a dashboard that `open_dashboard` has
/// prepared.
#[derive(Debug)]
pub struct OpenPlan {
    /// Whether the buffer that was current is wiped once it is hidden: it
    /// is, when it has no name and no unsaved changes.
    pub wipe_previous: bool,
    /// Where the cursor goes: the line counts from 1, the column from 0.
    pub cursor_line: usize,
    pub cursor_col: usize,
}

/// What a toggle does.
#[derive(Clone, Copy, Debug, PartialEq, Eq, Structural)]
pub enum ToggleDecision {
    Open,
    Close,
    /// A close is under way; the toggle is dropped.
    Nothing,
}

/// What `close_dashboard` decides.
#[derive(Clone, Copy, Debug, PartialEq, Eq, Structural)]
pub enum CloseAction {
    /// The dashboard is the last resort and stays.
    Stay,
    /// The caller makes `switch_to` the current buffer, where there is one,
    /// and then calls `finish_close`.
    Close { switch_to: Option<i32> },
}

/// What a key of the dashboard buffer leads to.
#[derive(Debug)]
pub enum KeyEffect {
    /// The cursor goes to this line, counted from 1, and column.
    MoveCursor { line: usize, col: usize },
    /// The host executes this command.
    Execute(String),
    Nothing,
}

/// The message of the error that a dashboard without buttons gives.
pub open spec fn no_buttons() -> PluginErrorView {
    PluginErrorView::Custom("No buttons found for keybinds"@)
}

/// The rows of the dashboard that a configuration describes: the header, a
/// blank row, the line below the header, a blank row, the buttons, a blank
/// row, the footer.
pub open spec fn config_records(config: ConfigView, win_width: nat) -> Seq<RecordView> {
    text_records(config.header.text, config.header.alignment, header_group_name(), win_width)
        + seq![empty_record()] + text_records(
        config.sub_header.text,
        config.sub_header.alignment,
        sub_header_group_name(),
        win_width,
    ) + seq![empty_record()] + group_records(
        buttons_of(config),
        config.buttons.alignment,
        win_width,
    ) + seq![empty_record()] + text_records(
        config.footer.text,
        config.footer.alignment,
        footer_group_name(),
        win_width,
    )
}

/// The buttons of a configuration.
pub open spec fn buttons_of(config: ConfigView) -> Seq<ButtonView> {
    Seq::new(
        config.buttons.items.len(),
        |i: int|
            ButtonView {
                title: config.buttons.items[i].0,
                icon: config.buttons.items[i].1,
                command: config.buttons.items[i].2,
            },
    )
}

/// No row of the dashboard of a configuration is wider than a `usize` can
/// count.
pub open spec fn config_fits(config: ConfigView) -> bool {
    &&& text_fits(config.header.text)
    &&& text_fits(config.sub_header.text)
    &&& group_fits(buttons_of(config))
    &&& text_fits(config.footer.text)
}

/// The elements are those of the dashboard that a configuration describes.
pub open spec fn is_content_of(elements: Seq<ContentElement>, config: ConfigView) -> bool {
    &&& elements.len() == 7
    &&& elements[0] matches ContentElement::Header(h) && h.text@ == config.header.text
        && h.alignment == config.header.alignment && h.highlight@ == header_group_name()
    &&& elements[1] is EmptyLine
    &&& elements[2] matches ContentElement::Header(h) && h.text@ == config.sub_header.text
        && h.alignment == config.sub_header.alignment && h.highlight@ == sub_header_group_name()
    &&& elements[3] is EmptyLine
    &&& elements[4] matches ContentElement::ButtonGroup(g) && button_views(g.buttons@)
        == buttons_of(config) && g.alignment == config.buttons.alignment
    &&& elements[5] is EmptyLine
    &&& elements[6] matches ContentElement::Text(t) && t.text@ == config.footer.text && t.alignment
        == config.footer.alignment && t.highlight@ == footer_group_name()
}

/// The rows of the first `k + 1` elements are those of the first `k`, then
/// those of the next element.
proof fn lemma_rows_of_prefix(elements: Seq<ContentElement>, k: int, win_width: nat)
    requires
        0 <= k < elements.len(),
    ensures
        content_records(elements.take(k + 1), win_width) == content_records(
            elements.take(k),
            win_width,
        ) + elements[k].records(win_width),
{
    assert(elements.take(k + 1).drop_last() =~= elements.take(k));
}

/// The elements of the dashboard of a configuration have the rows of that
/// dashboard, and fit where it fits.
pub proof fn lemma_content_of_config(
    elements: Seq<ContentElement>,
    config: ConfigView,
    win_width: nat,
)
    requires
        is_content_of(elements, config),
    ensures
        content_records(elements, win_width) == config_records(config, win_width),
        content_fits(elements) <==> config_fits(config),
{
    lemma_rows_of_prefix(elements, 0, win_width);
    lemma_rows_of_prefix(elements, 1, win_width);
    lemma_rows_of_prefix(elements, 2, win_width);
    lemma_rows_of_prefix(elements, 3, win_width);
    lemma_rows_of_prefix(elements, 4, win_width);
    lemma_rows_of_prefix(elements, 5, win_width);
    lemma_rows_of_prefix(elements, 6, win_width);
    assert(elements.take(0) =~= Seq::<ContentElement>::empty());
    assert(elements.take(7) =~= elements);
    assert(content_records(elements.take(1), win_width) =~= elements[0].records(win_width));
    if config_fits(config) {
        assert forall|i: int| 0 <= i < elements.len() implies (#[trigger] elements[i]).fits() by {
            if i == 0 {
            } else if i == 1 {
            } else if i == 2 {
            } else if i == 3 {
            } else if i == 4 {
            } else if i == 5 {
            } else {
            }
        }
    }
    if content_fits(elements) {
        assert(elements[0].fits());
        assert(elements[2].fits());
        assert(elements[4].fits());
        assert(elements[6].fits());
    }
}

/// In the dashboard of a configuration the button rows stand next to each
/// other.
pub proof fn lemma_dashboard_buttons_in_a_row(config: ConfigView, win_width: nat)
    ensures
        buttons_in_a_row(config_records(config, win_width)),
{
    let header = text_records(
        config.header.text,
        config.header.alignment,
        header_group_name(),
        win_width,
    );
    let sub = text_records(
        config.sub_header.text,
        config.sub_header.alignment,
        sub_header_group_name(),
        win_width,
    );
    let group = group_records(buttons_of(config), config.buttons.alignment, win_width);
    let footer = text_records(
        config.footer.text,
        config.footer.alignment,
        footer_group_name(),
        win_width,
    );
    let blank = seq![empty_record()];
    let rows = config_records(config, win_width);
    let start = header.len() + 1 + sub.len() + 1;
    assert(rows =~= header + blank + sub + blank + group + blank + footer);
    assert forall|i: int| 0 <= i < rows.len() implies (#[trigger] rows[i].is_button() <==> start
        <= i < start + group.len()) by {
        if i < header.len() {
            assert(rows[i] == header[i]);
        } else if i < header.len() + 1 {
            assert(rows[i] == blank[i - header.len()]);
        } else if i < header.len() + 1 + sub.len() {
            assert(rows[i] == sub[i - header.len() - 1]);
        } else if i < start {
            assert(rows[i] == blank[i - header.len() - 1 - sub.len()]);
        } else if i < start + group.len() {
            assert(rows[i] == group[i - start]);
        } else if i < start + group.len() + 1 {
            assert(rows[i] == blank[i - start - group.len()]);
        } else {
            assert(rows[i] == footer[i - start - group.len() - 1]);
        }
    }
}

/// For every configuration and viewport, the command map of the frame has
/// as many entries as the dashboard has buttons, and its keys are exactly
/// the lines from the first button line on, one for each button.
pub proof fn lemma_dashboard_command_lines(config: ConfigView, win_width: nat, win_height: nat)
    ensures
        ({
            let frame = frame_of(config_records(config, win_width), win_height);
            &&& frame.button_count == config.buttons.items.len()
            &&& frame.command_map.dom().finite()
            &&& frame.command_map.dom().len() == frame.button_count
            &&& forall|l: nat|
                frame.command_map.contains_key(l) <==> frame.first_button_line <= l
                    < frame.first_button_line + frame.button_count
        }),
{
    let rows = config_records(config, win_width);
    lemma_dashboard_buttons_in_a_row(config, win_width);
    lemma_command_lines_are_a_range(rows, win_height);
    lemma_one_command_per_button(rows, top_padding_of(rows.len(), win_height));
    lemma_dashboard_button_count(config, win_width);
}

/// The dashboard of a configuration has one button row for each button of
/// the configuration.
pub proof fn lemma_dashboard_button_count(config: ConfigView, win_width: nat)
    ensures
        count_buttons(config_records(config, win_width)) == config.buttons.items.len(),
{
    let header = text_records(
        config.header.text,
        config.header.alignment,
        header_group_name(),
        win_width,
    );
    let sub = text_records(
        config.sub_header.text,
        config.sub_header.alignment,
        sub_header_group_name(),
        win_width,
    );
    let group = group_records(buttons_of(config), config.buttons.alignment, win_width);
    let footer = text_records(
        config.footer.text,
        config.footer.alignment,
        footer_group_name(),
        win_width,
    );
    let blank = seq![empty_record()];
    lemma_count_of_plain_rows(header);
    lemma_count_of_plain_rows(blank);
    lemma_count_of_plain_rows(sub);
    lemma_count_of_plain_rows(footer);
    lemma_count_of_button_rows(group);
    lemma_count_adds(header, blank);
    lemma_count_adds(header + blank, sub);
    lemma_count_adds(header + blank + sub, blank);
    lemma_count_adds(header + blank + sub + blank, group);
    lemma_count_adds(header + blank + sub + blank + group, blank);
    lemma_count_adds(header + blank + sub + blank + group + blank, footer);
}

/// Builds the elements of the dashboard that a configuration describes.
pub fn dashboard_content(config: &Config) -> (r: Content)
    ensures
        is_content_of(r.elements@, config@),
{
    let mut content = Content::new();
    content.add_element(
        ContentElement::Header(Header::new(config.header.text.as_str(), config.header.alignment)),
    );
    content.add_element(ContentElement::EmptyLine(EmptyLineElement));
    content.add_element(
        ContentElement::Header(
            Header {
                text: config.sub_header.text.clone(),
                alignment: config.sub_header.alignment,
                highlight: HighlightRole::SubHeader.name(),
            },
        ),
    );
    content.add_element(ContentElement::EmptyLine(EmptyLineElement));
    let buttons = buttons_from(config.buttons.items.as_slice());
    proof {
        assert(item_views(config.buttons.items@) =~= buttons_of(config@));
    }
    content.add_element(
        ContentElement::ButtonGroup(ButtonGroup::new(buttons, config.buttons.alignment)),
    );
    content.add_element(ContentElement::EmptyLine(EmptyLineElement));
    content.add_element(
        ContentElement::Text(
            TextElement::new(
                config.footer.text.as_str(),
                config.footer.alignment,
                HighlightRole::Footer.name(),
            ),
        ),
    );
    content
}

/// Some buffer with this handle is valid.
pub open spec fn is_valid_handle(buffers: Seq<BufferInfo>, handle: i32) -> bool {
    exists|i: int| 0 <= i < buffers.len() && buffers[i].handle == handle && buffers[i].valid
}

/// The first valid buffer other than the dashboard's.
pub open spec fn first_other_valid(buffers: Seq<BufferInfo>, dashboard: i32) -> Option<i32>
    decreases buffers.len(),
{
    if buffers.len() == 0 {
        None
    } else if buffers[0].valid && buffers[0].handle != dashboard {
        Some(buffers[0].handle)
    } else {
        first_other_valid(buffers.drop_first(), dashboard)
    }
}

/// The buffer that becomes current when the dashboard closes: the buffer
/// that was current before it opened, if that is still valid, else the
/// first valid buffer other than the dashboard's.
pub open spec fn close_target(previous: Option<i32>, buffers: Seq<BufferInfo>, dashboard: i32)
    -> Option<i32> {
    match previous {
        Some(p) => if is_valid_handle(buffers, p) {
            Some(p)
        } else {
            first_other_valid(buffers, dashboard)
        },
        None => first_other_valid(buffers, dashboard),
    }
}

/// The column the cursor takes on a line of the frame: that of its first
/// character that is not white space, and 0 where the frame has no such
/// line.
pub open spec fn anchor_column(lines: Seq<Seq<char>>, line: int) -> nat {
    if 1 <= line <= lines.len() {
        indent_of(lines[line - 1])
    } else {
        0
    }
}

/// Finds out whether some buffer with this handle is valid.
fn handle_is_valid(buffers: &Vec<BufferInfo>, handle: i32) -> (r: bool)
    ensures
        r == is_valid_handle(buffers@, handle),
{
    let mut i: usize = 0;
    while i < buffers.len()
        invariant
            i <= buffers.len(),
            forall|j: int| 0 <= j < i ==> !(buffers[j].handle == handle && buffers[j].valid),
        decreases buffers.len() - i,
    {
        if buffers[i].handle == handle && buffers[i].valid {
            return true;
        }
        i = i + 1;
    }
    false
}

/// Finds the first valid buffer other than the dashboard's.
fn find_other_valid(buffers: &Vec<BufferInfo>, dashboard: i32) -> (r: Option<i32>)
    ensures
        r == first_other_valid(buffers@, dashboard),
{
    let mut i: usize = 0;
    proof {
        assert(buffers@.skip(0) =~= buffers@);
    }
    while i < buffers.len()
        invariant
            i <= buffers.len(),
            first_other_valid(buffers@, dashboard) == first_other_valid(
                buffers@.skip(i as int),
                dashboard,
            ),
        decreases buffers.len() - i,
    {
        proof {
            assert(buffers@.skip(i as int)[0] == buffers@[i as int]);
            assert(buffers@.skip(i as int).drop_first() =~= buffers@.skip(i + 1));
        }
        if buffers[i].valid && buffers[i].handle != dashboard {
            return Some(buffers[i].handle);
        }
        i = i + 1;
    }
    None
}

impl DashboardSession {
    /// The session shows a frame with buttons, on the lines from
    /// `first_button_line` on, and the cursor column is that of the first
    /// button.
    pub open spec fn wf(&self) -> bool {
        &&& self.frame.button_count > 0
        &&& self.first_button_line == self.frame.first_button_line
        &&& self.last_button_line == self.first_button_line + self.frame.button_count - 1
        &&& 1 <= self.first_button_line <= self.last_button_line <= self.frame.lines@.len()
        &&& self.cursor_col == anchor_column(self.frame@.lines, self.first_button_line as int)
    }

    /// What a key does when the cursor is on `cur_line`, counted from 1: a
    /// motion key moves the cursor over the buttons and anchors it on the
    /// first character that is not white space; the confirm key executes
    /// the command of the line, if the line has one; no other key does
    /// anything.
    pub fn on_key(&self, action: KeyAction, cur_line: usize) -> (r: KeyEffect)
        ensures
            match action {
                KeyAction::Up | KeyAction::Down => {
                    let target = moved(
                        cur_line as int,
                        self.first_button_line as int,
                        self.last_button_line as int,
                        if action == KeyAction::Up {
                            -1
                        } else {
                            1int
                        },
                    );
                    r matches KeyEffect::MoveCursor { line, col } && line == target && col
                        == anchor_column(self.frame@.lines, target)
                },
                KeyAction::Confirm => if self.frame@.command_map.contains_key(cur_line as nat) {
                    r matches KeyEffect::Execute(command) && command@
                        == self.frame@.command_map[cur_line as nat]
                } else {
                    r is Nothing
                },
                KeyAction::Nop => r is Nothing,
            },
    {
        match action {
            KeyAction::Up | KeyAction::Down => {
                let direction: isize = match action {
                    KeyAction::Up => -1,
                    _ => 1,
                };
                let line = KeymapManager::move_cursor(
                    cur_line,
                    self.first_button_line,
                    self.last_button_line,
                    direction,
                );
                let col = match self.frame.line_at(line) {
                    Some(text) => leading_whitespace(text.as_str()),
                    None => 0,
                };
                KeyEffect::MoveCursor { line, col }
            },
            KeyAction::Confirm => match self.frame.command_at(cur_line) {
                Some(command) => KeyEffect::Execute(command.clone()),
                None => KeyEffect::Nothing,
            },
            KeyAction::Nop => KeyEffect::Nothing,
        }
    }
}

impl Dashboard {
    /// A plugin with the given configuration, no elements yet, and no
    /// dashboard open.
    pub fn new(config: Config) -> (r: Self)
        ensures
            r.config == config,
            r.content.elements@ == Seq::<ContentElement>::empty(),
            r.state is Idle,
    {
        Dashboard { config, content: Content::new(), state: DashboardState::Idle }
    }

    /// The state is sound: an open session is well formed.
    pub open spec fn wf(&self) -> bool {
        self.state matches DashboardState::Open(session) ==> session.wf()
    }

    /// Reads the configuration from the options and builds the elements of
    /// the dashboard from it. The state stays as it is.
    pub fn setup(&mut self, options: &DynValue) -> (plan: SetupPlan)
        ensures
            final(self).config@ == config_of(*options),
            is_content_of(final(self).content.elements@, config_of(*options)),
            final(self).state == old(self).state,
            plan.keymap@ == config_of(*options).keymap,
            plan.command@ == TOGGLE_COMMAND@,
            plan.open_on_ui_enter == config_of(*options).open_on_start,
    {
        self.config = Config::from_dict(options);
        self.content = dashboard_content(&self.config);
        SetupPlan {
            keymap: self.config.keymap.clone(),
            command: TOGGLE_COMMAND,
            open_on_ui_enter: self.config.open_on_start,
        }
    }

    /// What a toggle does: it opens the dashboard where none is open, and
    /// closes the one that is.
    pub fn toggle_dashboard(&self) -> (r: ToggleDecision)
        ensures
            r == match self.state {
                DashboardState::Idle => ToggleDecision::Open,
                DashboardState::Open(_) => ToggleDecision::Close,
                DashboardState::Closing(_) => ToggleDecision::Nothing,
            },
    {
        match &self.state {
            DashboardState::Idle => ToggleDecision::Open,
            DashboardState::Open(_) => ToggleDecision::Close,
            DashboardState::Closing(_) => ToggleDecision::Nothing,
        }
    }

    /// Opens the dashboard in the fresh scratch buffer `buf`, for a window
    /// of `win_width` by `win_height` cells.
    ///
    /// On success the session is open and the plan says what the caller
    /// does. Where the elements are those that `setup` built from the
    /// configuration, the lines with a command are exactly the lines from
    /// the first button to the last. It fails, and leaves everything as it
    /// was, when a row is too wide to count, and when the dashboard has no
    /// button; the caller then deletes `buf`.
    pub fn open_dashboard(
        &mut self,
        host: &HostSnapshot,
        buf: i32,
        win_width: usize,
        win_height: usize,
    ) -> (r: Result<OpenPlan, PluginError>)
        requires
            old(self).state is Idle,
        ensures
            final(self).config == old(self).config,
            final(self).content == old(self).content,
            final(self).wf(),
            r is Ok <==> old(self).content.fits() && count_buttons(
                old(self).content.records(win_width as nat),
            ) > 0,
            r matches Err(e) ==> final(self).state is Idle && e@ == if old(self).content.fits() {
                no_buttons()
            } else {
                too_wide()
            },
            r matches Ok(plan) ==> {
                let rows = old(self).content.records(win_width as nat);
                &&& final(self).state matches DashboardState::Open(session)
                &&& session.buf == buf
                &&& session.frame@ == frame_of(rows, win_height as nat)
                &&& session.frame.command_map@.len() == session.frame.button_count
                &&& session.previous_buf == if file_buffer_count(host.buffers@) == 0 {
                    None
                } else {
                    Some(host.current.handle)
                }
                &&& plan.wipe_previous == (host.current.is_unnamed() && !host.current.modified)
                &&& plan.cursor_line == session.first_button_line
                &&& plan.cursor_col == session.cursor_col
                &&& is_content_of(old(self).content.elements@, old(self).config@) ==> forall|
                    l: nat,
                |
                    session.frame@.command_map.contains_key(l) <==> session.first_button_line <= l
                        <= session.last_button_line
            },
    {
        let frame = match self.content.render(win_width, win_height) {
            Ok(frame) => frame,
            Err(e) => {
                return Err(e);
            },
        };
        if frame.button_count == 0 {
            return Err(PluginError::custom("No buttons found for keybinds"));
        }
        proof {
            let rows = self.content.records(win_width as nat);
            if is_content_of(self.content.elements@, self.config@) {
                lemma_content_of_config(self.content.elements@, self.config@, win_width as nat);
                lemma_dashboard_command_lines(self.config@, win_width as nat, win_height as nat);
            }
            lemma_buttons_follow_the_first(rows);
            assert(frame@.lines.len() == frame.lines@.len());
            assert(top_padding_of(rows.len(), win_height as nat) + rows.len() <= frame@.lines.len());
            assert(frame.lines@.len() == frame.lines.len());
        }
        let previous_buf = if count_file_buffers(&host.buffers) == 0 {
            None
        } else {
            Some(host.current.handle)
        };
        let wipe_previous = host.current.name.as_str().is_empty() && !host.current.modified;
        let first_button_line = frame.first_button_line;
        let last_button_line = first_button_line + (frame.button_count - 1);
        let cursor_col = match frame.line_at(first_button_line) {
            Some(text) => leading_whitespace(text.as_str()),
            None => 0,
        };
        self.state = DashboardState::Open(
            DashboardSession {
                buf,
                frame,
                first_button_line,
                last_button_line,
                previous_buf,
                cursor_col,
            },
        );
        Ok(OpenPlan { wipe_previous, cursor_line: first_button_line, cursor_col })
    }

    /// Starts to close the dashboard. Where the host has at most one file
    /// buffer the dashboard is the last resort: it stays, and nothing
    /// changes. Otherwise the session ends, and the caller switches to the
    /// buffer that the action names and then calls `finish_close`.
    pub fn close_dashboard(&mut self, host: &HostSnapshot) -> (r: CloseAction)
        requires
            old(self).state is Open,
        ensures
            final(self).config == old(self).config,
            final(self).content == old(self).content,
            file_buffer_count(host.buffers@) <= 1 ==> r == CloseAction::Stay && final(self).state
                == old(self).state,
            file_buffer_count(host.buffers@) > 1 ==> {
                let session = old(self).state->Open_0;
                &&& final(self).state == DashboardState::Closing(session.buf)
                &&& r == (CloseAction::Close {
                    switch_to: close_target(session.previous_buf, host.buffers@, session.buf),
                })
            },
    {
        if count_file_buffers(&host.buffers) <= 1 {
            return CloseAction::Stay;
        }
        let (buf, previous) = match &self.state {
            DashboardState::Open(session) => (session.buf, session.previous_buf),
            _ => (0, None),
        };
        let switch_to = match previous {
            Some(p) => if handle_is_valid(&host.buffers, p) {
                Some(p)
            } else {
                find_other_valid(&host.buffers, buf)
            },
            None => find_other_valid(&host.buffers, buf),
        };
        self.state = DashboardState::Closing(buf);
        CloseAction::Close { switch_to }
    }

    /// Ends a close: no dashboard is open any more, and the caller deletes
    /// the buffer that is returned. None is returned where no close was
    /// under way, or the host has already disposed of the buffer.
    pub fn finish_close(&mut self, buffer_is_valid: bool) -> (r: Option<i32>)
        ensures
            final(self).config == old(self).config,
            final(self).content == old(self).content,
            match old(self).state {
                DashboardState::Closing(buf) => final(self).state is Idle && r == if buffer_is_valid {
                    Some(buf)
                } else {
                    None
                },
                _ => final(self).state == old(self).state && r is None,
            },
    {
        match &self.state {
            DashboardState::Closing(buf) => {
                let handle = *buf;
                self.state = DashboardState::Idle;
                if buffer_is_valid {
                    Some(handle)
                } else {
                    None
                }
            },
            _ => None,
        }
    }

    /// Another buffer has become current. Where it is a file buffer other
    /// than the dashboard's, the dashboard is over: no dashboard is open any
    /// more, and the caller deletes the buffer that is returned, which is
    /// the dashboard's if the host still has it.
    pub fn on_buffer_enter(&mut self, current_buf: i32, buftype: &str, dashboard_is_valid: bool)
        -> (r: Option<i32>)
        ensures
            final(self).config == old(self).config,
            final(self).content == old(self).content,
            match old(self).dashboard_buffer() {
                Some(buf) => if buftype@.len() == 0 && current_buf != buf {
                    final(self).state is Idle && r == if dashboard_is_valid {
                        Some(buf)
                    } else {
                        None
                    }
                } else {
                    final(self).state == old(self).state && r is None
                },
                None => final(self).state == old(self).state && r is None,
            },
    {
        let buf = match &self.state {
            DashboardState::Open(session) => session.buf,
            DashboardState::Closing(buf) => *buf,
            DashboardState::Idle => {
                return None;
            },
        };
        if buftype.is_empty() && current_buf != buf {
            self.state = DashboardState::Idle;
            if dashboard_is_valid {
                Some(buf)
            } else {
                None
            }
        } else {
            None
        }
    }

    /// The buffer of the dashboard that is open or being closed.
    pub open spec fn dashboard_buffer(&self) -> Option<i32> {
        match self.state {
            DashboardState::Open(session) => Some(session.buf),
            DashboardState::Closing(buf) => Some(buf),
            DashboardState::Idle => None,
        }
    }

    /// An error has reached the plugin while a dashboard was shown or set
    /// up. No dashboard is open any more. The caller writes the first
    /// component to the host's error channel and deletes the buffer in the
    /// second, if there is one.
    pub fn handle_failure(&mut self, error: &PluginError) -> (r: (String, Option<i32>))
        ensures
            final(self).config == old(self).config,
            final(self).content == old(self).content,
            final(self).state is Idle,
            r.0@ == error@.message(),
            r.1 == old(self).dashboard_buffer(),
    {
        let buf = match &self.state {
            DashboardState::Open(session) => Some(session.buf),
            DashboardState::Closing(buf) => Some(*buf),
            DashboardState::Idle => None,
        };
        self.state = DashboardState::Idle;
        (error.message(), buf)
    }
}

} // verus!

//! The rendered frame: the display lines of a dashboard in a viewport, with
//! the bookkeeping that the presenter and the navigation need.
use crate::content::{record_views, records_wf, RecordView, RenderRecord};
use crate::text::{
    blanks, byte_len, lemma_blanks_bytes, lemma_blanks_width, lemma_bytes_concat,
    lemma_text_width_concat, spaces, text_width, views,
};
use vstd::utf8::encode_utf8;
use std::collections::HashMap;
use vstd::prelude::*;
use vstd::string::*;

verus! {

/// A highlighted stretch of one line, as a mathematical value. `line` counts
/// from 0; the columns are display cells; the stretch runs from the byte
/// `byte_start` of the line up to the byte `byte_end`.
pub struct SpanView {
    pub line: nat,
    pub group: Seq<char>,
    pub col_start: nat,
    pub col_len: nat,
    pub byte_start: nat,
    pub byte_end: nat,
}

/// A highlighted stretch of one line. `line` counts from 0. The stretch is
/// given twice: in display cells, and in bytes of the line.
#[derive(Debug)]
pub struct HighlightSpan {
    pub line: usize,
    pub group: String,
    pub col_start: usize,
    pub col_len: usize,
    pub byte_start: usize,
    pub byte_end: usize,
}

impl View for HighlightSpan {
    type V = SpanView;

    open spec fn view(&self) -> SpanView {
        SpanView {
            line: self.line as nat,
            group: self.group@,
            col_start: self.col_start as nat,
            col_len: self.col_len as nat,
            byte_start: self.byte_start as nat,
            byte_end: self.byte_end as nat,
        }
    }
}

/// The views of a list of spans.
pub open spec fn span_views(v: Seq<HighlightSpan>) -> Seq<SpanView> {
    Seq::new(v.len(), |i: int| v[i]@)
}

/// A frame as a mathematical value. Lines are numbered from 1 in
/// `first_button_line` and in the keys of `command_map`.
pub struct FrameView {
    pub lines: Seq<Seq<char>>,
    pub button_count: nat,
    pub first_button_line: nat,
    pub command_map: Map<nat, Seq<char>>,
    pub highlights: Seq<SpanView>,
    pub top_padding: nat,
}

/// What the renderer hands to the presenter.
#[derive(Debug)]
pub struct RenderedFrame {
    pub lines: Vec<String>,
    pub button_count: usize,
    pub first_button_line: usize,
    pub command_map: HashMap<usize, String>,
    pub highlights: Vec<HighlightSpan>,
    pub top_padding: usize,
}

/// A map from line numbers to commands as a map from naturals to texts.
pub open spec fn command_views(m: Map<usize, String>) -> Map<nat, Seq<char>> {
    Map::new(|l: nat| l <= usize::MAX && m.contains_key(l as usize), |l: nat| m[l as usize]@)
}

impl View for RenderedFrame {
    type V = FrameView;

    open spec fn view(&self) -> FrameView {
        FrameView {
            lines: views(self.lines@),
            button_count: self.button_count as nat,
            first_button_line: self.first_button_line as nat,
            command_map: command_views(self.command_map@),
            highlights: span_views(self.highlights@),
            top_padding: self.top_padding as nat,
        }
    }
}

/// The blank lines above `count` rows in a viewport `win_height` lines high:
/// half of what is left over, and none when the rows do not fit.
pub open spec fn top_padding_of(count: nat, win_height: nat) -> nat {
    if win_height >= count {
        ((win_height - count) / 2) as nat
    } else {
        0
    }
}

/// The number of lines of a frame: the height of the viewport, or the number
/// of rows when they do not fit.
pub open spec fn frame_height(count: nat, win_height: nat) -> nat {
    if win_height >= count {
        win_height
    } else {
        count
    }
}

/// The lines of a frame: blank lines above, the padded rows, blank lines
/// below.
pub open spec fn frame_lines(rs: Seq<RecordView>, win_height: nat) -> Seq<Seq<char>> {
    let top = top_padding_of(rs.len(), win_height);
    Seq::new(
        frame_height(rs.len(), win_height),
        |i: int|
            if top <= i < top + rs.len() {
                rs[i - top].line()
            } else {
                Seq::<char>::empty()
            },
    )
}

/// The number of button rows.
pub open spec fn count_buttons(rs: Seq<RecordView>) -> nat
    decreases rs.len(),
{
    if rs.len() == 0 {
        0
    } else {
        count_buttons(rs.drop_last()) + if rs.last().is_button() {
            1nat
        } else {
            0nat
        }
    }
}

/// The index of the first button row, if there is one.
pub open spec fn first_button(rs: Seq<RecordView>) -> Option<nat>
    decreases rs.len(),
{
    if rs.len() == 0 {
        None
    } else {
        match first_button(rs.drop_last()) {
            Some(f) => Some(f),
            None => if rs.last().is_button() {
                Some((rs.len() - 1) as nat)
            } else {
                None
            },
        }
    }
}

/// The line of the first button row, counted from 1; the line below the top
/// padding when there is no button.
pub open spec fn first_button_line_of(rs: Seq<RecordView>, top: nat) -> nat {
    match first_button(rs) {
        Some(f) => top + f + 1,
        None => top + 1,
    }
}

/// Line `line`, counted from 1, shows a button row.
pub open spec fn is_button_line(rs: Seq<RecordView>, top: nat, line: nat) -> bool {
    top < line <= top + rs.len() && rs[line - top - 1].is_button()
}

/// The commands of the button rows by their lines, counted from 1.
pub open spec fn command_map_of(rs: Seq<RecordView>, top: nat) -> Map<nat, Seq<char>> {
    Map::new(|l: nat| is_button_line(rs, top, l), |l: nat| rs[l - top - 1].command->0)
}

/// The highlight spans of the rows, in order: one for each row with text,
/// over the whole of the text.
pub open spec fn spans_of(rs: Seq<RecordView>, top: nat) -> Seq<SpanView>
    decreases rs.len(),
{
    if rs.len() == 0 {
        Seq::<SpanView>::empty()
    } else {
        let before = spans_of(rs.drop_last(), top);
        let row = rs.last();
        if text_width(row.raw) > 0 {
            before.push(
                SpanView {
                    line: (top + rs.len() - 1) as nat,
                    group: row.group,
                    col_start: row.lead,
                    col_len: text_width(row.raw),
                    byte_start: row.lead,
                    byte_end: byte_len(row.line()),
                },
            )
        } else {
            before
        }
    }
}

/// The frame of the rows `rs` in a viewport `win_height` lines high.
pub open spec fn frame_of(rs: Seq<RecordView>, win_height: nat) -> FrameView {
    let top = top_padding_of(rs.len(), win_height);
    FrameView {
        lines: frame_lines(rs, win_height),
        button_count: count_buttons(rs),
        first_button_line: first_button_line_of(rs, top),
        command_map: command_map_of(rs, top),
        highlights: spans_of(rs, top),
        top_padding: top,
    }
}

/// The button rows stand next to each other: no other row lies between two
/// of them.
pub open spec fn buttons_in_a_row(rs: Seq<RecordView>) -> bool {
    forall|i: int, j: int, k: int|
        0 <= i <= j <= k < rs.len() && rs[i].is_button() && rs[k].is_button() ==> rs[j].is_button()
}

/// `first_button` finds a button row with no button row before it, and finds
/// none only where there is none; there are no more button rows than rows.
pub proof fn lemma_first_button(rs: Seq<RecordView>)
    ensures
        count_buttons(rs) <= rs.len(),
        match first_button(rs) {
            Some(f) => f < rs.len() && rs[f as int].is_button() && count_buttons(rs) > 0 && forall|
                j: int,
            | 0 <= j < f ==> !rs[j].is_button(),
            None => count_buttons(rs) == 0 && forall|j: int|
                0 <= j < rs.len() ==> !rs[j].is_button(),
        },
    decreases rs.len(),
{
    if rs.len() > 0 {
        lemma_first_button(rs.drop_last());
        assert(forall|j: int| 0 <= j < rs.len() - 1 ==> rs[j] == rs.drop_last()[j]);
    }
}

/// The button rows all lie from the first button row on.
pub proof fn lemma_buttons_follow_the_first(rs: Seq<RecordView>)
    ensures
        match first_button(rs) {
            Some(f) => f + count_buttons(rs) <= rs.len(),
            None => count_buttons(rs) == 0,
        },
    decreases rs.len(),
{
    if rs.len() > 0 {
        lemma_buttons_follow_the_first(rs.drop_last());
    }
}

/// Where the button rows stand next to each other, they are exactly the
/// rows from the first button row on, as many as there are buttons.
pub proof fn lemma_buttons_form_a_band(rs: Seq<RecordView>)
    requires
        buttons_in_a_row(rs),
    ensures
        match first_button(rs) {
            Some(f) => f + count_buttons(rs) <= rs.len() && forall|i: int|
                0 <= i < rs.len() ==> (rs[i].is_button() <==> f <= i < f + count_buttons(rs)),
            None => true,
        },
    decreases rs.len(),
{
    if rs.len() > 0 {
        let head = rs.drop_last();
        assert(forall|j: int| 0 <= j < rs.len() - 1 ==> rs[j] == head[j]);
        assert(buttons_in_a_row(head));
        lemma_buttons_form_a_band(head);
        lemma_first_button(head);
        lemma_first_button(rs);
        match first_button(head) {
            Some(f) => {
                if rs.last().is_button() {
                    assert(forall|j: int| f <= j <= rs.len() - 1 ==> rs[j].is_button());
                    let next = (f + count_buttons(head)) as int;
                    if next < rs.len() - 1 {
                        assert(rs[next].is_button());
                        assert(head[next].is_button());
                    }
                }
            },
            None => {},
        }
    }
}

/// The buttons of two lists of rows, one after the other, are those of both.
pub proof fn lemma_count_adds(a: Seq<RecordView>, b: Seq<RecordView>)
    ensures
        count_buttons(a + b) == count_buttons(a) + count_buttons(b),
    decreases b.len(),
{
    if b.len() == 0 {
        assert(a + b =~= a);
    } else {
        lemma_count_adds(a, b.drop_last());
        assert((a + b).drop_last() =~= a + b.drop_last());
    }
}

/// Rows of which none is a button count no button.
pub proof fn lemma_count_of_plain_rows(rs: Seq<RecordView>)
    requires
        forall|i: int| 0 <= i < rs.len() ==> !rs[i].is_button(),
    ensures
        count_buttons(rs) == 0,
    decreases rs.len(),
{
    if rs.len() > 0 {
        lemma_count_of_plain_rows(rs.drop_last());
    }
}

/// Rows that are all buttons count one button each.
pub proof fn lemma_count_of_button_rows(rs: Seq<RecordView>)
    requires
        forall|i: int| 0 <= i < rs.len() ==> rs[i].is_button(),
    ensures
        count_buttons(rs) == rs.len(),
    decreases rs.len(),
{
    if rs.len() > 0 {
        lemma_count_of_button_rows(rs.drop_last());
    }
}

/// The command map has one entry for each button row.
pub proof fn lemma_one_command_per_button(rs: Seq<RecordView>, top: nat)
    ensures
        command_map_of(rs, top).dom().finite(),
        command_map_of(rs, top).dom().len() == count_buttons(rs),
    decreases rs.len(),
{
    if rs.len() == 0 {
        assert(command_map_of(rs, top).dom() =~= Set::<nat>::empty());
    } else {
        let head = rs.drop_last();
        let line = top + rs.len();
        lemma_one_command_per_button(head, top);
        assert(forall|j: int| 0 <= j < rs.len() - 1 ==> rs[j] == head[j]);
        if rs.last().is_button() {
            assert(command_map_of(rs, top).dom() =~= command_map_of(head, top).dom().insert(line));
        } else {
            assert(command_map_of(rs, top).dom() =~= command_map_of(head, top).dom());
        }
    }
}

/// The keys of the command map of a frame whose button rows stand next to
/// each other are exactly the lines from the first button line on, as many
/// as there are buttons.
pub proof fn lemma_command_lines_are_a_range(rs: Seq<RecordView>, win_height: nat)
    requires
        buttons_in_a_row(rs),
    ensures
        forall|l: nat|
            frame_of(rs, win_height).command_map.contains_key(l) <==> frame_of(
                rs,
                win_height,
            ).first_button_line <= l < frame_of(rs, win_height).first_button_line + frame_of(
                rs,
                win_height,
            ).button_count,
{
    let frame = frame_of(rs, win_height);
    let top = frame.top_padding;
    lemma_buttons_form_a_band(rs);
    lemma_first_button(rs);
    assert forall|l: nat|
        frame.command_map.contains_key(l) <==> frame.first_button_line <= l
            < frame.first_button_line + frame.button_count by {
        if top < l <= top + rs.len() {
            let i = l - top - 1;
            assert(0 <= i < rs.len());
        }
    }
}

/// With room for all rows, the blank lines above them are half of the lines
/// left over, rounded down.
pub proof fn lemma_top_padding_centers(rs: Seq<RecordView>, win_height: nat)
    requires
        win_height >= rs.len(),
    ensures
        frame_of(rs, win_height).top_padding == (win_height - rs.len()) / 2,
        frame_of(rs, win_height).lines.len() == win_height,
{
}

/// Without room for all rows there is no padding, and every row is shown.
pub proof fn lemma_no_row_is_cut(rs: Seq<RecordView>, win_height: nat)
    ensures
        frame_of(rs, win_height).lines.len() >= rs.len(),
        forall|i: int|
            0 <= i < rs.len() ==> frame_of(rs, win_height).lines[frame_of(
                rs,
                win_height,
            ).top_padding + i] == rs[i].line(),
        win_height < rs.len() ==> frame_of(rs, win_height).top_padding == 0 && frame_of(
            rs,
            win_height,
        ).lines.len() == rs.len(),
{
}

/// Every highlight span of a frame lies on a line of the frame, is not
/// empty, and ends within the display width of its line.
pub proof fn lemma_spans_lie_in_lines(rs: Seq<RecordView>, win_height: nat)
    ensures
        forall|k: int|
            0 <= k < frame_of(rs, win_height).highlights.len() ==> {
                let span = #[trigger] frame_of(rs, win_height).highlights[k];
                &&& span.line < frame_of(rs, win_height).lines.len()
                &&& span.col_len > 0
                &&& span.col_start + span.col_len <= text_width(
                    frame_of(rs, win_height).lines[span.line as int],
                )
            },
{
    let top = top_padding_of(rs.len(), win_height);
    lemma_spans_point_at_rows(rs, top);
    assert forall|k: int| 0 <= k < frame_of(rs, win_height).highlights.len() implies {
        let span = #[trigger] frame_of(rs, win_height).highlights[k];
        &&& span.line < frame_of(rs, win_height).lines.len()
        &&& span.col_len > 0
        &&& span.col_start + span.col_len <= text_width(
            frame_of(rs, win_height).lines[span.line as int],
        )
    } by {
        let span = spans_of(rs, top)[k];
        let row = rs[span.line - top];
        lemma_blanks_width(row.lead);
        lemma_text_width_concat(blanks(row.lead), row.raw);
    }
}

/// The bytes of a highlight span are those of the text of its row: they
/// begin where the padding ends and run to the end of the line.
pub proof fn lemma_span_bytes_hold_the_text(rs: Seq<RecordView>, win_height: nat)
    ensures
        forall|k: int|
            0 <= k < frame_of(rs, win_height).highlights.len() ==> {
                let span = #[trigger] frame_of(rs, win_height).highlights[k];
                let line = frame_of(rs, win_height).lines[span.line as int];
                let row = rs[span.line - frame_of(rs, win_height).top_padding];
                &&& span.byte_start <= span.byte_end == encode_utf8(line).len()
                &&& encode_utf8(line).subrange(span.byte_start as int, span.byte_end as int)
                    == encode_utf8(row.raw)
            },
{
    let top = top_padding_of(rs.len(), win_height);
    lemma_spans_point_at_rows(rs, top);
    assert forall|k: int| 0 <= k < frame_of(rs, win_height).highlights.len() implies {
        let span = #[trigger] frame_of(rs, win_height).highlights[k];
        let line = frame_of(rs, win_height).lines[span.line as int];
        let row = rs[span.line - frame_of(rs, win_height).top_padding];
        &&& span.byte_start <= span.byte_end == encode_utf8(line).len()
        &&& encode_utf8(line).subrange(span.byte_start as int, span.byte_end as int)
            == encode_utf8(row.raw)
    } by {
        let span = spans_of(rs, top)[k];
        let row = rs[span.line - top];
        lemma_blanks_bytes(row.lead);
        lemma_bytes_concat(blanks(row.lead), row.raw);
        assert((encode_utf8(blanks(row.lead)) + encode_utf8(row.raw)).subrange(
            row.lead as int,
            byte_len(row.line()) as int,
        ) =~= encode_utf8(row.raw));
    }
}

/// Every span stands for one row with text: it lies on that row's line,
/// starts after the row's padding and covers the row's text.
pub proof fn lemma_spans_point_at_rows(rs: Seq<RecordView>, top: nat)
    ensures
        spans_of(rs, top).len() <= rs.len(),
        forall|k: int|
            0 <= k < spans_of(rs, top).len() ==> {
                let span = #[trigger] spans_of(rs, top)[k];
                &&& top <= span.line < top + rs.len()
                &&& span.group == rs[span.line - top].group
                &&& span.col_start == rs[span.line - top].lead
                &&& span.col_len == text_width(rs[span.line - top].raw)
                &&& span.col_len > 0
                &&& span.byte_start == rs[span.line - top].lead
                &&& span.byte_end == byte_len(rs[span.line - top].line())
            },
    decreases rs.len(),
{
    if rs.len() > 0 {
        lemma_spans_point_at_rows(rs.drop_last(), top);
        assert(forall|j: int| 0 <= j < rs.len() - 1 ==> rs[j] == rs.drop_last()[j]);
    }
}

/// Appends `count` blank lines.
fn push_blank_lines(lines: &mut Vec<String>, count: usize)
    ensures
        final(lines)@.len() == old(lines)@.len() + count,
        forall|i: int| 0 <= i < old(lines)@.len() ==> final(lines)@[i] == old(lines)@[i],
        forall|i: int|
            old(lines)@.len() <= i < final(lines)@.len() ==> (#[trigger] final(lines)@[i])@
                == Seq::<char>::empty(),
{
    let mut k: usize = 0;
    while k < count
        invariant
            k <= count,
            lines@.len() == old(lines)@.len() + k,
            forall|i: int| 0 <= i < old(lines)@.len() ==> lines@[i] == old(lines)@[i],
            forall|i: int|
                old(lines)@.len() <= i < lines@.len() ==> (#[trigger] lines@[i])@ == Seq::<
                    char,
                >::empty(),
        decreases count - k,
    {
        lines.push(String::new());
        k = k + 1;
    }
}

/// Places rows in a viewport `win_height` lines high: centres them
/// vertically, numbers the lines from 1, maps each button line to its
/// command and records the highlight span of each row with text.
pub fn compose_frame(records: &Vec<RenderRecord>, win_height: usize) -> (frame: RenderedFrame)
    requires
        records_wf(records@),
    ensures
        frame@ == frame_of(record_views(records@), win_height as nat),
        frame.command_map@.dom().finite(),
        frame.command_map@.len() == frame.button_count,
{
    let ghost rs = record_views(records@);
    let count = records.len();
    let top: usize = if win_height >= count {
        (win_height - count) / 2
    } else {
        0
    };
    let height: usize = if win_height >= count {
        win_height
    } else {
        count
    };
    let mut lines: Vec<String> = Vec::new();
    push_blank_lines(&mut lines, top);
    let mut button_count: usize = 0;
    let mut first: Option<usize> = None;
    let mut command_map: HashMap<usize, String> = HashMap::new();
    let mut highlights: Vec<HighlightSpan> = Vec::new();
    let mut i: usize = 0;
    proof {
        assert(rs.take(0) =~= Seq::<RecordView>::empty());
        assert(span_views(highlights@) =~= spans_of(rs.take(0), top as nat));
    }
    while i < count
        invariant
            i <= count,
            count == records.len(),
            rs == record_views(records@),
            records_wf(records@),
            top + count <= height,
            lines.len() == top + i,
            forall|k: int| 0 <= k < top ==> (#[trigger] lines@[k])@ == Seq::<char>::empty(),
            forall|k: int| 0 <= k < i ==> (#[trigger] lines@[top + k])@ == rs[k].line(),
            button_count == count_buttons(rs.take(i as int)),
            button_count <= i,
            match first {
                Some(f) => f < i && first_button(rs.take(i as int)) == Some(f as nat),
                None => first_button(rs.take(i as int)) == None::<nat>,
            },
            command_map@.dom().finite(),
            command_map@.len() == button_count,
            forall|l: usize|
                command_map@.contains_key(l) <==> top < l <= top + i && rs[l - top - 1].is_button(),
            forall|l: usize|
                command_map@.contains_key(l) ==> (#[trigger] command_map@[l])@ == rs[l - top
                    - 1].command->0,
            span_views(highlights@) == spans_of(rs.take(i as int), top as nat),
        decreases count - i,
    {
        let record = &records[i];
        proof {
            assert(rs.take(i + 1).drop_last() =~= rs.take(i as int));
            assert(rs.take(i + 1).last() == record@);
            assert(record.wf());
        }
        let mut line = spaces(record.lead);
        line.append(record.raw.as_str());
        let bytes = line.as_str().as_bytes().len();
        lines.push(line);
        let number: usize = top + i + 1;
        if let Some(command) = &record.command {
            proof {
                assert(!command_map@.contains_key(number));
            }
            command_map.insert(number, command.clone());
            button_count = button_count + 1;
            if first.is_none() {
                first = Some(i);
            }
        }
        if record.width > 0 {
            let ghost before = span_views(highlights@);
            let span = HighlightSpan {
                line: top + i,
                group: record.group.clone(),
                col_start: record.lead,
                col_len: record.width,
                byte_start: record.lead,
                byte_end: bytes,
            };
            highlights.push(span);
            proof {
                assert(span_views(highlights@) =~= before.push(span@));
            }
        }
        i = i + 1;
    }
    let ghost rows = lines@;
    push_blank_lines(&mut lines, height - top - count);
    let first_button_line: usize = match first {
        Some(f) => top + f + 1,
        None => top + 1,
    };
    let frame = RenderedFrame {
        lines,
        button_count,
        first_button_line,
        command_map,
        highlights,
        top_padding: top,
    };
    proof {
        assert(rs.take(count as int) =~= rs);
        assert forall|k: int| 0 <= k < height implies #[trigger] views(frame.lines@)[k]
            == frame_lines(rs, win_height as nat)[k] by {
            if k < top {
                assert(frame.lines@[k] == rows[k]);
            } else if k < top + count {
                assert(frame.lines@[k] == rows[top + (k - top)]);
            }
        }
        assert(frame@.lines =~= frame_lines(rs, win_height as nat));
        assert(frame@.command_map =~= command_map_of(rs, top as nat));
    }
    frame
}

impl RenderedFrame {
    /// The command of the button on `line`, counted from 1, where the line
    /// shows a button.
    pub fn command_at(&self, line: usize) -> (r: Option<&String>)
        ensures
            match r {
                Some(c) => self@.command_map.contains_key(line as nat) && self@.command_map[line as nat]
                    == c@,
                None => !self@.command_map.contains_key(line as nat),
            },
    {
        self.command_map.get(&line)
    }

    /// The line with the given number, counted from 1, where the frame has
    /// it.
    pub fn line_at(&self, line: usize) -> (r: Option<&String>)
        ensures
            match r {
                Some(text) => 1 <= line <= self@.lines.len() && text@ == self@.lines[line - 1],
                None => line < 1 || line > self@.lines.len(),
            },
    {
        if 1 <= line && line <= self.lines.len() {
            Some(&self.lines[line - 1])
        } else {
            None
        }
    }
}

} // verus!

//! The layout of the dashboard as rows and columns, each of which may show
//! content and hold further rows and columns.
use crate::config::content::{content_if_any, content_view, Content, ContentView};
use crate::config::defaults::DEFAULT_SIZE;
use crate::config::layout::column::ColumnBuilder;
use crate::config::highlights::{
    highlights_of, highlights_view, parse_highlights, Highlights, HighlightsView,
};
use crate::config::value::{lookup, DynValue};
use crate::config::{
    bool_option, parse_bool_option, parse_string_option, parse_usize_option, string_option,
    usize_option,
};
use vstd::prelude::*;
use vstd::string::*;

pub mod column;

verus! {

/// A row of the layout.
#[derive(Debug)]
pub struct Row {
    pub columns: Vec<Column>,
    pub content: Option<Content>,
    pub width: String,
    pub height: String,
    pub priority: Option<usize>,
    pub hide_on_resize: Option<bool>,
}

/// A column of the layout.
#[derive(Debug)]
pub struct Column {
    pub width: String,
    pub height: String,
    pub content: Option<Content>,
    pub rows: Vec<Row>,
    pub columns: Vec<Column>,
    pub active: bool,
    pub highlights: Option<Highlights>,
    pub priority: Option<usize>,
    pub hide_on_resize: Option<bool>,
}

/// The rows of the dashboard, from top to bottom.
#[derive(Debug)]
pub struct DashboardLayout {
    pub rows: Vec<Row>,
}

/// A `Row` as a mathematical value.
pub struct RowView {
    pub columns: Seq<ColumnView>,
    pub content: Option<ContentView>,
    pub width: Seq<char>,
    pub height: Seq<char>,
    pub priority: Option<usize>,
    pub hide_on_resize: Option<bool>,
}

/// A `Column` as a mathematical value.
pub struct ColumnView {
    pub width: Seq<char>,
    pub height: Seq<char>,
    pub content: Option<ContentView>,
    pub rows: Seq<RowView>,
    pub columns: Seq<ColumnView>,
    pub active: bool,
    pub highlights: Option<HighlightsView>,
    pub priority: Option<usize>,
    pub hide_on_resize: Option<bool>,
}

/// The view of a row.
pub open spec fn row_view(r: Row) -> RowView
    decreases r,
{
    RowView {
        columns: column_views(r.columns@),
        content: content_view(r.content),
        width: r.width@,
        height: r.height@,
        priority: r.priority,
        hide_on_resize: r.hide_on_resize,
    }
}

/// The view of a column.
pub open spec fn column_view(c: Column) -> ColumnView
    decreases c,
{
    ColumnView {
        width: c.width@,
        height: c.height@,
        content: content_view(c.content),
        rows: row_views(c.rows@),
        columns: column_views(c.columns@),
        active: c.active,
        highlights: highlights_view(c.highlights),
        priority: c.priority,
        hide_on_resize: c.hide_on_resize,
    }
}

/// The views of a list of rows.
pub open spec fn row_views(rows: Seq<Row>) -> Seq<RowView>
    decreases rows,
{
    if rows.len() == 0 {
        Seq::<RowView>::empty()
    } else {
        row_views(rows.drop_last()).push(row_view(rows.last()))
    }
}

/// The views of a list of columns.
pub open spec fn column_views(columns: Seq<Column>) -> Seq<ColumnView>
    decreases columns,
{
    if columns.len() == 0 {
        Seq::<ColumnView>::empty()
    } else {
        column_views(columns.drop_last()).push(column_view(columns.last()))
    }
}

impl View for Row {
    type V = RowView;

    open spec fn view(&self) -> RowView {
        row_view(*self)
    }
}

impl View for Column {
    type V = ColumnView;

    open spec fn view(&self) -> ColumnView {
        column_view(*self)
    }
}

impl View for DashboardLayout {
    type V = Seq<RowView>;

    open spec fn view(&self) -> Seq<RowView> {
        row_views(self.rows@)
    }
}

/// A value found in a mapping is smaller than the entries of the mapping.
pub proof fn lemma_lookup_descends(entries: Seq<(String, DynValue)>, key: Seq<char>)
    ensures
        lookup(entries, key) matches Some(v) ==> decreases_to!(entries => v),
    decreases entries.len(),
{
    if entries.len() > 0 {
        if entries[0].0@ == key {
            assert(decreases_to!(entries => entries[0]));
            assert(decreases_to!(entries[0] => entries[0].1));
        } else {
            lemma_lookup_descends(entries.drop_first(), key);
        }
    }
}

/// The items of the list under `key` are smaller than the mapping.
pub proof fn lemma_items_descend(dict: DynValue, key: Seq<char>)
    ensures
        dict.get_spec(key) matches Some(DynValue::List(items)) ==> decreases_to!(dict => items@),
{
    match dict {
        DynValue::Dict(entries) => {
            lemma_lookup_descends(entries@, key);
            match lookup(entries@, key) {
                Some(DynValue::List(items)) => {
                    assert(decreases_to!(dict => entries));
                    assert(decreases_to!(entries => entries@));
                    assert(decreases_to!(DynValue::List(items) => items));
                    assert(decreases_to!(items => items@));
                },
                _ => {},
            }
        },
        _ => {},
    }
}

/// The row that a mapping describes.
pub open spec fn row_of(dict: DynValue) -> RowView
    decreases dict,
{
    RowView {
        columns: match dict.get_spec("columns"@) {
            Some(DynValue::List(items)) => {
                proof {
                    lemma_items_descend(dict, "columns"@);
                }
                columns_among(items@)
            },
            _ => Seq::<ColumnView>::empty(),
        },
        content: content_if_any(dict),
        width: string_option(dict, "width"@, DEFAULT_SIZE@),
        height: string_option(dict, "height"@, DEFAULT_SIZE@),
        priority: Some(usize_option(dict, "priority"@, 1)),
        hide_on_resize: Some(bool_option(dict, "hide_on_resize"@, false)),
    }
}

/// The column that a mapping describes. Of the rows and columns inside it
/// only those count that show or hold something.
pub open spec fn column_of(dict: DynValue) -> ColumnView
    decreases dict,
{
    ColumnView {
        width: string_option(dict, "width"@, DEFAULT_SIZE@),
        height: string_option(dict, "height"@, DEFAULT_SIZE@),
        content: content_if_any(dict),
        rows: match dict.get_spec("rows"@) {
            Some(DynValue::List(items)) => {
                proof {
                    lemma_items_descend(dict, "rows"@);
                }
                nested_rows_among(items@)
            },
            _ => Seq::<RowView>::empty(),
        },
        columns: match dict.get_spec("columns"@) {
            Some(DynValue::List(items)) => {
                proof {
                    lemma_items_descend(dict, "columns"@);
                }
                nested_columns_among(items@)
            },
            _ => Seq::<ColumnView>::empty(),
        },
        active: bool_option(dict, "active"@, false),
        highlights: highlights_of(dict),
        priority: Some(usize_option(dict, "priority"@, 1)),
        hide_on_resize: Some(bool_option(dict, "hide_on_resize"@, false)),
    }
}

/// The rows that the mappings among the items describe, in order.
pub open spec fn rows_among(items: Seq<DynValue>) -> Seq<RowView>
    decreases items,
{
    if items.len() == 0 {
        Seq::<RowView>::empty()
    } else {
        let before = rows_among(items.drop_last());
        if items.last() is Dict {
            before.push(row_of(items.last()))
        } else {
            before
        }
    }
}

/// The columns that the mappings among the items describe, in order.
pub open spec fn columns_among(items: Seq<DynValue>) -> Seq<ColumnView>
    decreases items,
{
    if items.len() == 0 {
        Seq::<ColumnView>::empty()
    } else {
        let before = columns_among(items.drop_last());
        if items.last() is Dict {
            before.push(column_of(items.last()))
        } else {
            before
        }
    }
}

/// A row shows or holds something.
pub open spec fn row_counts(row: RowView) -> bool {
    row.content is Some || row.columns.len() > 0
}

/// A column shows or holds something.
pub open spec fn column_counts(column: ColumnView) -> bool {
    column.content is Some || column.rows.len() > 0 || column.columns.len() > 0
}

/// The rows that the mappings among the items describe and that show or
/// hold something, in order.
pub open spec fn nested_rows_among(items: Seq<DynValue>) -> Seq<RowView>
    decreases items,
{
    if items.len() == 0 {
        Seq::<RowView>::empty()
    } else {
        let before = nested_rows_among(items.drop_last());
        if items.last() is Dict && row_counts(row_of(items.last())) {
            before.push(row_of(items.last()))
        } else {
            before
        }
    }
}

/// The columns that the mappings among the items describe and that show or
/// hold something, in order.
pub open spec fn nested_columns_among(items: Seq<DynValue>) -> Seq<ColumnView>
    decreases items,
{
    if items.len() == 0 {
        Seq::<ColumnView>::empty()
    } else {
        let before = nested_columns_among(items.drop_last());
        if items.last() is Dict && column_counts(column_of(items.last())) {
            before.push(column_of(items.last()))
        } else {
            before
        }
    }
}

/// The layout that the options describe: the rows of the list under
/// `"rows"` in the mapping under `"layout"`.
pub open spec fn layout_of(options: DynValue) -> Seq<RowView> {
    match options.get_spec("layout"@) {
        Some(inner) => match inner.get_spec("rows"@) {
            Some(DynValue::List(items)) => rows_among(items@),
            _ => Seq::<RowView>::empty(),
        },
        None => Seq::<RowView>::empty(),
    }
}

/// The rows under `key`: those that the mappings in the list under it
/// describe.
pub open spec fn rows_under(dict: DynValue, key: Seq<char>) -> Seq<RowView> {
    match dict.get_spec(key) {
        Some(DynValue::List(items)) => rows_among(items@),
        _ => Seq::<RowView>::empty(),
    }
}

/// The columns under `key`: those that the mappings in the list under it
/// describe.
pub open spec fn columns_under(dict: DynValue, key: Seq<char>) -> Seq<ColumnView> {
    match dict.get_spec(key) {
        Some(DynValue::List(items)) => columns_among(items@),
        _ => Seq::<ColumnView>::empty(),
    }
}

/// The rows inside a column.
pub open spec fn nested_rows_of(dict: DynValue) -> Seq<RowView> {
    match dict.get_spec("rows"@) {
        Some(DynValue::List(items)) => nested_rows_among(items@),
        _ => Seq::<RowView>::empty(),
    }
}

/// The columns inside a column.
pub open spec fn nested_columns_of(dict: DynValue) -> Seq<ColumnView> {
    match dict.get_spec("columns"@) {
        Some(DynValue::List(items)) => nested_columns_among(items@),
        _ => Seq::<ColumnView>::empty(),
    }
}

/// Reads the row that a mapping describes.
fn parse_row(dict: &DynValue) -> (r: Row)
    ensures
        r@ == row_of(*dict),
    decreases *dict, 1nat,
{
    Row {
        content: Content::from_dict(dict).ok(),
        columns: parse_columns(dict, "columns"),
        width: parse_string_option(dict, "width", DEFAULT_SIZE),
        height: parse_string_option(dict, "height", DEFAULT_SIZE),
        priority: Some(parse_usize_option(dict, "priority", 1)),
        hide_on_resize: Some(parse_bool_option(dict, "hide_on_resize", false)),
    }
}

/// Reads the column that a mapping describes.
fn parse_column(dict: &DynValue) -> (r: Column)
    ensures
        r@ == column_of(*dict),
    decreases *dict, 1nat,
{
    ColumnBuilder::new().width(parse_string_option(dict, "width", DEFAULT_SIZE)).height(
        parse_string_option(dict, "height", DEFAULT_SIZE),
    ).content(Content::from_dict(dict).ok()).rows(parse_nested_rows(dict)).columns(
        parse_nested_columns(dict),
    ).active(parse_bool_option(dict, "active", false)).highlights(parse_highlights(dict)).priority(
        parse_usize_option(dict, "priority", 1),
    ).hide_on_resize(parse_bool_option(dict, "hide_on_resize", false)).build()
}

/// Reads the columns under `key`.
fn parse_columns(dict: &DynValue, key: &str) -> (r: Vec<Column>)
    ensures
        column_views(r@) == columns_under(*dict, key@),
    decreases *dict, 0nat,
{
    let mut out: Vec<Column> = Vec::new();
    match dict.get(key) {
        Some(DynValue::List(items)) => {
            proof {
                lemma_items_descend(*dict, key@);
                assert(items@.take(0) =~= Seq::<DynValue>::empty());
            }
            let mut i: usize = 0;
            while i < items.len()
                invariant
                    i <= items.len(),
                    decreases_to!(*dict => items@),
                    column_views(out@) == columns_among(items@.take(i as int)),
                decreases items.len() - i,
            {
                proof {
                    assert(items@.take(i + 1).drop_last() =~= items@.take(i as int));
                    assert(decreases_to!(items@ => items@[i as int]));
                }
                if items[i].is_dict() {
                    let column = parse_column(&items[i]);
                    proof {
                        assert(out@.push(column).drop_last() =~= out@);
                    }
                    out.push(column);
                }
                i = i + 1;
            }
            proof {
                assert(items@.take(items.len() as int) =~= items@);
            }
            out
        },
        _ => out,
    }
}

/// Reads the rows under `key`.
fn parse_rows(dict: &DynValue, key: &str) -> (r: Vec<Row>)
    ensures
        row_views(r@) == rows_under(*dict, key@),
    decreases *dict, 0nat,
{
    let mut out: Vec<Row> = Vec::new();
    match dict.get(key) {
        Some(DynValue::List(items)) => {
            proof {
                lemma_items_descend(*dict, key@);
                assert(items@.take(0) =~= Seq::<DynValue>::empty());
            }
            let mut i: usize = 0;
            while i < items.len()
                invariant
                    i <= items.len(),
                    decreases_to!(*dict => items@),
                    row_views(out@) == rows_among(items@.take(i as int)),
                decreases items.len() - i,
            {
                proof {
                    assert(items@.take(i + 1).drop_last() =~= items@.take(i as int));
                    assert(decreases_to!(items@ => items@[i as int]));
                }
                if items[i].is_dict() {
                    let row = parse_row(&items[i]);
                    proof {
                        assert(out@.push(row).drop_last() =~= out@);
                    }
                    out.push(row);
                }
                i = i + 1;
            }
            proof {
                assert(items@.take(items.len() as int) =~= items@);
            }
            out
        },
        _ => out,
    }
}

/// Reads the rows inside a column, and keeps those that show or hold
/// something.
fn parse_nested_rows(dict: &DynValue) -> (r: Vec<Row>)
    ensures
        row_views(r@) == nested_rows_of(*dict),
    decreases *dict, 0nat,
{
    let mut out: Vec<Row> = Vec::new();
    match dict.get("rows") {
        Some(DynValue::List(items)) => {
            proof {
                lemma_items_descend(*dict, "rows"@);
                assert(items@.take(0) =~= Seq::<DynValue>::empty());
            }
            let mut i: usize = 0;
            while i < items.len()
                invariant
                    i <= items.len(),
                    decreases_to!(*dict => items@),
                    row_views(out@) == nested_rows_among(items@.take(i as int)),
                decreases items.len() - i,
            {
                proof {
                    assert(items@.take(i + 1).drop_last() =~= items@.take(i as int));
                    assert(decreases_to!(items@ => items@[i as int]));
                }
                if items[i].is_dict() {
                    let row = parse_row(&items[i]);
                    if row.content.is_some() || row.columns.len() > 0 {
                        proof {
                            assert(out@.push(row).drop_last() =~= out@);
                        }
                        out.push(row);
                    }
                }
                i = i + 1;
            }
            proof {
                assert(items@.take(items.len() as int) =~= items@);
            }
            out
        },
        _ => out,
    }
}

/// Reads the columns inside a column, and keeps those that show or hold
/// something.
fn parse_nested_columns(dict: &DynValue) -> (r: Vec<Column>)
    ensures
        column_views(r@) == nested_columns_of(*dict),
    decreases *dict, 0nat,
{
    let mut out: Vec<Column> = Vec::new();
    match dict.get("columns") {
        Some(DynValue::List(items)) => {
            proof {
                lemma_items_descend(*dict, "columns"@);
                assert(items@.take(0) =~= Seq::<DynValue>::empty());
            }
            let mut i: usize = 0;
            while i < items.len()
                invariant
                    i <= items.len(),
                    decreases_to!(*dict => items@),
                    column_views(out@) == nested_columns_among(items@.take(i as int)),
                decreases items.len() - i,
            {
                proof {
                    assert(items@.take(i + 1).drop_last() =~= items@.take(i as int));
                    assert(decreases_to!(items@ => items@[i as int]));
                }
                if items[i].is_dict() {
                    let column = parse_column(&items[i]);
                    if column.content.is_some() || column.rows.len() > 0 || column.columns.len()
                        > 0 {
                        proof {
                            assert(out@.push(column).drop_last() =~= out@);
                        }
                        out.push(column);
                    }
                }
                i = i + 1;
            }
            proof {
                assert(items@.take(items.len() as int) =~= items@);
            }
            out
        },
        _ => out,
    }
}

impl DashboardLayout {
    /// Reads the layout from the options. Options without a layout give a
    /// layout without rows.
    pub fn from_dict(options: &DynValue) -> (r: Self)
        ensures
            r@ == layout_of(*options),
    {
        match options.get("layout") {
            Some(inner) => DashboardLayout { rows: parse_rows(inner, "rows") },
            None => {
                let rows: Vec<Row> = Vec::new();
                DashboardLayout { rows }
            },
        }
    }
}

impl Default for DashboardLayout {
    fn default() -> (r: Self)
        ensures
            r@ == Seq::<RowView>::empty(),
    {
        let rows: Vec<Row> = Vec::new();
        DashboardLayout { rows }
    }
}

} // verus!

//! The dashboard of the layout: how many widgets its rows and columns show.
use crate::config::layout::{column_views, row_views, Column, ColumnView, Row, RowView};
use crate::config::Config;
use vstd::prelude::*;

verus! {

/// The number of widgets of a row: one if it shows content, and those of
/// its columns.
pub open spec fn widgets_in_row(row: RowView) -> nat
    decreases row,
{
    (if row.content is Some {
        1nat
    } else {
        0nat
    }) + widgets_in_columns(row.columns)
}

/// The number of widgets of a column: one if it shows content, and those of
/// the rows and columns inside it.
pub open spec fn widgets_in_column(column: ColumnView) -> nat
    decreases column,
{
    (if column.content is Some {
        1nat
    } else {
        0nat
    }) + widgets_in_rows(column.rows) + widgets_in_columns(column.columns)
}

/// The number of widgets of a list of rows.
pub open spec fn widgets_in_rows(rows: Seq<RowView>) -> nat
    decreases rows,
{
    if rows.len() == 0 {
        0
    } else {
        widgets_in_rows(rows.drop_last()) + widgets_in_row(rows.last())
    }
}

/// The number of widgets of a list of columns.
pub open spec fn widgets_in_columns(columns: Seq<ColumnView>) -> nat
    decreases columns,
{
    if columns.len() == 0 {
        0
    } else {
        widgets_in_columns(columns.drop_last()) + widgets_in_column(columns.last())
    }
}

/// A count as a `usize`, where a `usize` holds it.
pub open spec fn counted(n: nat) -> Option<usize> {
    if n <= usize::MAX {
        Some(n as usize)
    } else {
        None
    }
}

/// Adds two counts.
fn add_counts(a: Option<usize>, b: Option<usize>, Ghost(x): Ghost<nat>, Ghost(y): Ghost<nat>) -> (r:
    Option<usize>)
    requires
        a == counted(x),
        b == counted(y),
    ensures
        r == counted(x + y),
{
    match (a, b) {
        (Some(m), Some(n)) => m.checked_add(n),
        _ => None,
    }
}

/// Counts the widgets of a row.
fn count_in_row(row: &Row) -> (r: Option<usize>)
    ensures
        r == counted(widgets_in_row(row@)),
    decreases *row,
{
    let own: Option<usize> = if row.content.is_some() {
        Some(1)
    } else {
        Some(0)
    };
    let ghost own_count: nat = if row.content is Some {
        1
    } else {
        0
    };
    let inside = count_in_columns(&row.columns);
    add_counts(own, inside, Ghost(own_count), Ghost(widgets_in_columns(column_views(row.columns@))))
}

/// Counts the widgets of a column.
fn count_in_column(column: &Column) -> (r: Option<usize>)
    ensures
        r == counted(widgets_in_column(column@)),
    decreases *column,
{
    let own: Option<usize> = if column.content.is_some() {
        Some(1)
    } else {
        Some(0)
    };
    let ghost own_count: nat = if column.content is Some {
        1
    } else {
        0
    };
    let ghost in_rows = widgets_in_rows(row_views(column.rows@));
    let ghost in_columns = widgets_in_columns(column_views(column.columns@));
    let rows = count_in_rows(&column.rows);
    let columns = count_in_columns(&column.columns);
    let first = add_counts(own, rows, Ghost(own_count), Ghost(in_rows));
    add_counts(first, columns, Ghost(own_count + in_rows), Ghost(in_columns))
}

/// Counts the widgets of a list of rows.
fn count_in_rows(rows: &Vec<Row>) -> (r: Option<usize>)
    ensures
        r == counted(widgets_in_rows(row_views(rows@))),
    decreases *rows,
{
    let mut total: Option<usize> = Some(0);
    let mut i: usize = 0;
    proof {
        assert(rows@.take(0) =~= Seq::<Row>::empty());
    }
    while i < rows.len()
        invariant
            i <= rows.len(),
            total == counted(widgets_in_rows(row_views(rows@.take(i as int)))),
        decreases rows.len() - i,
    {
        proof {
            assert(rows@.take(i + 1).drop_last() =~= rows@.take(i as int));
            let shown = row_views(rows@.take(i as int));
            assert(row_views(rows@.take(i + 1)) == shown.push(rows@[i as int]@));
            assert(shown.push(rows@[i as int]@).drop_last() =~= shown);
            assert(decreases_to!(*rows => rows@));
            assert(decreases_to!(rows@ => rows@[i as int]));
        }
        let ghost before = widgets_in_rows(row_views(rows@.take(i as int)));
        let own = count_in_row(&rows[i]);
        total = add_counts(total, own, Ghost(before), Ghost(widgets_in_row(rows@[i as int]@)));
        i = i + 1;
    }
    proof {
        assert(rows@.take(rows.len() as int) =~= rows@);
    }
    total
}

/// Counts the widgets of a list of columns.
fn count_in_columns(columns: &Vec<Column>) -> (r: Option<usize>)
    ensures
        r == counted(widgets_in_columns(column_views(columns@))),
    decreases *columns,
{
    let mut total: Option<usize> = Some(0);
    let mut i: usize = 0;
    proof {
        assert(columns@.take(0) =~= Seq::<Column>::empty());
    }
    while i < columns.len()
        invariant
            i <= columns.len(),
            total == counted(widgets_in_columns(column_views(columns@.take(i as int)))),
        decreases columns.len() - i,
    {
        proof {
            assert(columns@.take(i + 1).drop_last() =~= columns@.take(i as int));
            let shown = column_views(columns@.take(i as int));
            assert(column_views(columns@.take(i + 1)) == shown.push(columns@[i as int]@));
            assert(shown.push(columns@[i as int]@).drop_last() =~= shown);
            assert(decreases_to!(*columns => columns@));
            assert(decreases_to!(columns@ => columns@[i as int]));
        }
        let ghost before = widgets_in_columns(column_views(columns@.take(i as int)));
        let own = count_in_column(&columns[i]);
        total =
        add_counts(total, own, Ghost(before), Ghost(widgets_in_column(columns@[i as int]@)));
        i = i + 1;
    }
    proof {
        assert(columns@.take(columns.len() as int) =~= columns@);
    }
    total
}

/// The dashboard of the layout, with its configuration.
#[derive(Debug)]
pub struct Dashboard {
    pub config: Config,
}

impl Dashboard {
    /// A dashboard with the given configuration.
    pub fn new(config: Config) -> (r: Self)
        ensures
            r.config == config,
    {
        Dashboard { config }
    }

    /// Toggles the dashboard: `open_on_start` tells whether it is shown, and
    /// is turned over. Returns whether the dashboard is shown now.
    pub fn toggle_dashboard(&mut self) -> (r: bool)
        ensures
            r == !old(self).config.open_on_start,
            *final(self) == (Dashboard {
                config: Config { open_on_start: r, ..old(self).config },
            }),
    {
        self.config.open_on_start = !self.config.open_on_start;
        self.config.open_on_start
    }

    /// The number of widgets in the layout: the rows and columns, at any
    /// depth, that show content. `None` where the number is more than a
    /// `usize` holds.
    pub fn count_widgets(&self) -> (r: Option<usize>)
        ensures
            r == counted(widgets_in_rows(self.config.layout@)),
    {
        count_in_rows(&self.config.layout.rows)
    }
}

} // verus!

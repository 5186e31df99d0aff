//! Building a column step by step.
use crate::config::content::Content;
use crate::config::defaults::DEFAULT_SIZE;
use crate::config::highlights::Highlights;
use crate::config::layout::{Column, Row};
use vstd::prelude::*;
use vstd::string::*;

verus! {

/// A column in the making. It starts as a column of full width and height
/// that shows and holds nothing, and each method sets one field.
#[derive(Debug)]
pub struct ColumnBuilder {
    pub width: String,
    pub height: String,
    pub content: Option<Content>,
    pub rows: Vec<Row>,
    pub columns: Vec<Column>,
    pub active: bool,
    pub highlights: Option<Highlights>,
    pub priority: Option<usize>,
    pub hide_on_resize: Option<bool>,
}

impl ColumnBuilder {
    /// The column that `build` would make.
    pub open spec fn column(self) -> Column {
        Column {
            width: self.width,
            height: self.height,
            content: self.content,
            rows: self.rows,
            columns: self.columns,
            active: self.active,
            highlights: self.highlights,
            priority: self.priority,
            hide_on_resize: self.hide_on_resize,
        }
    }

    /// A builder for a column of full width and height, without content,
    /// rows or columns, not active, without colours, of priority 1, that
    /// stays when the window shrinks.
    pub fn new() -> (r: Self)
        ensures
            r.width@ == DEFAULT_SIZE@,
            r.height@ == DEFAULT_SIZE@,
            r.content is None,
            r.rows@.len() == 0,
            r.columns@.len() == 0,
            !r.active,
            r.highlights is None,
            r.priority == Some(1usize),
            r.hide_on_resize == Some(false),
    {
        Self {
            width: DEFAULT_SIZE.to_owned(),
            height: DEFAULT_SIZE.to_owned(),
            content: None,
            rows: Vec::new(),
            columns: Vec::new(),
            active: false,
            highlights: None,
            priority: Some(1),
            hide_on_resize: Some(false),
        }
    }

    /// Sets the width.
    pub fn width(self, width: String) -> (r: Self)
        ensures
            r == (Self { width, ..self }),
    {
        let mut next = self;
        next.width = width;
        next
    }

    /// Sets the height.
    pub fn height(self, height: String) -> (r: Self)
        ensures
            r == (Self { height, ..self }),
    {
        let mut next = self;
        next.height = height;
        next
    }

    /// Sets what the column shows.
    pub fn content(self, content: Option<Content>) -> (r: Self)
        ensures
            r == (Self { content, ..self }),
    {
        let mut next = self;
        next.content = content;
        next
    }

    /// Sets the rows inside the column.
    pub fn rows(self, rows: Vec<Row>) -> (r: Self)
        ensures
            r == (Self { rows, ..self }),
    {
        let mut next = self;
        next.rows = rows;
        next
    }

    /// Sets the columns inside the column.
    pub fn columns(self, columns: Vec<Column>) -> (r: Self)
        ensures
            r == (Self { columns, ..self }),
    {
        let mut next = self;
        next.columns = columns;
        next
    }

    /// Sets whether the column is active.
    pub fn active(self, active: bool) -> (r: Self)
        ensures
            r == (Self { active, ..self }),
    {
        let mut next = self;
        next.active = active;
        next
    }

    /// Sets the colours.
    pub fn highlights(self, highlights: Option<Highlights>) -> (r: Self)
        ensures
            r == (Self { highlights, ..self }),
    {
        let mut next = self;
        next.highlights = highlights;
        next
    }

    /// Sets the priority.
    pub fn priority(self, priority: usize) -> (r: Self)
        ensures
            r == (Self { priority: Some(priority), ..self }),
    {
        let mut next = self;
        next.priority = Some(priority);
        next
    }

    /// Sets whether the column hides when the window shrinks.
    pub fn hide_on_resize(self, hide_on_resize: bool) -> (r: Self)
        ensures
            r == (Self { hide_on_resize: Some(hide_on_resize), ..self }),
    {
        let mut next = self;
        next.hide_on_resize = Some(hide_on_resize);
        next
    }

    /// The column with the fields of the builder.
    pub fn build(self) -> (r: Column)
        ensures
            r == self.column(),
    {
        Column {
            width: self.width,
            height: self.height,
            content: self.content,
            rows: self.rows,
            columns: self.columns,
            active: self.active,
            highlights: self.highlights,
            priority: self.priority,
            hide_on_resize: self.hide_on_resize,
        }
    }
}

} // verus!

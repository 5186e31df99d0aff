//! What a widget is made from.
use vstd::prelude::*;
use vstd::string::*;

verus! {

/// The title of a widget, its size and place as written in the layout
/// (`"50%"`, `"30"`), its content, its priority, and whether it hides when
/// the terminal is small.
#[derive(Clone, Debug)]
pub struct WidgetConfig {
    pub title: String,
    pub width: String,
    pub height: String,
    pub row: String,
    pub col: String,
    pub content: Option<String>,
    pub priority: Option<usize>,
    pub hide_on_resize: Option<bool>,
}

/// The width below which a terminal is small.
pub const SMALL_WIDTH: usize = 80;

/// The height below which a terminal is small.
pub const SMALL_HEIGHT: usize = 24;

impl WidgetConfig {
    /// A widget without content, priority or rule for small terminals.
    pub fn new(title: String, height: String, width: String, row: String, col: String) -> (r: Self)
        ensures
            r == (WidgetConfig {
                title,
                width,
                height,
                row,
                col,
                content: None,
                priority: None,
                hide_on_resize: None,
            }),
    {
        Self {
            title,
            height,
            width,
            row,
            col,
            content: None,
            priority: None,
            hide_on_resize: None,
        }
    }

    /// Sets the content.
    pub fn with_content(self, content: Option<String>) -> (r: Self)
        ensures
            r == (WidgetConfig { content, ..self }),
    {
        let mut next = self;
        next.content = content;
        next
    }

    /// Sets the priority.
    pub fn with_priority(self, priority: usize) -> (r: Self)
        ensures
            r == (WidgetConfig { priority: Some(priority), ..self }),
    {
        let mut next = self;
        next.priority = Some(priority);
        next
    }

    /// Sets whether the widget hides when the terminal is small.
    pub fn with_hide_on_resize(self, hide_on_resize: bool) -> (r: Self)
        ensures
            r == (WidgetConfig { hide_on_resize: Some(hide_on_resize), ..self }),
    {
        let mut next = self;
        next.hide_on_resize = Some(hide_on_resize);
        next
    }

    /// The widget hides when the terminal is small.
    pub open spec fn hides(self) -> bool {
        self.hide_on_resize == Some(true)
    }

    /// Whether the widget is left out when the dashboard is first drawn: it
    /// is, when it hides on small terminals and the terminal is narrow.
    pub fn hidden_at_render(&self, term_width: usize) -> (r: bool)
        ensures
            r == (self.hides() && term_width < SMALL_WIDTH),
    {
        match self.hide_on_resize {
            Some(small) => {
                small && term_width < SMALL_WIDTH
            },
            None => false,
        }
    }

    /// Whether the widget is closed when the terminal changes its size: it
    /// is, when it hides on small terminals and the terminal is narrow or
    /// low.
    pub fn hidden_after_resize(&self, term_width: usize, term_height: usize) -> (r: bool)
        ensures
            r == (self.hides() && (term_width < SMALL_WIDTH || term_height < SMALL_HEIGHT)),
    {
        match self.hide_on_resize {
            Some(small) => {
                small && (term_width < SMALL_WIDTH || term_height < SMALL_HEIGHT)
            },
            None => false,
        }
    }

    /// The priority by which widgets are ordered: 1 where none is set.
    pub fn rank(&self) -> (r: usize)
        ensures
            r == match self.priority {
                Some(p) => p,
                None => 1,
            },
    {
        match self.priority {
            Some(p) => p,
            None => 1,
        }
    }
}

} // verus!

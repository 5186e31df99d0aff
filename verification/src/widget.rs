//! Widgets: the floating windows that show the content of the layout.
pub mod config;

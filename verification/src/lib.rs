//! Composition and interaction engine of a start-screen dashboard for a modal
//! text editor.
//!
//! The library decides and computes; it never talks to the editor. The
//! caller reads what the editor reports, hands it over as plain values, and
//! carries out what comes back.
//!
//! - `config` reads the user's options into a typed configuration.
//! - `content` holds the elements of the dashboard and renders them into a
//!   frame of display lines for a viewport.
//! - `buffer` holds the options and keys of the dashboard buffer and the
//!   motion of the cursor over the buttons.
//! - `lifecycle` opens, toggles and closes the dashboard.
//! - `text` measures and cuts strings as rows of terminal cells.
pub mod buffer;
pub mod config;
pub mod content;
pub mod dashboard;
pub mod defaults;
pub mod error;
pub mod highlights;
pub mod lifecycle;
pub mod text;
pub mod utils;
pub mod widget;

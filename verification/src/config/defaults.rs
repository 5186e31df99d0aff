//! The defaults of the layout options and of the keys.
use vstd::prelude::*;

verus! {

pub const DEFAULT_BORDERS: &'static str = "rounded";

pub const DEFAULT_TOGGLE_DASHBOARD: &'static str = "<leader>db";

pub const DEFAULT_NAVIGATE_SECTIONS: &'static str = "<Tab>";

pub const DEFAULT_NAVIGATE_BUTTONS: &'static str = "<Down>";

pub const DEFAULT_EXECUTE_BUTTON: &'static str = "<Enter>";

pub const DEFAULT_TEXT: &'static str = "Default Text";

pub const DEFAULT_SIZE: &'static str = "100%";

pub const DEFAULT_FOREGROUND: &'static str = "#FFFFFF";

pub const DEFAULT_BACKGROUND: &'static str = "#000000";

} // verus!

//! The keys of the plugin.
use crate::config::defaults::{
    DEFAULT_EXECUTE_BUTTON, DEFAULT_NAVIGATE_BUTTONS, DEFAULT_NAVIGATE_SECTIONS,
    DEFAULT_TOGGLE_DASHBOARD,
};
use crate::config::value::DynValue;
use crate::config::{parse_string_option, string_option};
use vstd::prelude::*;
use vstd::string::*;

verus! {

/// The keys of the plugin, in the host's notation.
#[derive(Debug)]
pub struct Keymaps {
    pub toggle_dashboard: String,
    pub navigate_sections: String,
    pub navigate_buttons: String,
    pub execute_button: String,
}

/// `Keymaps` as a mathematical value.
pub struct KeymapsView {
    pub toggle_dashboard: Seq<char>,
    pub navigate_sections: Seq<char>,
    pub navigate_buttons: Seq<char>,
    pub execute_button: Seq<char>,
}

impl View for Keymaps {
    type V = KeymapsView;

    open spec fn view(&self) -> KeymapsView {
        KeymapsView {
            toggle_dashboard: self.toggle_dashboard@,
            navigate_sections: self.navigate_sections@,
            navigate_buttons: self.navigate_buttons@,
            execute_button: self.execute_button@,
        }
    }
}

/// The keys that the options name, each with its default where the options
/// name none.
pub open spec fn keymaps_of(options: DynValue) -> KeymapsView {
    KeymapsView {
        toggle_dashboard: string_option(options, "toggle_dashboard"@, DEFAULT_TOGGLE_DASHBOARD@),
        navigate_sections: string_option(
            options,
            "navigate_sections"@,
            DEFAULT_NAVIGATE_SECTIONS@,
        ),
        navigate_buttons: string_option(options, "navigate_buttons"@, DEFAULT_NAVIGATE_BUTTONS@),
        execute_button: string_option(options, "execute_button"@, DEFAULT_EXECUTE_BUTTON@),
    }
}

impl Keymaps {
    /// Reads the keys from the options.
    pub fn from_dict(options: &DynValue) -> (r: Self)
        ensures
            r@ == keymaps_of(*options),
    {
        Keymaps {
            toggle_dashboard: parse_string_option(
                options,
                "toggle_dashboard",
                DEFAULT_TOGGLE_DASHBOARD,
            ),
            navigate_sections: parse_string_option(
                options,
                "navigate_sections",
                DEFAULT_NAVIGATE_SECTIONS,
            ),
            navigate_buttons: parse_string_option(
                options,
                "navigate_buttons",
                DEFAULT_NAVIGATE_BUTTONS,
            ),
            execute_button: parse_string_option(options, "execute_button", DEFAULT_EXECUTE_BUTTON),
        }
    }
}

} // verus!

//! The values that a configuration has where the user gives none.
use vstd::prelude::*;
use vstd::string::*;

verus! {

pub const DEFAULT_AUTO_OPEN: bool = true;

pub const DEFAULT_KEYMAP: &'static str = "<M-d>";

pub const DEFAULT_HEADER_TEXT: &'static str = "Welcome to Neovim!";

pub const DEFAULT_HEADER_POSITION: &'static str = "center";

pub const DEFAULT_SUB_HEADER_TEXT: &'static str = "==================";

pub const DEFAULT_SUB_HEADER_POSITION: &'static str = "center";

pub const DEFAULT_FOOTER_TEXT: &'static str = "created with Rust by RAprogramm";

pub const DEFAULT_FOOTER_POSITION: &'static str = "center";

pub const DEFAULT_BUTTONS_POSITION: &'static str = "center";

/// The default buttons as `(title, icon, command)` triples.
pub open spec fn default_button_triples() -> Seq<(Seq<char>, Seq<char>, Seq<char>)> {
    seq![
        ("Create new file"@, "\u{ea7f}"@, "edit new_file.txt"@),
        ("Find file"@, "\u{ea6d}"@, "Telescope find_files"@),
        ("Recent files"@, "\u{ea82}"@, "Telescope oldfiles"@),
        ("Exit"@, "\u{f426}"@, "qall"@),
    ]
}

/// The triples of a list of owned triples, as sequences of characters.
pub open spec fn triple_views(items: Seq<(String, String, String)>) -> Seq<
    (Seq<char>, Seq<char>, Seq<char>),
> {
    Seq::new(items.len(), |i: int| (items[i].0@, items[i].1@, items[i].2@))
}

/// Builds the default buttons.
pub fn default_buttons_items() -> (r: Vec<(String, String, String)>)
    ensures
        triple_views(r@) == default_button_triples(),
{
    let mut items: Vec<(String, String, String)> = Vec::new();
    items.push(("Create new file".to_owned(), "\u{ea7f}".to_owned(), "edit new_file.txt".to_owned()));
    items.push(("Find file".to_owned(), "\u{ea6d}".to_owned(), "Telescope find_files".to_owned()));
    items.push(("Recent files".to_owned(), "\u{ea82}".to_owned(), "Telescope oldfiles".to_owned()));
    items.push(("Exit".to_owned(), "\u{f426}".to_owned(), "qall".to_owned()));
    proof {
        assert(triple_views(items@) =~= default_button_triples());
    }
    items
}

} // verus!

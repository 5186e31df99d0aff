//! The dashboard buffer: its options and its keys.
use crate::text::str_eq;
use vstd::prelude::*;
use vstd::string::*;

pub mod keymap;

verus! {

/// The value of an option of the host.
#[derive(Clone, Copy, Debug)]
pub enum OptionValue {
    Flag(bool),
    Word(&'static str),
}

/// An option of the host and the value it is set to.
#[derive(Debug)]
pub struct BufferOption {
    pub name: &'static str,
    pub value: OptionValue,
}

impl BufferOption {
    /// The option is the flag `name` set to `value`.
    pub open spec fn is_flag(self, name: Seq<char>, value: bool) -> bool {
        &&& self.name@ == name
        &&& self.value matches OptionValue::Flag(b)
        &&& b == value
    }

    /// The option is the word option `name` set to `value`.
    pub open spec fn is_word(self, name: Seq<char>, value: Seq<char>) -> bool {
        &&& self.name@ == name
        &&& self.value matches OptionValue::Word(w)
        &&& w@ == value
    }
}

/// The filetype that marks a buffer as the dashboard.
pub const DASHBOARD_FILETYPE: &'static str = "harbinger";

/// What the plugin sets on the buffers it makes.
#[derive(Debug)]
pub struct BufferManager;

impl BufferManager {
    pub fn new() -> (r: Self) {
        BufferManager
    }

    /// The options of a fresh scratch buffer: it is no file, it is wiped
    /// once hidden, and it has no swap file.
    pub fn scratch_options(&self) -> (r: Vec<BufferOption>)
        ensures
            r.len() == 3,
            r[0].is_word("buftype"@, "nofile"@),
            r[1].is_word("bufhidden"@, "wipe"@),
            r[2].is_flag("swapfile"@, false),
    {
        let mut options: Vec<BufferOption> = Vec::new();
        options.push(BufferOption { name: "buftype", value: OptionValue::Word("nofile") });
        options.push(BufferOption { name: "bufhidden", value: OptionValue::Word("wipe") });
        options.push(BufferOption { name: "swapfile", value: OptionValue::Flag(false) });
        options
    }

    /// The options of the dashboard buffer, set once its lines are in
    /// place: the buffer carries the dashboard's filetype, cannot be
    /// changed and is not listed, and its window shows neither wrapped
    /// lines nor line numbers, spelling marks, list characters or a cursor
    /// column.
    pub fn dashboard_options(&self) -> (r: Vec<BufferOption>)
        ensures
            r.len() == 9,
            r[0].is_word("filetype"@, DASHBOARD_FILETYPE@),
            r[1].is_flag("modifiable"@, false),
            r[2].is_flag("buflisted"@, false),
            r[3].is_flag("wrap"@, false),
            r[4].is_flag("number"@, false),
            r[5].is_flag("relativenumber"@, false),
            r[6].is_flag("spell"@, false),
            r[7].is_flag("list"@, false),
            r[8].is_flag("cursorcolumn"@, false),
    {
        let mut options: Vec<BufferOption> = Vec::new();
        options.push(BufferOption { name: "filetype", value: OptionValue::Word(DASHBOARD_FILETYPE) });
        options.push(BufferOption { name: "modifiable", value: OptionValue::Flag(false) });
        options.push(BufferOption { name: "buflisted", value: OptionValue::Flag(false) });
        options.push(BufferOption { name: "wrap", value: OptionValue::Flag(false) });
        options.push(BufferOption { name: "number", value: OptionValue::Flag(false) });
        options.push(BufferOption { name: "relativenumber", value: OptionValue::Flag(false) });
        options.push(BufferOption { name: "spell", value: OptionValue::Flag(false) });
        options.push(BufferOption { name: "list", value: OptionValue::Flag(false) });
        options.push(BufferOption { name: "cursorcolumn", value: OptionValue::Flag(false) });
        options
    }

    /// Whether a buffer with this filetype is the dashboard.
    pub fn is_dashboard_filetype(filetype: &str) -> (r: bool)
        ensures
            r == (filetype@ == DASHBOARD_FILETYPE@),
    {
        str_eq(filetype, DASHBOARD_FILETYPE)
    }
}

} // verus!

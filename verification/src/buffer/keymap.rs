//! The keys of the dashboard buffer and the motion of the cursor over the
//! button lines.
use vstd::prelude::*;

verus! {

/// What a key of the dashboard buffer does.
#[derive(Clone, Copy, Debug, PartialEq, Eq, Structural)]
pub enum KeyAction {
    /// Move to the button above, or from the first button to the last.
    Up,
    /// Move to the button below, or from the last button to the first.
    Down,
    /// Run the command of the button under the cursor.
    Confirm,
    /// Do nothing, so that the cursor stays on the buttons.
    Nop,
}

/// A key in the host's notation and what it does.
#[derive(Debug)]
pub struct KeyBinding {
    pub key: &'static str,
    pub action: KeyAction,
}

/// The line the cursor goes to from `cur` by `direction` lines, when the
/// buttons are the lines from `first` to `last`: a line that would lie above
/// the first button is the last button, one that would lie below the last
/// button is the first.
pub open spec fn moved(cur: int, first: int, last: int, direction: int) -> int {
    let target = cur + direction;
    if target < first {
        last
    } else if target > last {
        first
    } else {
        target
    }
}

/// The line after pressing the down key.
pub open spec fn down(cur: int, first: int, last: int) -> int {
    moved(cur, first, last, 1)
}

/// The line after pressing the up key.
pub open spec fn up(cur: int, first: int, last: int) -> int {
    moved(cur, first, last, -1)
}

/// The line after pressing the down key `times` times.
pub open spec fn down_repeated(cur: int, first: int, last: int, times: nat) -> int
    decreases times,
{
    if times == 0 {
        cur
    } else {
        down(down_repeated(cur, first, last, (times - 1) as nat), first, last)
    }
}

/// The line after pressing the up key `times` times.
pub open spec fn up_repeated(cur: int, first: int, last: int, times: nat) -> int
    decreases times,
{
    if times == 0 {
        cur
    } else {
        up(up_repeated(cur, first, last, (times - 1) as nat), first, last)
    }
}

/// On a button line, the up key goes one line up, and from the first button
/// to the last; the down key goes one line down, and from the last button to
/// the first. Either way the cursor stays on a button line.
pub proof fn lemma_keys_stay_on_buttons(cur: int, first: int, last: int)
    requires
        first <= cur <= last,
    ensures
        up(cur, first, last) == if cur == first {
            last
        } else {
            cur - 1
        },
        down(cur, first, last) == if cur == last {
            first
        } else {
            cur + 1
        },
        first <= up(cur, first, last) <= last,
        first <= down(cur, first, last) <= last,
{
}

proof fn lemma_down_runs(cur: int, first: int, last: int, times: nat)
    requires
        first <= cur,
        cur + times <= last,
    ensures
        down_repeated(cur, first, last, times) == cur + times,
    decreases times,
{
    if times > 0 {
        lemma_down_runs(cur, first, last, (times - 1) as nat);
    }
}

proof fn lemma_up_runs(cur: int, first: int, last: int, times: nat)
    requires
        cur <= last,
        first <= cur - times,
    ensures
        up_repeated(cur, first, last, times) == cur - times,
    decreases times,
{
    if times > 0 {
        lemma_up_runs(cur, first, last, (times - 1) as nat);
    }
}

proof fn lemma_down_adds(cur: int, first: int, last: int, a: nat, b: nat)
    ensures
        down_repeated(cur, first, last, a + b) == down_repeated(
            down_repeated(cur, first, last, a),
            first,
            last,
            b,
        ),
    decreases b,
{
    if b > 0 {
        lemma_down_adds(cur, first, last, a, (b - 1) as nat);
        assert((a + b - 1) as nat == a + (b - 1) as nat);
    }
}

proof fn lemma_up_adds(cur: int, first: int, last: int, a: nat, b: nat)
    ensures
        up_repeated(cur, first, last, a + b) == up_repeated(
            up_repeated(cur, first, last, a),
            first,
            last,
            b,
        ),
    decreases b,
{
    if b > 0 {
        lemma_up_adds(cur, first, last, a, (b - 1) as nat);
        assert((a + b - 1) as nat == a + (b - 1) as nat);
    }
}

/// Navigation is cyclic: from any button line, pressing the down key once
/// for every button leads back to the line, and so does pressing the up key
/// once for every button.
pub proof fn lemma_navigation_is_cyclic(cur: int, first: int, last: int)
    requires
        first <= cur <= last,
    ensures
        down_repeated(cur, first, last, (last - first + 1) as nat) == cur,
        up_repeated(cur, first, last, (last - first + 1) as nat) == cur,
{
    let to_end = (last - cur) as nat;
    let from_start = (cur - first) as nat;
    lemma_down_runs(cur, first, last, to_end);
    lemma_down_adds(cur, first, last, to_end, 1);
    assert(down_repeated(last, first, last, 1) == down(down_repeated(last, first, last, 0), first, last));
    lemma_down_runs(first, first, last, from_start);
    lemma_down_adds(cur, first, last, to_end + 1, from_start);
    assert(to_end + 1 + from_start == (last - first + 1) as nat);

    lemma_up_runs(cur, first, last, from_start);
    lemma_up_adds(cur, first, last, from_start, 1);
    assert(up_repeated(first, first, last, 1) == up(up_repeated(first, first, last, 0), first, last));
    lemma_up_runs(last, first, last, to_end);
    lemma_up_adds(cur, first, last, from_start + 1, to_end);
    assert(from_start + 1 + to_end == (last - first + 1) as nat);
}

/// The keys of the dashboard buffer.
#[derive(Debug)]
pub struct KeymapManager;

impl KeymapManager {
    /// The line the cursor goes to from `cur_line` by `direction` lines.
    pub fn move_cursor(
        cur_line: usize,
        first_button_line: usize,
        last_button_line: usize,
        direction: isize,
    ) -> (r: usize)
        ensures
            r == moved(
                cur_line as int,
                first_button_line as int,
                last_button_line as int,
                direction as int,
            ),
    {
        let target: i128 = cur_line as i128 + direction as i128;
        if target < first_button_line as i128 {
            last_button_line
        } else if target > last_button_line as i128 {
            first_button_line
        } else {
            target as usize
        }
    }

    /// The keys that act on the buttons: `k` and `j` move the cursor, the
    /// return key confirms.
    pub fn setup_keymaps() -> (r: Vec<KeyBinding>)
        ensures
            r.len() == 3,
            r[0].key@ == "k"@ && r[0].action == KeyAction::Up,
            r[1].key@ == "j"@ && r[1].action == KeyAction::Down,
            r[2].key@ == "<CR>"@ && r[2].action == KeyAction::Confirm,
    {
        let mut keys: Vec<KeyBinding> = Vec::new();
        keys.push(KeyBinding { key: "k", action: KeyAction::Up });
        keys.push(KeyBinding { key: "j", action: KeyAction::Down });
        keys.push(KeyBinding { key: "<CR>", action: KeyAction::Confirm });
        keys
    }

    /// The keys that are switched off, so that the cursor cannot leave the
    /// buttons sideways or by a jump.
    pub fn deactivate_keymaps() -> (r: Vec<KeyBinding>)
        ensures
            r.len() == 8,
            forall|i: int| 0 <= i < 8 ==> (#[trigger] r[i]).action == KeyAction::Nop,
            r[0].key@ == "gg"@,
            r[1].key@ == "G"@,
            r[2].key@ == "h"@,
            r[3].key@ == "l"@,
            r[4].key@ == "<Left>"@,
            r[5].key@ == "<Right>"@,
            r[6].key@ == "<Up>"@,
            r[7].key@ == "<Down>"@,
    {
        let mut keys: Vec<KeyBinding> = Vec::new();
        keys.push(KeyBinding { key: "gg", action: KeyAction::Nop });
        keys.push(KeyBinding { key: "G", action: KeyAction::Nop });
        keys.push(KeyBinding { key: "h", action: KeyAction::Nop });
        keys.push(KeyBinding { key: "l", action: KeyAction::Nop });
        keys.push(KeyBinding { key: "<Left>", action: KeyAction::Nop });
        keys.push(KeyBinding { key: "<Right>", action: KeyAction::Nop });
        keys.push(KeyBinding { key: "<Up>", action: KeyAction::Nop });
        keys.push(KeyBinding { key: "<Down>", action: KeyAction::Nop });
        keys
    }
}

} // verus!

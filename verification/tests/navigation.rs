use harbinger::buffer::keymap::{KeyAction, KeymapManager};
use harbinger::buffer::{BufferManager, OptionValue};

#[test]
fn up_from_the_first_button_goes_to_the_last() {
    assert_eq!(KeymapManager::move_cursor(13, 13, 16, -1), 16);
}

#[test]
fn down_from_the_last_button_goes_to_the_first() {
    assert_eq!(KeymapManager::move_cursor(16, 13, 16, 1), 13);
}

#[test]
fn inside_the_buttons_the_cursor_moves_by_one_line() {
    assert_eq!(KeymapManager::move_cursor(14, 13, 16, -1), 13);
    assert_eq!(KeymapManager::move_cursor(14, 13, 16, 1), 15);
    assert_eq!(KeymapManager::move_cursor(15, 13, 16, 1), 16);
}

#[test]
fn a_cursor_outside_the_buttons_is_brought_back() {
    assert_eq!(KeymapManager::move_cursor(1, 13, 16, 1), 16);
    assert_eq!(KeymapManager::move_cursor(1, 13, 16, -1), 16);
    assert_eq!(KeymapManager::move_cursor(20, 13, 16, 1), 13);
    assert_eq!(KeymapManager::move_cursor(20, 13, 16, -1), 13);
    assert_eq!(KeymapManager::move_cursor(0, 13, 16, -1), 16);
    assert_eq!(KeymapManager::move_cursor(12, 13, 16, 1), 13);
    assert_eq!(KeymapManager::move_cursor(17, 13, 16, -1), 16);
}

#[test]
fn extreme_lines_and_directions_do_not_overflow() {
    assert_eq!(KeymapManager::move_cursor(usize::MAX, 1, 4, 1), 1);
    assert_eq!(KeymapManager::move_cursor(usize::MAX, 1, 4, isize::MAX), 1);
    assert_eq!(KeymapManager::move_cursor(0, 1, 4, isize::MIN), 4);
    assert_eq!(KeymapManager::move_cursor(usize::MAX, 0, usize::MAX, 1), 0);
    assert_eq!(KeymapManager::move_cursor(5, 0, usize::MAX, 2), 7);
}

#[test]
fn a_single_button_keeps_the_cursor() {
    assert_eq!(KeymapManager::move_cursor(9, 9, 9, 1), 9);
    assert_eq!(KeymapManager::move_cursor(9, 9, 9, -1), 9);
}

#[test]
fn as_many_steps_as_buttons_lead_back_to_the_start() {
    let (first, last) = (13usize, 16usize);
    let count = last - first + 1;
    for start in first..=last {
        let mut down = start;
        let mut up = start;
        for _ in 0..count {
            down = KeymapManager::move_cursor(down, first, last, 1);
            up = KeymapManager::move_cursor(up, first, last, -1);
        }
        assert_eq!(down, start);
        assert_eq!(up, start);
    }
}

#[test]
fn the_button_keys_are_k_j_and_return() {
    let keys = KeymapManager::setup_keymaps();
    assert_eq!(keys.len(), 3);
    assert_eq!((keys[0].key, keys[0].action), ("k", KeyAction::Up));
    assert_eq!((keys[1].key, keys[1].action), ("j", KeyAction::Down));
    assert_eq!((keys[2].key, keys[2].action), ("<CR>", KeyAction::Confirm));
}

#[test]
fn the_keys_that_leave_the_buttons_are_switched_off() {
    let keys = KeymapManager::deactivate_keymaps();
    let names: Vec<&str> = keys.iter().map(|k| k.key).collect();
    assert_eq!(names, vec!["gg", "G", "h", "l", "<Left>", "<Right>", "<Up>", "<Down>"]);
    assert!(keys.iter().all(|k| k.action == KeyAction::Nop));
}

#[test]
fn a_scratch_buffer_is_no_file_and_is_wiped_when_hidden() {
    let options = BufferManager::new().scratch_options();
    assert_eq!(options.len(), 3);
    assert_eq!(options[0].name, "buftype");
    assert!(matches!(options[0].value, OptionValue::Word("nofile")));
    assert_eq!(options[1].name, "bufhidden");
    assert!(matches!(options[1].value, OptionValue::Word("wipe")));
    assert_eq!(options[2].name, "swapfile");
    assert!(matches!(options[2].value, OptionValue::Flag(false)));
}

#[test]
fn the_dashboard_buffer_is_tagged_and_read_only() {
    let options = BufferManager::new().dashboard_options();
    let names: Vec<&str> = options.iter().map(|o| o.name).collect();
    assert_eq!(
        names,
        vec![
            "filetype",
            "modifiable",
            "buflisted",
            "wrap",
            "number",
            "relativenumber",
            "spell",
            "list",
            "cursorcolumn"
        ]
    );
    assert!(matches!(options[0].value, OptionValue::Word("harbinger")));
    assert!(options[1..].iter().all(|o| matches!(o.value, OptionValue::Flag(false))));
    assert!(BufferManager::is_dashboard_filetype("harbinger"));
    assert!(!BufferManager::is_dashboard_filetype("lua"));
    assert!(!BufferManager::is_dashboard_filetype(""));
}

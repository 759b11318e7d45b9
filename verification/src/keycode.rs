//! Plain text as keyboard reports.

use vstd::prelude::*;

verus! {

/// The modifier bit of the left shift key.
pub const MODIFIER_SHIFT: u8 = 0x02;

/// The report map and the report that carry keyboard input.
pub const KEYBOARD_MAP_INDEX: usize = 0;

pub const KEYBOARD_REPORT_ID: usize = 1;

/// The modifier byte of the report that types `key`: shift for a capital
/// letter (`0x41..=0x5a`), `0x28` for a line feed, else none.
pub open spec fn char_modifier(key: u8) -> u8 {
    if 0x41 <= key <= 0x5a {
        MODIFIER_SHIFT
    } else if key == 0x0a {
        0x28
    } else {
        0
    }
}

/// The key code of the report that types `key`: the letters, small
/// (`0x61..=0x7a`) or capital, from `0x04`; the digits one to nine from
/// `0x1e`; then zero, space, full stop and comma. Any other character has
/// none.
pub open spec fn char_keycode(key: u8) -> u8 {
    if 0x61 <= key <= 0x7a {
        (key - 0x61 + 4) as u8
    } else if 0x41 <= key <= 0x5a {
        (key - 0x41 + 4) as u8
    } else if key == 0x30 {
        0x27
    } else if 0x31 <= key <= 0x39 {
        (key - 0x31 + 0x1e) as u8
    } else if key == 0x20 {
        0x2c
    } else if key == 0x2e {
        0x37
    } else if key == 0x2c {
        0x36
    } else {
        0
    }
}

/// The report that types `key`.
pub open spec fn char_report(key: u8) -> Seq<u8> {
    seq![char_modifier(key), 0u8, char_keycode(key), 0u8, 0u8, 0u8, 0u8, 0u8]
}

/// Renders one character of plain text as the report that types it. A
/// character outside the table yields the report that holds no key.
pub fn char_to_code(key: u8) -> (data: [u8; 8])
    ensures
        data@ == char_report(key),
{
    let mut data: [u8; 8] = [0u8; 8];
    if 0x61 <= key && key <= 0x7a {
        let code = key - 0x61;
        data[2] = code + 4;
    } else if 0x41 <= key && key <= 0x5a {
        let code = key - 0x41;
        data[0] = MODIFIER_SHIFT;
        data[2] = code + 4;
    } else if key == 0x30 {
        data[2] = 0x27;
    } else if 0x31 <= key && key <= 0x39 {
        let code = key - 0x31;
        data[2] = code + 0x1e;
    } else if key == 0x20 {
        data[2] = 0x2c;
    } else if key == 0x2e {
        data[2] = 0x37;
    } else if key == 0x2c {
        data[2] = 0x36;
    } else if key == 0x0a {
        data[0] = 0x28;
    }
    assert(data@ =~= char_report(key));
    data
}

/// An input report and where it goes.
#[derive(Clone, Copy, Debug)]
pub struct InputReport {
    pub map_index: usize,
    pub report_id: usize,
    pub data: [u8; 8],
}

/// The input report that presses the key of a character.
pub fn keyboard_press(key: u8) -> (report: InputReport)
    ensures
        report.map_index == KEYBOARD_MAP_INDEX,
        report.report_id == KEYBOARD_REPORT_ID,
        report.data@ == char_report(key),
{
    InputReport {
        map_index: KEYBOARD_MAP_INDEX,
        report_id: KEYBOARD_REPORT_ID,
        data: char_to_code(key),
    }
}

/// The input report that releases every key.
pub fn keyboard_release() -> (report: InputReport)
    ensures
        report.map_index == KEYBOARD_MAP_INDEX,
        report.report_id == KEYBOARD_REPORT_ID,
        report.data@ == Seq::new(8, |i: int| 0u8),
{
    let data: [u8; 8] = [0u8; 8];
    assert(data@ =~= Seq::new(8, |i: int| 0u8));
    InputReport { map_index: KEYBOARD_MAP_INDEX, report_id: KEYBOARD_REPORT_ID, data }
}

} // verus!

//! Keys of the operator-facing terminal, independent of any input backend.

use vstd::prelude::*;

verus! {

/// A key press as the UI loop sees it. Backend key events are converted to
/// this type before any decision is made on them.
#[derive(PartialEq, Eq, Structural, Clone, Copy, Hash, Debug)]
pub enum UiKey {
    /// Both Enter (or Return) and numpad Enter
    Enter,
    /// Tabulation key
    Tab,
    /// Backspace key
    Backspace,
    /// Escape key
    Esc,
    /// Left arrow
    Left,
    /// Right arrow
    Right,
    /// Up arrow
    Up,
    /// Down arrow
    Down,
    /// Insert key
    Ins,
    /// Delete key
    Delete,
    /// Home key
    Home,
    /// End key
    End,
    /// Page Up key
    PageUp,
    /// Page Down key
    PageDown,
    /// F0 key
    F0,
    /// F1 key
    F1,
    /// F2 key
    F2,
    /// F3 key
    F3,
    /// F4 key
    F4,
    /// F5 key
    F5,
    /// F6 key
    F6,
    /// F7 key
    F7,
    /// F8 key
    F8,
    /// F9 key
    F9,
    /// F10 key
    F10,
    /// F11 key
    F11,
    /// F12 key
    F12,
    /// A plain character key
    Char(char),
    /// A character pressed together with Control
    Ctrl(char),
    /// A character pressed together with Alt
    Alt(char),
    /// Any key this model does not name
    Unknown,
}

/// One input for the UI loop: a key press, or a timer tick.
pub enum UiInputEvent {
    /// A key was pressed.
    Input(UiKey),
    /// The tick period elapsed with no key press.
    Tick,
}

/// The function key with the given number: 0 is F0, 1 is F1, and so on.
pub open spec fn function_key(n: int) -> UiKey {
    if n == 0 {
        UiKey::F0
    } else if n == 1 {
        UiKey::F1
    } else if n == 2 {
        UiKey::F2
    } else if n == 3 {
        UiKey::F3
    } else if n == 4 {
        UiKey::F4
    } else if n == 5 {
        UiKey::F5
    } else if n == 6 {
        UiKey::F6
    } else if n == 7 {
        UiKey::F7
    } else if n == 8 {
        UiKey::F8
    } else if n == 9 {
        UiKey::F9
    } else if n == 10 {
        UiKey::F10
    } else if n == 11 {
        UiKey::F11
    } else {
        UiKey::F12
    }
}

impl UiKey {
    /// Returns the function key corresponding to the given number
    ///
    /// 0 -> F0, 1 -> F1, etc. Numbers above 12 name no function key.
    pub fn from_f(n: u8) -> (k: UiKey)
        requires
            n <= 12,
        ensures
            k == function_key(n as int),
    {
        match n {
            0 => UiKey::F0,
            1 => UiKey::F1,
            2 => UiKey::F2,
            3 => UiKey::F3,
            4 => UiKey::F4,
            5 => UiKey::F5,
            6 => UiKey::F6,
            7 => UiKey::F7,
            8 => UiKey::F8,
            9 => UiKey::F9,
            10 => UiKey::F10,
            11 => UiKey::F11,
            _ => UiKey::F12,
        }
    }
}

} // verus!

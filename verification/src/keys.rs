//! Logical key events: a key code plus a control-modifier flag, as the
//! input source delivers them one at a time.

use vstd::prelude::*;

verus! {

/// A logical key code.
#[derive(Clone, Copy, PartialEq, Eq, Debug)]
pub enum KeyCode {
    Char(char),
    Esc,
    Enter,
    Backspace,
    Delete,
    Up,
    Down,
    Left,
    Right,
    /// Any key the application gives no meaning to.
    Other,
}

/// A key event: the code and whether the control modifier was held.
#[derive(Clone, Copy, PartialEq, Eq, Debug)]
pub struct KeyInput {
    pub code: KeyCode,
    pub ctrl: bool,
}

impl KeyInput {
    /// A plain key press without modifiers.
    pub fn plain(code: KeyCode) -> (r: KeyInput)
        ensures
            r == (KeyInput { code, ctrl: false }),
    {
        KeyInput { code, ctrl: false }
    }

    /// A key press with the control modifier held.
    pub fn ctrl(code: KeyCode) -> (r: KeyInput)
        ensures
            r == (KeyInput { code, ctrl: true }),
    {
        KeyInput { code, ctrl: true }
    }
}

} // verus!

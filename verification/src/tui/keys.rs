use vstd::prelude::*;

verus! {

/// The key of a key press, as the application tells keys apart.
#[derive(Debug, Clone, Copy, PartialEq, Eq, Structural)]
pub enum KeyCode {
    Char(char),
    Enter,
    Backspace,
    Left,
    Right,
    Up,
    Down,
    PageUp,
    PageDown,
    Tab,
    Esc,
    /// Any other key.
    Other,
}

/// A key event: the key, whether Control was held, and whether it is a press
/// (rather than a release or a repeat).
#[derive(Debug, Clone, Copy)]
pub struct KeyEvent {
    pub code: KeyCode,
    pub ctrl: bool,
    pub is_press: bool,
}

} // verus!

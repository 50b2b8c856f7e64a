//! The key-event model the dispatcher works on.
//!
//! The run loop translates whatever the terminal backend reports into
//! this closed set of codes and modifier classes; everything the
//! dispatcher decides is a function of these values alone.

use vstd::prelude::*;

verus! {

/// The keys the editor reacts to.  Anything else arrives as `Other`
/// and is silently dropped by every command family.
#[derive(Clone, Copy, PartialEq, Eq, Structural, Debug)]
pub enum KeyCode {
    Char(char),
    Tab,
    Enter,
    Backspace,
    Delete,
    Up,
    Down,
    Left,
    Right,
    Home,
    End,
    PageUp,
    PageDown,
    Esc,
    Other,
}

/// The modifier classes the editor distinguishes.  `Plain` is "no
/// modifier"; any combination other than plain Shift or plain Control
/// arrives as `Other`.
#[derive(Clone, Copy, PartialEq, Eq, Structural, Debug)]
pub enum KeyModifiers {
    Plain,
    Shift,
    Control,
    Other,
}

/// One key press, as the dispatcher sees it.
#[derive(Clone, Copy, PartialEq, Eq, Structural, Debug)]
pub struct KeyEvent {
    pub code: KeyCode,
    pub modifiers: KeyModifiers,
}

} // verus!

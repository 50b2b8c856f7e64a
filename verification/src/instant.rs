//! The instant commands: key presses that act immediately, whatever
//! mode the editor is in.  They are tried before everything else, so
//! quitting, saving and escaping stay reachable mid-command.

use vstd::prelude::*;

use crate::key::{KeyCode, KeyEvent, KeyModifiers};

verus! {

/// Ctrl+Q: quit the editor.
#[derive(Clone, Copy, PartialEq, Eq, Structural, Debug)]
pub enum Quit {
    CtrlQ,
}

/// Which quit command a key press parses to.
pub open spec fn spec_parse_quit(key: KeyEvent) -> Option<Quit> {
    if key.modifiers == KeyModifiers::Control && key.code == KeyCode::Char('q') {
        Some(Quit::CtrlQ)
    } else {
        None
    }
}

impl Quit {
    /// Parses a key press into the quit command.
    pub fn try_from_key(key: KeyEvent) -> (r: Option<Quit>)
        ensures
            r == spec_parse_quit(key),
    {
        match (key.code, key.modifiers) {
            (KeyCode::Char(c), KeyModifiers::Control) => if c == 'q' {
                Some(Quit::CtrlQ)
            } else {
                None
            },
            _ => None,
        }
    }
}

/// Ctrl+S: save the document.
#[derive(Clone, Copy, PartialEq, Eq, Structural, Debug)]
pub enum Save {
    CtrlS,
}

/// Which save command a key press parses to.
pub open spec fn spec_parse_save(key: KeyEvent) -> Option<Save> {
    if key.modifiers == KeyModifiers::Control && key.code == KeyCode::Char('s') {
        Some(Save::CtrlS)
    } else {
        None
    }
}

impl Save {
    /// Parses a key press into the save command.
    pub fn try_from_key(key: KeyEvent) -> (r: Option<Save>)
        ensures
            r == spec_parse_save(key),
    {
        match (key.code, key.modifiers) {
            (KeyCode::Char(c), KeyModifiers::Control) => if c == 's' {
                Some(Save::CtrlS)
            } else {
                None
            },
            _ => None,
        }
    }
}

/// Esc: abandon the command being edited and return to text editing.
#[derive(Clone, Copy, PartialEq, Eq, Structural, Debug)]
pub enum Disable {
    Esc,
}

/// Which disable command a key press parses to: Esc, with any
/// modifiers.
pub open spec fn spec_parse_disable(key: KeyEvent) -> Option<Disable> {
    if key.code == KeyCode::Esc {
        Some(Disable::Esc)
    } else {
        None
    }
}

impl Disable {
    /// Parses a key press into the disable command.
    pub fn try_from_key(key: KeyEvent) -> (r: Option<Disable>)
        ensures
            r == spec_parse_disable(key),
    {
        match key.code {
            KeyCode::Esc => Some(Disable::Esc),
            _ => None,
        }
    }
}

} // verus!

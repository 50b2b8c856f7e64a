//! Core of a terminal text editor, verified with Verus.
//!
//! The document is a sequence of lines; a line is a sequence of
//! grapheme cells, each knowing its display width ([`cell`], [`line`]).
//! The [`edit_area`] owns the buffer, the caret and the scroll offset;
//! [`move_cmd`] and [`edit_cmd`] are the movement and editing commands,
//! every one of which clamps the caret and follows it with the
//! viewport.  [`mode`] is the modal key dispatcher: its whole step is
//! the spec function `spec_step`, and the executable handler is proved
//! to produce exactly that session.  The run loop around the library
//! only reads key events, paints, and performs the file side effects
//! the dispatcher asks for.

pub mod cell;
pub mod cmd_line;
pub mod coords;
pub mod delay_cmd;
pub mod edit_area;
pub mod edit_cmd;
pub mod editor;
pub mod file_info;
pub mod instant;
pub mod key;
pub mod line;
pub mod mode;
pub mod move_cmd;
pub mod status_bar;
pub mod unicode;

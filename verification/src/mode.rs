//! The modal dispatcher: which command family interprets a key press,
//! given the editor's current mode.
//!
//! The whole step is one spec function, `spec_step`; the executable
//! dispatcher is proved to produce exactly that session and side
//! effect.  Dispatch priority is fixed: instant commands first
//! (quit, save, escape), then the family the mode selects.  A key no
//! family recognizes is silently dropped.

use vstd::prelude::*;

use crate::cell::cells_of_str;
use crate::cmd_line::CmdLineModel;
use crate::coords::DocumentCoordinate;
use crate::delay_cmd::{
    spec_apply_cmd_edit, spec_apply_cmd_move, spec_parse_cmd_edit, spec_parse_cmd_move,
    spec_parse_find, CmdCaretMove, CmdEdit, DelayCmd, Find, FindContextModel,
};
use crate::delay_cmd::{lemma_apply_cmd_edit_preserves_wf, lemma_apply_cmd_move_preserves_wf};
use crate::edit_cmd::{lemma_apply_edit_preserves_wf, spec_apply_edit, spec_parse_edit, Edit};
use crate::editor::{Editor, EditorModel};
use crate::instant::{spec_parse_disable, spec_parse_quit, spec_parse_save, Disable, Quit, Save};
use crate::key::{KeyCode, KeyEvent, KeyModifiers};
use crate::line::{lemma_cells_of_str_wf, line_saved_text};
use crate::move_cmd::{lemma_apply_move_preserves_wf, spec_apply_move, spec_caret_down};
use crate::move_cmd::{spec_caret_up, spec_parse_move, Move};

verus! {

/// The editor's mode: plain text editing, or command-line interaction
/// with a delayed command armed — first editing its input, then, once
/// confirmed, in the command's post-confirm phase.
#[derive(Clone, Copy, PartialEq, Eq, Debug)]
pub enum Mode {
    EditMode,
    CmdLineMode { armed: Option<DelayCmd>, editing: bool },
}

/// What the run loop must do after a dispatch step: nothing, or write
/// the document to its file (and call `mark_saved` on success).
#[derive(Clone, Copy, PartialEq, Eq, Structural, Debug)]
pub enum SideEffect {
    Nothing,
    SaveFile,
}

/// Whether a key press arms the find command from editing mode.
pub open spec fn spec_is_find_trigger(key: KeyEvent) -> bool {
    key.modifiers == KeyModifiers::Control && key.code == KeyCode::Char('f')
}

/// The session after arming the find command: command-line mode,
/// editing the query, find prompt shown.
pub open spec fn spec_arm_find(e: EditorModel) -> EditorModel {
    EditorModel {
        mode: Mode::CmdLineMode { armed: Some(DelayCmd::Find), editing: true },
        cmd_line: CmdLineModel {
            prompt: cells_of_str("Find: "@),
            caret: DocumentCoordinate { line_idx: e.cmd_line.row, cell_idx: 0 },
            ..e.cmd_line
        },
        ..e
    }
}

/// The session after Esc: back to editing with the command line
/// cleared, or unchanged when already editing.
pub open spec fn spec_disable(e: EditorModel) -> EditorModel {
    match e.mode {
        Mode::CmdLineMode { .. } => EditorModel {
            mode: Mode::EditMode,
            cmd_line: CmdLineModel {
                prompt: Seq::empty(),
                input: Seq::empty(),
                caret: DocumentCoordinate {
                    line_idx: e.cmd_line.row,
                    cell_idx: 0,
                },
                ..e.cmd_line
            },
            ..e
        },
        Mode::EditMode => e,
    }
}

/// The session after confirming the delayed command being edited: the
/// input (in saved text form) becomes the find query, and the command
/// enters its post-confirm phase.
pub open spec fn spec_confirm(e: EditorModel, armed: Option<DelayCmd>) -> EditorModel {
    EditorModel {
        mode: Mode::CmdLineMode { armed, editing: false },
        find: FindContextModel {
            query: line_saved_text(e.cmd_line.input),
            results: e.find.results,
        },
        ..e
    }
}

/// One step of the dispatch state machine: the session after the key
/// press, and the side effect the run loop must perform.
///
/// Instant commands come first in every mode.  In editing mode,
/// Ctrl+F arms find, and the edit and movement families follow, each
/// refreshing the status bar.  In command-line mode the input-editing
/// families run while the command is being edited; once confirmed,
/// the find keys navigate the document caret.
pub open spec fn spec_step(e: EditorModel, key: KeyEvent) -> (EditorModel, SideEffect) {
    if spec_parse_quit(key) is Some {
        (EditorModel { is_quit: true, ..e }, SideEffect::Nothing)
    } else if spec_parse_save(key) is Some {
        (e, SideEffect::SaveFile)
    } else if spec_parse_disable(key) is Some {
        (spec_disable(e), SideEffect::Nothing)
    } else {
        let e2 = match e.mode {
            Mode::EditMode => {
                if spec_is_find_trigger(key) {
                    spec_arm_find(e)
                } else {
                    match spec_parse_edit(key) {
                        Some(op) => e.with_edit_area(spec_apply_edit(op, e.edit_area)),
                        None => match spec_parse_move(key) {
                            Some(mv) => e.with_edit_area(spec_apply_move(mv, e.edit_area)),
                            None => e,
                        },
                    }
                }
            },
            Mode::CmdLineMode { armed, editing } => {
                if editing {
                    match spec_parse_cmd_edit(key) {
                        Some(CmdEdit::Confirm) => spec_confirm(e, armed),
                        Some(op) => EditorModel {
                            cmd_line: spec_apply_cmd_edit(op, e.cmd_line),
                            ..e
                        },
                        None => match spec_parse_cmd_move(key) {
                            Some(cm) => EditorModel {
                                cmd_line: spec_apply_cmd_move(cm, e.cmd_line),
                                ..e
                            },
                            None => e,
                        },
                    }
                } else {
                    match spec_parse_find(key) {
                        Some(Find::Enable) => spec_arm_find(e),
                        Some(Find::Confirm) => spec_confirm(e, armed),
                        Some(Find::Up) => EditorModel {
                            edit_area: spec_caret_up(e.edit_area),
                            ..e
                        },
                        Some(Find::Left) => EditorModel {
                            edit_area: spec_caret_up(e.edit_area),
                            ..e
                        },
                        Some(Find::Down) => EditorModel {
                            edit_area: spec_caret_down(e.edit_area),
                            ..e
                        },
                        Some(Find::Right) => EditorModel {
                            edit_area: spec_caret_down(e.edit_area),
                            ..e
                        },
                        None => e,
                    }
                }
            },
        };
        (e2, SideEffect::Nothing)
    }
}

impl Mode {
    /// Dispatches one key press against the session, following
    /// `spec_step` exactly; the result tells the run loop which side
    /// effect to perform.
    ///
    /// Law (clamping invariant): together with the requires, the
    /// `wf` ensures states that every dispatch step, from any valid
    /// session, leaves the caret inside the document — so any sequence
    /// of dispatched commands does too.
    pub fn key_event_handler(key: KeyEvent, editor: &mut Editor) -> (eff: SideEffect)
        requires
            old(editor)@.wf(),
        ensures
            final(editor)@ == spec_step(old(editor)@, key).0,
            eff == spec_step(old(editor)@, key).1,
            final(editor)@.wf(),
    {
        if Quit::try_from_key(key).is_some() {
            editor.set_is_quit(true);
            return SideEffect::Nothing;
        }
        if Save::try_from_key(key).is_some() {
            return SideEffect::SaveFile;
        }
        if Disable::try_from_key(key).is_some() {
            editor.disable_cmd_line();
            return SideEffect::Nothing;
        }

        match editor.mode {
            Mode::EditMode => {
                let is_find_trigger = match (key.code, key.modifiers) {
                    (KeyCode::Char(c), KeyModifiers::Control) => c == 'f',
                    _ => false,
                };
                if is_find_trigger {
                    editor.enable_cmd_find();
                } else if let Some(op) = Edit::try_from_key(key) {
                    op.execute(&mut editor.edit_area);
                    editor.update_status();
                } else if let Some(mv) = Move::try_from_key(key) {
                    mv.execute(&mut editor.edit_area);
                    editor.update_status();
                }
            },
            Mode::CmdLineMode { armed, editing } => {
                if editing {
                    if let Some(op) = CmdEdit::try_from_key(key) {
                        match op {
                            CmdEdit::Confirm => editor.confirm_delay_cmd(armed),
                            _ => op.execute(&mut editor.cmd_line),
                        }
                    } else if let Some(cm) = CmdCaretMove::try_from_key(key) {
                        cm.execute(&mut editor.cmd_line);
                    }
                } else {
                    if let Some(f) = Find::try_from_key(key) {
                        match f {
                            Find::Enable => editor.enable_cmd_find(),
                            Find::Confirm => editor.confirm_delay_cmd(armed),
                            Find::Up => Find::find_prev(&mut editor.edit_area),
                            Find::Left => Find::find_prev(&mut editor.edit_area),
                            Find::Down => Find::find_next(&mut editor.edit_area),
                            Find::Right => Find::find_next(&mut editor.edit_area),
                        }
                    }
                }
            },
        }
        SideEffect::Nothing
    }
}


/// Law (clamping invariant): one dispatch step, from any valid
/// session and for any key press, yields a valid session — the caret
/// satisfies `line_idx < lines.len()` and
/// `cell_idx <= cell_count(line)` afterwards.  By induction, so does
/// every sequence of dispatched commands.
pub proof fn lemma_step_preserves_wf(e: EditorModel, key: KeyEvent)
    requires
        e.wf(),
    ensures
        spec_step(e, key).0.wf(),
{
    if spec_parse_quit(key) is Some {
    } else if spec_parse_save(key) is Some {
    } else if spec_parse_disable(key) is Some {
    } else {
        match e.mode {
            Mode::EditMode => {
                if spec_is_find_trigger(key) {
                    lemma_cells_of_str_wf("Find: "@);
                } else {
                    match spec_parse_edit(key) {
                        Some(op) => {
                            lemma_apply_edit_preserves_wf(op, e.edit_area);
                        },
                        None => match spec_parse_move(key) {
                            Some(mv) => {
                                lemma_apply_move_preserves_wf(mv, e.edit_area);
                            },
                            None => {},
                        },
                    }
                }
            },
            Mode::CmdLineMode { armed, editing } => {
                if editing {
                    match spec_parse_cmd_edit(key) {
                        Some(CmdEdit::Confirm) => {},
                        Some(op) => {
                            lemma_apply_cmd_edit_preserves_wf(op, e.cmd_line);
                        },
                        None => match spec_parse_cmd_move(key) {
                            Some(cm) => {
                                lemma_apply_cmd_move_preserves_wf(cm, e.cmd_line);
                            },
                            None => {},
                        },
                    }
                } else {
                    match spec_parse_find(key) {
                        Some(Find::Enable) => {
                            lemma_cells_of_str_wf("Find: "@);
                        },
                        Some(Find::Confirm) => {},
                        Some(Find::Up) => {
                            lemma_apply_move_preserves_wf(Move::Up, e.edit_area);
                        },
                        Some(Find::Left) => {
                            lemma_apply_move_preserves_wf(Move::Up, e.edit_area);
                        },
                        Some(Find::Down) => {
                            lemma_apply_move_preserves_wf(Move::Down, e.edit_area);
                        },
                        Some(Find::Right) => {
                            lemma_apply_move_preserves_wf(Move::Down, e.edit_area);
                        },
                        None => {},
                    }
                }
            },
        }
    }
}

} // verus!

//! The delayed-command machinery: a delayed command is armed, edited
//! in the command line, confirmed with Enter, and (for find) then
//! navigated.
//!
//! `CmdEdit` and `CmdCaretMove` edit the command-line input while a
//! delayed command is being edited; `Find` is the one delayed command
//! the editor has.  Its matching algorithm is deliberately absent:
//! confirming stores the query, and the navigation keys step the
//! document caret one line at a time with the usual clamping.

use vstd::prelude::*;

use crate::cell::{cell_model_of_grapheme, lemma_cell_model_of_grapheme_wf, Cell, CellModel};
use crate::cmd_line::{CmdLine, CmdLineModel};
use crate::coords::{cap_add, cap_sub, DocumentCoordinate};
use crate::edit_area::EditArea;
use crate::key::{KeyCode, KeyEvent, KeyModifiers};
use crate::line::{lemma_line_wf_insert, lemma_line_wf_remove};
use crate::move_cmd::{spec_caret_down, spec_caret_up, Move};

verus! {

/// The delayed commands the editor knows.
#[derive(Clone, Copy, PartialEq, Eq, Structural, Debug)]
pub enum DelayCmd {
    Find,
}

/// The find context: the confirmed query and the positions of its
/// occurrences.  No matching algorithm fills the result list yet; it
/// exists so a confirmed query has a place to live.
pub struct FindContext {
    pub query: String,
    pub results: Vec<DocumentCoordinate>,
}

/// The mathematical content of the find context.
pub ghost struct FindContextModel {
    pub query: Seq<char>,
    pub results: Seq<DocumentCoordinate>,
}

impl View for FindContext {
    type V = FindContextModel;

    open spec fn view(&self) -> FindContextModel {
        FindContextModel { query: self.query@, results: self.results@ }
    }
}

impl Default for FindContext {
    /// No query, no results.
    fn default() -> (r: Self)
        ensures
            r@.query == Seq::<char>::empty(),
            r@.results == Seq::<DocumentCoordinate>::empty(),
    {
        FindContext { query: String::new(), results: Vec::new() }
    }
}

impl FindContext {
    /// Replaces the stored query.
    pub fn set_query(&mut self, query: String)
        ensures
            final(self)@.query == query@,
            final(self)@.results == old(self)@.results,
    {
        self.query = query;
    }
}

/// Caret movement inside the command-line input.
#[derive(Clone, Copy, PartialEq, Eq, Structural, Debug)]
pub enum CmdCaretMove {
    Left,
    Right,
    Home,
    End,
}

/// Which command-line caret move a key press parses to.
pub open spec fn spec_parse_cmd_move(key: KeyEvent) -> Option<CmdCaretMove> {
    if key.modifiers == KeyModifiers::Plain {
        match key.code {
            KeyCode::Left => Some(CmdCaretMove::Left),
            KeyCode::Right => Some(CmdCaretMove::Right),
            KeyCode::Home => Some(CmdCaretMove::Home),
            KeyCode::End => Some(CmdCaretMove::End),
            _ => None,
        }
    } else {
        None
    }
}

/// A clamped caret move inside the command line: the row is pinned to
/// the strip's row, the cell index clamps to `[0, input cell count]`.
pub open spec fn spec_cmd_move_validly(m: CmdLineModel, target_cell: usize) -> CmdLineModel {
    CmdLineModel {
        caret: DocumentCoordinate {
            line_idx: m.row,
            cell_idx: if (target_cell as int) <= m.input.len() {
                target_cell
            } else {
                m.input.len() as usize
            },
        },
        ..m
    }
}

/// The command line after a caret-move command runs.
pub open spec fn spec_apply_cmd_move(op: CmdCaretMove, m: CmdLineModel) -> CmdLineModel {
    match op {
        CmdCaretMove::Left => if m.caret.cell_idx > 0 {
            spec_cmd_move_validly(m, cap_sub(m.caret.cell_idx as nat, 1) as usize)
        } else {
            m
        },
        CmdCaretMove::Right => if (m.caret.cell_idx as int) < m.input.len() {
            spec_cmd_move_validly(m, cap_add(m.caret.cell_idx as nat, 1) as usize)
        } else {
            m
        },
        CmdCaretMove::Home => spec_cmd_move_validly(m, 0),
        CmdCaretMove::End => spec_cmd_move_validly(m, m.input.len() as usize),
    }
}

impl CmdCaretMove {
    /// Parses a key press into a command-line caret move.
    pub fn try_from_key(key: KeyEvent) -> (r: Option<CmdCaretMove>)
        ensures
            r == spec_parse_cmd_move(key),
    {
        if key.modifiers == KeyModifiers::Plain {
            match key.code {
                KeyCode::Left => Some(CmdCaretMove::Left),
                KeyCode::Right => Some(CmdCaretMove::Right),
                KeyCode::Home => Some(CmdCaretMove::Home),
                KeyCode::End => Some(CmdCaretMove::End),
                _ => None,
            }
        } else {
            None
        }
    }

    /// Clamps a target cell index into the input and stores the caret
    /// on the strip's row.
    pub fn move_caret_validly(cmd_line: &mut CmdLine, target_cell: usize)
        ensures
            final(cmd_line)@ == spec_cmd_move_validly(old(cmd_line)@, target_cell),
    {
        let count = cmd_line.input.get_cells_count();
        let valid_cell_idx = if target_cell < count {
            target_cell
        } else {
            count
        };
        let row = cmd_line.row;
        cmd_line.set_caret(DocumentCoordinate { line_idx: row, cell_idx: valid_cell_idx });
    }

    /// Runs this caret move on the command line.
    pub fn execute(self, cmd_line: &mut CmdLine)
        ensures
            final(cmd_line)@ == spec_apply_cmd_move(self, old(cmd_line)@),
    {
        match self {
            CmdCaretMove::Left => {
                let cell_idx = cmd_line.caret.cell_idx;
                if cell_idx > 0 {
                    Self::move_caret_validly(cmd_line, cell_idx - 1);
                }
            },
            CmdCaretMove::Right => {
                let cell_idx = cmd_line.caret.cell_idx;
                let count = cmd_line.input.get_cells_count();
                if cell_idx < count {
                    Self::move_caret_validly(cmd_line, cell_idx.saturating_add(1));
                }
            },
            CmdCaretMove::Home => {
                Self::move_caret_validly(cmd_line, 0);
            },
            CmdCaretMove::End => {
                let count = cmd_line.input.get_cells_count();
                Self::move_caret_validly(cmd_line, count);
            },
        }
    }
}

/// Edits of the command-line input while a delayed command is being
/// composed; Enter confirms it.
pub enum CmdEdit {
    Insert(char),
    Backspace,
    Delete,
    Confirm,
}

/// Which command-line edit a key press parses to.
pub open spec fn spec_parse_cmd_edit(key: KeyEvent) -> Option<CmdEdit> {
    match (key.code, key.modifiers) {
        (KeyCode::Char(c), KeyModifiers::Plain) => Some(CmdEdit::Insert(c)),
        (KeyCode::Char(c), KeyModifiers::Shift) => Some(CmdEdit::Insert(c)),
        (KeyCode::Tab, KeyModifiers::Plain) => Some(CmdEdit::Insert('\t')),
        (KeyCode::Backspace, KeyModifiers::Plain) => Some(CmdEdit::Backspace),
        (KeyCode::Delete, KeyModifiers::Plain) => Some(CmdEdit::Delete),
        (KeyCode::Enter, KeyModifiers::Plain) => Some(CmdEdit::Confirm),
        _ => None,
    }
}

/// The command line after a cell is inserted at its caret: the input
/// gains the cell and the caret moves one cell right.
pub open spec fn spec_cmd_insert(m: CmdLineModel, cm: CellModel) -> CmdLineModel {
    let m1 = CmdLineModel { input: m.input.insert(m.caret.cell_idx as int, cm), ..m };
    spec_apply_cmd_move(CmdCaretMove::Right, m1)
}

/// The command line after Backspace: the cell before the caret is
/// removed and the caret moves one cell left; nothing at the start.
pub open spec fn spec_cmd_backspace(m: CmdLineModel) -> CmdLineModel {
    if m.caret.cell_idx > 0 {
        let m1 = CmdLineModel {
            input: m.input.remove(m.caret.cell_idx as int - 1),
            ..m
        };
        spec_cmd_move_validly(m1, cap_sub(m.caret.cell_idx as nat, 1) as usize)
    } else {
        m
    }
}

/// The command line after Delete: the cell under the caret is removed,
/// the caret stays; nothing past the last cell.
pub open spec fn spec_cmd_delete(m: CmdLineModel) -> CmdLineModel {
    if (m.caret.cell_idx as int) < m.input.len() {
        CmdLineModel { input: m.input.remove(m.caret.cell_idx as int), ..m }
    } else {
        m
    }
}

/// The command line after an edit command runs.  Confirm leaves the
/// strip itself untouched; the dispatcher owns its mode change.
pub open spec fn spec_apply_cmd_edit(op: CmdEdit, m: CmdLineModel) -> CmdLineModel {
    match op {
        CmdEdit::Insert(c) => spec_cmd_insert(m, cell_model_of_grapheme(seq![c])),
        CmdEdit::Backspace => spec_cmd_backspace(m),
        CmdEdit::Delete => spec_cmd_delete(m),
        CmdEdit::Confirm => m,
    }
}

impl CmdEdit {
    /// Parses a key press into a command-line edit.
    pub fn try_from_key(key: KeyEvent) -> (r: Option<CmdEdit>)
        ensures
            r == spec_parse_cmd_edit(key),
    {
        match (key.code, key.modifiers) {
            (KeyCode::Char(c), KeyModifiers::Plain) => Some(CmdEdit::Insert(c)),
            (KeyCode::Char(c), KeyModifiers::Shift) => Some(CmdEdit::Insert(c)),
            (KeyCode::Tab, KeyModifiers::Plain) => Some(CmdEdit::Insert('\t')),
            (KeyCode::Backspace, KeyModifiers::Plain) => Some(CmdEdit::Backspace),
            (KeyCode::Delete, KeyModifiers::Plain) => Some(CmdEdit::Delete),
            (KeyCode::Enter, KeyModifiers::Plain) => Some(CmdEdit::Confirm),
            _ => None,
        }
    }

    /// Inserts a cell at the command-line caret and moves it right.
    pub fn insert(cell: Cell, cmd_line: &mut CmdLine)
        requires
            old(cmd_line)@.wf(),
            cell@.wf(),
        ensures
            final(cmd_line)@ == spec_cmd_insert(old(cmd_line)@, cell@),
            final(cmd_line)@.wf(),
    {
        let cell_idx = cmd_line.caret.cell_idx;
        let input = cmd_line.mut_input();
        input.insert_cell(cell, cell_idx);
        proof {
            lemma_line_wf_insert(old(cmd_line)@.input, cell_idx as int, cell@);
        }
        CmdCaretMove::Right.execute(cmd_line);
    }

    /// Removes the cell before the command-line caret and moves it
    /// left; nothing at the input's start.
    pub fn backspace(cmd_line: &mut CmdLine)
        requires
            old(cmd_line)@.wf(),
        ensures
            final(cmd_line)@ == spec_cmd_backspace(old(cmd_line)@),
            final(cmd_line)@.wf(),
    {
        let cell_idx = cmd_line.caret.cell_idx;
        if cell_idx > 0 {
            let input = cmd_line.mut_input();
            input.delete_cell(cell_idx - 1);
            proof {
                lemma_line_wf_remove(old(cmd_line)@.input, cell_idx as int - 1);
            }
            CmdCaretMove::move_caret_validly(cmd_line, cell_idx - 1);
        }
    }

    /// Runs this command-line edit on the strip.  Confirm changes
    /// nothing here: the dispatcher owns the mode change it causes.
    pub fn execute(self, cmd_line: &mut CmdLine)
        requires
            old(cmd_line)@.wf(),
        ensures
            final(cmd_line)@ == spec_apply_cmd_edit(self, old(cmd_line)@),
            final(cmd_line)@.wf(),
    {
        match self {
            CmdEdit::Insert(c) => {
                let cell = Cell::char_to_cell(c);
                Self::insert(cell, cmd_line);
            },
            CmdEdit::Backspace => Self::backspace(cmd_line),
            CmdEdit::Delete => Self::delete(cmd_line),
            CmdEdit::Confirm => {},
        }
    }

    /// Removes the cell under the command-line caret; nothing past the
    /// input's last cell.
    pub fn delete(cmd_line: &mut CmdLine)
        requires
            old(cmd_line)@.wf(),
        ensures
            final(cmd_line)@ == spec_cmd_delete(old(cmd_line)@),
            final(cmd_line)@.wf(),
    {
        let cell_idx = cmd_line.caret.cell_idx;
        let count = cmd_line.input.get_cells_count();
        if cell_idx < count {
            let input = cmd_line.mut_input();
            input.delete_cell(cell_idx);
            proof {
                lemma_line_wf_remove(old(cmd_line)@.input, cell_idx as int);
            }
        }
    }
}

/// The find command's key set: Ctrl+F arms it, Enter confirms, and the
/// arrows navigate once confirmed.
#[derive(Clone, Copy, PartialEq, Eq, Structural, Debug)]
pub enum Find {
    Enable,
    Confirm,
    Up,
    Down,
    Left,
    Right,
}

/// Which find action a key press parses to.
pub open spec fn spec_parse_find(key: KeyEvent) -> Option<Find> {
    if key.modifiers == KeyModifiers::Control && key.code == KeyCode::Char('f') {
        Some(Find::Enable)
    } else if key.modifiers == KeyModifiers::Plain {
        match key.code {
            KeyCode::Enter => Some(Find::Confirm),
            KeyCode::Up => Some(Find::Up),
            KeyCode::Down => Some(Find::Down),
            KeyCode::Left => Some(Find::Left),
            KeyCode::Right => Some(Find::Right),
            _ => None,
        }
    } else {
        None
    }
}

impl Find {
    /// Parses a key press into a find action.
    pub fn try_from_key(key: KeyEvent) -> (r: Option<Find>)
        ensures
            r == spec_parse_find(key),
    {
        if key.modifiers == KeyModifiers::Control {
            match key.code {
                KeyCode::Char(c) => if c == 'f' {
                    Some(Find::Enable)
                } else {
                    None
                },
                _ => None,
            }
        } else if key.modifiers == KeyModifiers::Plain {
            match key.code {
                KeyCode::Enter => Some(Find::Confirm),
                KeyCode::Up => Some(Find::Up),
                KeyCode::Down => Some(Find::Down),
                KeyCode::Left => Some(Find::Left),
                KeyCode::Right => Some(Find::Right),
                _ => None,
            }
        } else {
            None
        }
    }

    /// Steps to the previous candidate position: one line up, clamped,
    /// with scroll-follow.
    pub fn find_prev(edit_area: &mut EditArea)
        requires
            old(edit_area)@.lines_wf(),
        ensures
            final(edit_area)@ == spec_caret_up(old(edit_area)@),
            final(edit_area)@.wf(),
    {
        Move::caret_up(edit_area);
    }

    /// Steps to the next candidate position: one line down, clamped,
    /// with scroll-follow.
    pub fn find_next(edit_area: &mut EditArea)
        requires
            old(edit_area)@.lines_wf(),
        ensures
            final(edit_area)@ == spec_caret_down(old(edit_area)@),
            final(edit_area)@.wf(),
    {
        Move::caret_down(edit_area);
    }
}


/// Law (clamping invariant, command-line moves): every command-line
/// caret move preserves the strip invariant.
pub proof fn lemma_apply_cmd_move_preserves_wf(op: CmdCaretMove, m: CmdLineModel)
    requires
        m.wf(),
    ensures
        spec_apply_cmd_move(op, m).wf(),
{
}

/// Law (clamping invariant, command-line edits): every command-line
/// edit preserves the strip invariant.
pub proof fn lemma_apply_cmd_edit_preserves_wf(op: CmdEdit, m: CmdLineModel)
    requires
        m.wf(),
    ensures
        spec_apply_cmd_edit(op, m).wf(),
{
    match op {
        CmdEdit::Insert(c) => {
            lemma_cell_model_of_grapheme_wf(seq![c]);
            lemma_line_wf_insert(m.input, m.caret.cell_idx as int, cell_model_of_grapheme(seq![c]));
        },
        CmdEdit::Backspace => {
            if m.caret.cell_idx > 0 {
                lemma_line_wf_remove(m.input, m.caret.cell_idx as int - 1);
            }
        },
        CmdEdit::Delete => {
            if (m.caret.cell_idx as int) < m.input.len() {
                lemma_line_wf_remove(m.input, m.caret.cell_idx as int);
            }
        },
        CmdEdit::Confirm => {},
    }
}

} // verus!

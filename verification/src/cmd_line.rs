//! The command line: the one-row strip at the bottom of the terminal
//! where delayed commands show a prompt and collect input.
//!
//! Its caret is kept as a document coordinate for uniformity:
//! `line_idx` is the terminal row the strip lives on, `cell_idx` the
//! caret's cell index inside the input line.

use vstd::prelude::*;

use crate::cell::{cells_of_str, CellModel};
use crate::coords::{cap_add, DocumentCoordinate, RowIdx, Size, TerminalCoordinate};
use crate::line::{line_wf, sat_prefix_width, width_until_model, Line};

verus! {

/// The mathematical content of the command line.
pub ghost struct CmdLineModel {
    pub size: Size,
    pub row: RowIdx,
    pub prompt: Seq<CellModel>,
    pub input: Seq<CellModel>,
    pub caret: DocumentCoordinate,
}

impl CmdLineModel {
    /// Prompt and input carry true widths, and the caret sits inside
    /// the input (one past its last cell at most).
    pub open spec fn wf(self) -> bool {
        &&& line_wf(self.prompt)
        &&& line_wf(self.input)
        &&& (self.caret.cell_idx as int) <= self.input.len()
    }

    /// The caret's position on the terminal grid: the command line's
    /// row, and the prompt's width plus the input width before the
    /// caret.
    pub open spec fn caret_terminal(self) -> TerminalCoordinate {
        TerminalCoordinate {
            row: self.caret.line_idx,
            col: cap_add(
                sat_prefix_width(self.prompt, self.prompt.len() as int),
                width_until_model(self.input, self.caret.cell_idx as int),
            ) as usize,
        }
    }
}

/// The command-line strip at the bottom of the terminal.
pub struct CmdLine {
    pub size: Size,
    pub row: RowIdx,
    pub prompt_msg: Line,
    pub input: Line,
    pub caret: DocumentCoordinate,
}

impl View for CmdLine {
    type V = CmdLineModel;

    open spec fn view(&self) -> CmdLineModel {
        CmdLineModel {
            size: self.size,
            row: self.row,
            prompt: self.prompt_msg@,
            input: self.input@,
            caret: self.caret,
        }
    }
}

impl Default for CmdLine {
    /// An empty command line on row 0 with no prompt and no input.
    fn default() -> (r: Self)
        ensures
            r@.size == (Size { width: 0, height: 0 }),
            r@.row == 0,
            r@.prompt == Seq::<CellModel>::empty(),
            r@.input == Seq::<CellModel>::empty(),
            r@.caret == (DocumentCoordinate { line_idx: 0, cell_idx: 0 }),
            r@.wf(),
    {
        CmdLine {
            size: Size::default(),
            row: 0,
            prompt_msg: Line::default(),
            input: Line::default(),
            caret: DocumentCoordinate::default(),
        }
    }
}

impl CmdLine {
    /// The strip's size.
    pub fn size(&self) -> (r: &Size)
        ensures
            r == self@.size,
    {
        &self.size
    }

    /// Gives the strip the terminal's width, its fixed height of one
    /// row, and the terminal row it lives on.
    pub fn resize(&mut self, size: Size, row: RowIdx)
        ensures
            final(self)@ == (CmdLineModel {
                size: Size { width: size.width, height: 1 },
                row,
                ..old(self)@
            }),
    {
        self.size = Size { width: size.width, height: 1 };
        self.row = row;
    }

    /// Sets the prompt and parks the caret at the input's start on the
    /// strip's row.
    pub fn set_prompt_msg(&mut self, msg: &str)
        ensures
            final(self)@ == (CmdLineModel {
                prompt: cells_of_str(msg@),
                caret: DocumentCoordinate { line_idx: old(self)@.row, cell_idx: 0 },
                ..old(self)@
            }),
            line_wf(final(self)@.prompt),
    {
        self.prompt_msg = Line::from(msg);
        self.caret = DocumentCoordinate { line_idx: self.row, cell_idx: 0 };
    }

    /// Sets the prompt shown after a successful save.
    pub fn set_prompt_for_save(&mut self)
        ensures
            final(self)@ == (CmdLineModel {
                prompt: cells_of_str("File saved"@),
                caret: DocumentCoordinate { line_idx: old(self)@.row, cell_idx: 0 },
                ..old(self)@
            }),
            line_wf(final(self)@.prompt),
    {
        self.set_prompt_msg("File saved");
    }

    /// Sets the prompt that arms the find command.
    pub fn set_prompt_for_find(&mut self)
        ensures
            final(self)@ == (CmdLineModel {
                prompt: cells_of_str("Find: "@),
                caret: DocumentCoordinate { line_idx: old(self)@.row, cell_idx: 0 },
                ..old(self)@
            }),
            line_wf(final(self)@.prompt),
    {
        self.set_prompt_msg("Find: ");
    }

    /// Clears the prompt and the input and parks the caret, as Esc
    /// does when it abandons a command.
    pub fn clear(&mut self)
        ensures
            final(self)@ == (CmdLineModel {
                prompt: Seq::<CellModel>::empty(),
                input: Seq::<CellModel>::empty(),
                caret: DocumentCoordinate { line_idx: old(self)@.row, cell_idx: 0 },
                ..old(self)@
            }),
            final(self)@.wf(),
    {
        self.prompt_msg = Line::default();
        self.input = Line::default();
        self.caret = DocumentCoordinate { line_idx: self.row, cell_idx: 0 };
    }

    /// Borrows the input line.
    pub fn input(&self) -> (r: &Line)
        ensures
            r@ == self@.input,
    {
        &self.input
    }

    /// Mutably borrows the input line; the rest of the strip is
    /// untouched.
    pub fn mut_input(&mut self) -> (r: &mut Line)
        ensures
            *r == old(self).input,
            final(self).input == *final(r),
            final(self).size == old(self).size,
            final(self).row == old(self).row,
            final(self).prompt_msg == old(self).prompt_msg,
            final(self).caret == old(self).caret,
    {
        &mut self.input
    }

    /// Sets the caret, unchecked; the command-line movement commands
    /// clamp before calling this.
    pub fn set_caret(&mut self, coordinate: DocumentCoordinate)
        ensures
            final(self)@ == (CmdLineModel { caret: coordinate, ..old(self)@ }),
    {
        self.caret = coordinate;
    }

    /// The caret's position inside the command line.
    pub fn caret(&self) -> (r: &DocumentCoordinate)
        ensures
            r == self@.caret,
    {
        &self.caret
    }

    /// The caret's position on the terminal grid.
    pub fn caret_to_terminal(&self) -> (r: TerminalCoordinate)
        ensures
            r == self@.caret_terminal(),
    {
        let prompt_width = self.prompt_msg.get_cell_width_until(self.prompt_msg.get_cells_count());
        let input_width = self.input.get_cell_width_until(self.caret.cell_idx);
        TerminalCoordinate {
            row: self.caret.line_idx,
            col: prompt_width.saturating_add(input_width),
        }
    }
}

} // verus!

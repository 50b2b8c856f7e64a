//! Index aliases, the two coordinate spaces, and rectangular sizes.
//!
//! A document coordinate addresses a grapheme cell in the buffer
//! (`line_idx` selects the line, `cell_idx` the cell within it, where
//! one-past-the-last cell is a valid caret position).  A terminal
//! coordinate addresses a character cell of the terminal grid.

use vstd::prelude::*;

verus! {

/// Addition capped at `usize::MAX`, the result of `usize::saturating_add`.
pub open spec fn cap_add(a: nat, b: nat) -> nat {
    if a + b > usize::MAX {
        usize::MAX as nat
    } else {
        a + b
    }
}

/// Subtraction capped at zero, the result of `usize::saturating_sub`.
pub open spec fn cap_sub(a: nat, b: nat) -> nat {
    if a <= b {
        0
    } else {
        (a - b) as nat
    }
}

/// Index of a line within the document buffer.
pub type LineIdx = usize;

/// Index of a grapheme cell within a line.
pub type CellIdx = usize;

/// Row of the terminal grid.
pub type RowIdx = usize;

/// Column of the terminal grid.
pub type ColIdx = usize;

/// Position of the caret inside the document, counted in lines and cells.
#[derive(Clone, Copy, PartialEq, Eq, Structural, Debug)]
pub struct DocumentCoordinate {
    pub line_idx: LineIdx,
    pub cell_idx: CellIdx,
}

impl Default for DocumentCoordinate {
    /// The document origin: first line, first cell.
    fn default() -> (r: Self)
        ensures
            r.line_idx == 0,
            r.cell_idx == 0,
    {
        Self { line_idx: 0, cell_idx: 0 }
    }
}

/// Position on the terminal grid; also used for the scroll offset, which
/// is the document-space position rendered at the grid origin.
#[derive(Clone, Copy, PartialEq, Eq, Structural, Debug)]
pub struct TerminalCoordinate {
    pub row: RowIdx,
    pub col: ColIdx,
}

impl Default for TerminalCoordinate {
    /// The grid origin.
    fn default() -> (r: Self)
        ensures
            r.row == 0,
            r.col == 0,
    {
        Self { row: 0, col: 0 }
    }
}

/// Width and height of a rectangular region of the terminal, in cells.
#[derive(Clone, Copy, PartialEq, Eq, Structural, Debug)]
pub struct Size {
    pub width: usize,
    pub height: usize,
}

impl Default for Size {
    /// The empty region.
    fn default() -> (r: Self)
        ensures
            r.width == 0,
            r.height == 0,
    {
        Self { width: 0, height: 0 }
    }
}

} // verus!

//! The edit area: the document buffer, the caret, the modified flag,
//! and the viewport state (its size and scroll offset).
//!
//! The invariant every command re-establishes is `EditAreaModel::wf`:
//! the buffer is never empty, the caret's line index is in range, and
//! its cell index is at most the cell count of its line (one past the
//! end is a valid caret position).

use vstd::prelude::*;

use crate::cell::{cells_of_str, CellModel};
use crate::coords::{cap_sub, CellIdx, DocumentCoordinate, LineIdx, Size, TerminalCoordinate};
use crate::line::{lemma_line_round_trip, line_saved_text, line_wf, placeholder_free};
use crate::line::{width_until_model, Line};
use crate::unicode::graphemes_of;

verus! {

/// The mathematical content of the edit area.
pub ghost struct EditAreaModel {
    pub size: Size,
    pub lines: Seq<Seq<CellModel>>,
    pub is_modified: bool,
    pub caret: DocumentCoordinate,
    pub scroll_offset: TerminalCoordinate,
}

impl EditAreaModel {
    /// The buffer part of the document invariant: at least one line,
    /// every line well formed.  Edits hold this even at the moments
    /// the caret is transiently out of range.
    pub open spec fn lines_wf(self) -> bool {
        &&& self.lines.len() >= 1
        &&& forall|i: int| 0 <= i < self.lines.len() ==> line_wf(#[trigger] self.lines[i])
    }

    /// The document invariant: a well-formed buffer and the caret
    /// clamped into it.
    pub open spec fn wf(self) -> bool {
        &&& self.lines_wf()
        &&& (self.caret.line_idx as int) < self.lines.len()
        &&& (self.caret.cell_idx as int) <= self.lines[self.caret.line_idx as int].len()
    }

    /// The cell count of line `line_idx`, or 0 when the index is out of
    /// range.
    pub open spec fn cell_count_at(self, line_idx: int) -> nat {
        if 0 <= line_idx < self.lines.len() {
            self.lines[line_idx].len()
        } else {
            0
        }
    }

    /// The columns before `cell_idx` on line `line_idx`, or 0 when the
    /// line index is out of range.
    pub open spec fn width_until_at(self, line_idx: int, cell_idx: int) -> nat {
        if 0 <= line_idx < self.lines.len() {
            width_until_model(self.lines[line_idx], cell_idx)
        } else {
            0
        }
    }

    /// The caret's position on the terminal grid: its document position
    /// shifted by the scroll offset, saturating at zero.
    pub open spec fn caret_terminal(self) -> TerminalCoordinate {
        TerminalCoordinate {
            row: cap_sub(self.caret.line_idx as nat, self.scroll_offset.row as nat) as usize,
            col: cap_sub(
                self.width_until_at(self.caret.line_idx as int, self.caret.cell_idx as int),
                self.scroll_offset.col as nat,
            ) as usize,
        }
    }
}

/// The lines a raw document loads as: one line of cells per raw row,
/// plus one trailing empty line.
pub open spec fn loaded_lines(rows: Seq<Seq<char>>) -> Seq<Seq<CellModel>> {
    rows.map_values(|r: Seq<char>| cells_of_str(r)).push(Seq::<CellModel>::empty())
}

/// The scrollable document region of the editor.
pub struct EditArea {
    pub size: Size,
    pub lines: Vec<Line>,
    pub is_modified: bool,
    pub caret: DocumentCoordinate,
    pub scroll_offset: TerminalCoordinate,
}

impl View for EditArea {
    type V = EditAreaModel;

    open spec fn view(&self) -> EditAreaModel {
        EditAreaModel {
            size: self.size,
            lines: self.lines@.map_values(|l: Line| l@),
            is_modified: self.is_modified,
            caret: self.caret,
            scroll_offset: self.scroll_offset,
        }
    }
}

impl Default for EditArea {
    /// An empty document: one empty line, caret at the origin, nothing
    /// scrolled, not modified.
    fn default() -> (r: Self)
        ensures
            r@.lines == seq![Seq::<CellModel>::empty()],
            r@.size == (Size { width: 0, height: 0 }),
            r@.is_modified == false,
            r@.caret == (DocumentCoordinate { line_idx: 0, cell_idx: 0 }),
            r@.scroll_offset == (TerminalCoordinate { row: 0, col: 0 }),
            r@.wf(),
    {
        let mut lines: Vec<Line> = Vec::new();
        lines.push(Line::default());
        let r = EditArea {
            size: Size::default(),
            lines,
            is_modified: false,
            caret: DocumentCoordinate::default(),
            scroll_offset: TerminalCoordinate::default(),
        };
        proof {
            assert(r@.lines =~= seq![Seq::<CellModel>::empty()]);
        }
        r
    }
}

impl EditArea {
    /// Replaces the document with the given raw rows, one line per row
    /// plus a trailing empty line; resets the caret and the modified
    /// flag.  The viewport size and scroll offset are untouched.
    pub fn load(&mut self, rows: &Vec<String>)
        ensures
            final(self)@.lines == loaded_lines(rows@.map_values(|s: String| s@)),
            final(self)@.is_modified == false,
            final(self)@.caret == (DocumentCoordinate { line_idx: 0, cell_idx: 0 }),
            final(self)@.size == old(self)@.size,
            final(self)@.scroll_offset == old(self)@.scroll_offset,
            final(self)@.wf(),
    {
        let mut lines: Vec<Line> = Vec::new();
        let mut i: usize = 0;
        while i < rows.len()
            invariant
                i <= rows@.len(),
                lines@.len() == i,
                forall|j: int| 0 <= j < i ==> (#[trigger] lines@[j]@) == cells_of_str(rows@[j]@),
                forall|j: int| 0 <= j < i ==> (#[trigger] lines@[j]).wf(),
            decreases rows@.len() - i,
        {
            lines.push(Line::from(rows[i].as_str()));
            i += 1;
        }
        lines.push(Line::default());
        self.lines = lines;
        self.is_modified = false;
        self.caret = DocumentCoordinate { line_idx: 0, cell_idx: 0 };
        proof {
            assert(self@.lines =~= loaded_lines(rows@.map_values(|s: String| s@)));
        }
    }

    /// The viewport size of the edit area.
    pub fn get_size(&self) -> (r: &Size)
        ensures
            r == self@.size,
    {
        &self.size
    }

    /// Sets the viewport size; nothing else changes.
    pub fn resize(&mut self, size: Size)
        ensures
            final(self)@ == (EditAreaModel { size, ..old(self)@ }),
    {
        self.size = size;
    }

    /// Borrows the line buffer.
    pub fn get_lines(&self) -> (r: &Vec<Line>)
        ensures
            r@.map_values(|l: Line| l@) == self@.lines,
    {
        &self.lines
    }

    /// Mutably borrows the line buffer; the rest of the edit area is
    /// untouched, and the document becomes whatever the caller leaves
    /// in the borrow.
    pub fn get_mut_lines(&mut self) -> (r: &mut Vec<Line>)
        ensures
            *r == old(self).lines,
            final(self).lines == *final(r),
            final(self).size == old(self).size,
            final(self).is_modified == old(self).is_modified,
            final(self).caret == old(self).caret,
            final(self).scroll_offset == old(self).scroll_offset,
    {
        &mut self.lines
    }

    /// The number of lines in the document.
    pub fn get_lines_count(&self) -> (n: usize)
        ensures
            n == self@.lines.len(),
    {
        self.lines.len()
    }

    /// The cell count of line `line_idx`, or 0 when the index is out of
    /// range.
    pub fn get_line_cell_count(&self, line_idx: LineIdx) -> (n: usize)
        ensures
            n == self@.cell_count_at(line_idx as int),
    {
        if line_idx < self.lines.len() {
            self.lines[line_idx].get_cells_count()
        } else {
            0
        }
    }

    /// The columns occupied before `cell_idx` on line `line_idx`, or 0
    /// when the line index is out of range.
    pub fn get_line_cell_width_until(&self, line_idx: LineIdx, cell_idx: CellIdx) -> (w: usize)
        ensures
            w == self@.width_until_at(line_idx as int, cell_idx as int),
    {
        if line_idx < self.lines.len() {
            self.lines[line_idx].get_cell_width_until(cell_idx)
        } else {
            0
        }
    }

    /// Borrows the line the caret is on, if its index is in range.
    pub fn get_line_on_caret(&self) -> (r: Option<&Line>)
        ensures
            match r {
                Some(l) => (self.caret.line_idx as int) < self@.lines.len() && l@
                    == self@.lines[self.caret.line_idx as int],
                None => (self.caret.line_idx as int) >= self@.lines.len(),
            },
    {
        if self.caret.line_idx < self.lines.len() {
            Some(&self.lines[self.caret.line_idx])
        } else {
            None
        }
    }

    /// Sets the modified flag.
    pub fn set_is_modified(&mut self, is_modified: bool)
        ensures
            final(self)@ == (EditAreaModel { is_modified, ..old(self)@ }),
    {
        self.is_modified = is_modified;
    }

    /// Whether the document has unsaved edits.
    pub fn get_is_modified(&self) -> (r: bool)
        ensures
            r == self@.is_modified,
    {
        self.is_modified
    }

    /// The caret's document position.
    pub fn get_caret(&self) -> (r: &DocumentCoordinate)
        ensures
            r == self@.caret,
    {
        &self.caret
    }

    /// Sets the caret's document position, unchecked; the movement
    /// commands clamp before calling this.
    pub fn set_caret(&mut self, position: DocumentCoordinate)
        ensures
            final(self)@ == (EditAreaModel { caret: position, ..old(self)@ }),
    {
        self.caret = position;
    }

    /// The caret's position on the terminal grid: its document position
    /// shifted by the scroll offset, saturating at zero.
    pub fn caret_to_terminal(&self) -> (r: TerminalCoordinate)
        ensures
            r == self@.caret_terminal(),
    {
        let caret_col = self.get_line_cell_width_until(self.caret.line_idx, self.caret.cell_idx);
        TerminalCoordinate {
            row: self.caret.line_idx.saturating_sub(self.scroll_offset.row),
            col: caret_col.saturating_sub(self.scroll_offset.col),
        }
    }

    /// Removes and returns line `line_idx`; an out-of-range index
    /// leaves the document alone and returns an empty line.
    pub fn remove_line(&mut self, line_idx: LineIdx) -> (r: Line)
        ensures
            (line_idx as int) < old(self)@.lines.len() ==> {
                &&& r@ == old(self)@.lines[line_idx as int]
                &&& final(self)@ == (EditAreaModel {
                    lines: old(self)@.lines.remove(line_idx as int),
                    ..old(self)@
                })
            },
            (line_idx as int) >= old(self)@.lines.len() ==> {
                &&& r@ == Seq::<CellModel>::empty()
                &&& final(self)@ == old(self)@
            },
    {
        if line_idx >= self.lines.len() {
            return Line::default();
        }
        let r = self.lines.remove(line_idx);
        proof {
            assert(self@.lines =~= old(self)@.lines.remove(line_idx as int));
        }
        r
    }

    /// The scroll offset: the document-space position rendered at the
    /// grid origin.
    pub fn get_scroll_offset(&self) -> (r: &TerminalCoordinate)
        ensures
            r == self@.scroll_offset,
    {
        &self.scroll_offset
    }

    /// Mutably borrows the scroll offset; the rest of the edit area is
    /// untouched.
    pub fn get_mut_scroll_offset(&mut self) -> (r: &mut TerminalCoordinate)
        ensures
            *r == old(self).scroll_offset,
            final(self).scroll_offset == *final(r),
            final(self).size == old(self).size,
            final(self).lines == old(self).lines,
            final(self).is_modified == old(self).is_modified,
            final(self).caret == old(self).caret,
    {
        &mut self.scroll_offset
    }
}


/// Law (round trip, document level): loading raw rows and saving each
/// line again gives the rows back, plus one final empty line that
/// saves as empty text.  The two segmentation facts assumed of each
/// row are exactly what the segmentation boundary guarantees about
/// every call; rows whose clusters spell a placeholder glyph run are
/// the one excluded input.
pub proof fn lemma_document_round_trip(rows: Seq<Seq<char>>)
    requires
        forall|i: int| #![trigger rows[i]]
            0 <= i < rows.len() ==> graphemes_of(rows[i]).flatten() == rows[i],
        forall|i: int| #![trigger rows[i]]
            0 <= i < rows.len() ==> placeholder_free(
                graphemes_of(rows[i]),
            ),
    ensures
        loaded_lines(rows).len() == rows.len() + 1,
        forall|i: int| #![trigger loaded_lines(rows)[i]]
            0 <= i < rows.len() ==> line_saved_text(loaded_lines(rows)[i]) == rows[i],
        line_saved_text(loaded_lines(rows)[rows.len() as int])
            == Seq::<char>::empty(),
{
    assert forall|i: int| #![trigger loaded_lines(rows)[i]] 0 <= i < rows.len() implies
        line_saved_text(loaded_lines(rows)[i]) == rows[i] by {
        assert(loaded_lines(rows)[i] == cells_of_str(rows[i]));
        lemma_line_round_trip(rows[i], graphemes_of(rows[i]));
    }
    assert(loaded_lines(rows)[rows.len() as int] == Seq::<CellModel>::empty());
}

} // verus!

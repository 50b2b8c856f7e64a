//! Caret movement and the follow-caret scrolling algorithm.
//!
//! Every movement computes a target document coordinate, clamps it to
//! the nearest valid position, stores it, and then scrolls the viewport
//! so the caret stays visible.  Each step is given as a spec function
//! over `EditAreaModel`, and the executable commands are proved to
//! produce exactly those models.

use vstd::prelude::*;

use crate::coords::{cap_add, cap_sub, DocumentCoordinate, TerminalCoordinate};
use crate::edit_area::{EditArea, EditAreaModel};
use crate::key::{KeyCode, KeyEvent, KeyModifiers};

verus! {

/// The clamping rule every move and edit uses: the line index clamps
/// to `[0, lines.len() - 1]`, the cell index to `[0, cell_count]` of
/// the clamped line (one past the end is a valid caret position).
pub open spec fn clamp_coordinate(m: EditAreaModel, target: DocumentCoordinate) -> DocumentCoordinate {
    let line_idx: usize = if m.lines.len() == 0 {
        0
    } else if (target.line_idx as int) < m.lines.len() {
        target.line_idx
    } else {
        (m.lines.len() - 1) as usize
    };
    let cell_count = m.cell_count_at(line_idx as int);
    let cell_idx: usize = if (target.cell_idx as int) <= cell_count {
        target.cell_idx
    } else {
        cell_count as usize
    };
    DocumentCoordinate { line_idx, cell_idx }
}

/// Whether the vertical scroll-follow changes the offset: the caret's
/// row lies above the viewport, or strictly below its last visible row.
pub open spec fn scroll_row_moves(offset: nat, extent: nat, caret: nat) -> bool {
    caret < offset || caret > cap_sub(cap_add(offset, extent), 1)
}

/// The vertical offset after scroll-follow: up exactly to the caret,
/// or down so the caret lands on the last visible row, else unchanged.
pub open spec fn scroll_row_after(offset: nat, extent: nat, caret: nat) -> nat {
    if caret < offset {
        caret
    } else if caret > cap_sub(cap_add(offset, extent), 1) {
        cap_add(cap_sub(caret, extent), 1)
    } else {
        offset
    }
}

/// Whether the horizontal scroll-follow changes the offset.  The lower
/// comparison is not strict: a caret column on the viewport's last
/// column already gets a nudge, since the caret may sit one past the
/// last cell.
pub open spec fn scroll_col_moves(offset: nat, extent: nat, caret_col: nat) -> bool {
    caret_col < offset || caret_col >= cap_sub(cap_add(offset, extent), 1)
}

/// The horizontal offset after scroll-follow.
pub open spec fn scroll_col_after(offset: nat, extent: nat, caret_col: nat) -> nat {
    if caret_col < offset {
        caret_col
    } else if caret_col >= cap_sub(cap_add(offset, extent), 1) {
        cap_add(cap_sub(caret_col, extent), 1)
    } else {
        offset
    }
}

/// The scroll-follow algorithm, vertical and horizontal independently.
pub open spec fn spec_scroll_text(m: EditAreaModel) -> EditAreaModel {
    let caret_col = m.width_until_at(m.caret.line_idx as int, m.caret.cell_idx as int);
    EditAreaModel {
        scroll_offset: TerminalCoordinate {
            row: scroll_row_after(
                m.scroll_offset.row as nat,
                m.size.height as nat,
                m.caret.line_idx as nat,
            ) as usize,
            col: scroll_col_after(m.scroll_offset.col as nat, m.size.width as nat, caret_col) as usize,
        },
        ..m
    }
}

/// A clamped caret move followed by scroll-follow.
pub open spec fn spec_move_validly(m: EditAreaModel, target: DocumentCoordinate) -> EditAreaModel {
    spec_scroll_text(EditAreaModel { caret: clamp_coordinate(m, target), ..m })
}

/// Moving up: one line towards the start, same cell index.
pub open spec fn spec_caret_up(m: EditAreaModel) -> EditAreaModel {
    spec_move_validly(
        m,
        DocumentCoordinate {
            line_idx: cap_sub(m.caret.line_idx as nat, 1) as usize,
            cell_idx: m.caret.cell_idx,
        },
    )
}

/// Moving down: one line towards the end, same cell index.
pub open spec fn spec_caret_down(m: EditAreaModel) -> EditAreaModel {
    spec_move_validly(
        m,
        DocumentCoordinate {
            line_idx: cap_add(m.caret.line_idx as nat, 1) as usize,
            cell_idx: m.caret.cell_idx,
        },
    )
}

/// Moving to the start of the current line.
pub open spec fn spec_caret_home(m: EditAreaModel) -> EditAreaModel {
    spec_move_validly(m, DocumentCoordinate { line_idx: m.caret.line_idx, cell_idx: 0 })
}

/// Moving past the last cell of the current line.
pub open spec fn spec_caret_end(m: EditAreaModel) -> EditAreaModel {
    spec_move_validly(
        m,
        DocumentCoordinate {
            line_idx: m.caret.line_idx,
            cell_idx: m.cell_count_at(m.caret.line_idx as int) as usize,
        },
    )
}

/// Moving left: one cell back, or to the end of the previous line when
/// already at a line start, or nothing at the document start.
pub open spec fn spec_caret_left(m: EditAreaModel) -> EditAreaModel {
    if m.caret.cell_idx > 0 {
        spec_move_validly(
            m,
            DocumentCoordinate {
                line_idx: m.caret.line_idx,
                cell_idx: cap_sub(m.caret.cell_idx as nat, 1) as usize,
            },
        )
    } else if m.caret.line_idx > 0 {
        spec_caret_end(spec_caret_up(m))
    } else {
        m
    }
}

/// Moving right: one cell forward, or to the start of the next line
/// when already past the last cell, or nothing at the document end.
pub open spec fn spec_caret_right(m: EditAreaModel) -> EditAreaModel {
    let cell_count = m.cell_count_at(m.caret.line_idx as int);
    if (m.caret.cell_idx as nat) < cell_count {
        spec_move_validly(
            m,
            DocumentCoordinate {
                line_idx: m.caret.line_idx,
                cell_idx: cap_add(m.caret.cell_idx as nat, 1) as usize,
            },
        )
    } else if m.caret.cell_idx == cell_count && (m.caret.line_idx as nat) < cap_sub(
        m.lines.len(),
        1,
    ) {
        spec_caret_home(spec_caret_down(m))
    } else {
        m
    }
}

/// Moving up by one viewport height, same cell index.
pub open spec fn spec_caret_page_up(m: EditAreaModel) -> EditAreaModel {
    spec_move_validly(
        m,
        DocumentCoordinate {
            line_idx: cap_sub(m.caret.line_idx as nat, m.size.height as nat) as usize,
            cell_idx: m.caret.cell_idx,
        },
    )
}

/// Moving down by one viewport height, same cell index.
pub open spec fn spec_caret_page_down(m: EditAreaModel) -> EditAreaModel {
    spec_move_validly(
        m,
        DocumentCoordinate {
            line_idx: cap_add(m.caret.line_idx as nat, m.size.height as nat) as usize,
            cell_idx: m.caret.cell_idx,
        },
    )
}

/// Follow-caret scrolling of the document viewport.
pub struct TextScroll {}

impl TextScroll {
    /// Runs scroll-follow on both axes and reports whether the offset
    /// changed; the caller redraws the viewport only when it did.
    pub fn scroll_text(edit_area: &mut EditArea) -> (changed: bool)
        ensures
            final(edit_area)@ == spec_scroll_text(old(edit_area)@),
            changed == (scroll_row_moves(
                old(edit_area)@.scroll_offset.row as nat,
                old(edit_area)@.size.height as nat,
                old(edit_area)@.caret.line_idx as nat,
            ) || scroll_col_moves(
                old(edit_area)@.scroll_offset.col as nat,
                old(edit_area)@.size.width as nat,
                old(edit_area)@.width_until_at(
                    old(edit_area)@.caret.line_idx as int,
                    old(edit_area)@.caret.cell_idx as int,
                ),
            )),
    {
        let row_changed = Self::scroll_vertically(edit_area);
        let col_changed = Self::scroll_horizontally(edit_area);
        col_changed || row_changed
    }

    /// Vertical scroll-follow; reports whether the row offset moved.
    pub fn scroll_vertically(edit_area: &mut EditArea) -> (changed: bool)
        ensures
            final(edit_area)@ == (EditAreaModel {
                scroll_offset: TerminalCoordinate {
                    row: scroll_row_after(
                        old(edit_area)@.scroll_offset.row as nat,
                        old(edit_area)@.size.height as nat,
                        old(edit_area)@.caret.line_idx as nat,
                    ) as usize,
                    col: old(edit_area)@.scroll_offset.col,
                },
                ..old(edit_area)@
            }),
            changed == scroll_row_moves(
                old(edit_area)@.scroll_offset.row as nat,
                old(edit_area)@.size.height as nat,
                old(edit_area)@.caret.line_idx as nat,
            ),
    {
        let height = edit_area.size.height;
        let caret_line = edit_area.caret.line_idx;
        let start = edit_area.scroll_offset.row;
        let end = start.saturating_add(height).saturating_sub(1);

        if caret_line < start {
            edit_area.scroll_offset.row = caret_line;
            true
        } else if caret_line > end {
            edit_area.scroll_offset.row = caret_line.saturating_sub(height).saturating_add(1);
            true
        } else {
            false
        }
    }

    /// Horizontal scroll-follow; reports whether the column offset
    /// moved.
    pub fn scroll_horizontally(edit_area: &mut EditArea) -> (changed: bool)
        ensures
            final(edit_area)@ == (EditAreaModel {
                scroll_offset: TerminalCoordinate {
                    row: old(edit_area)@.scroll_offset.row,
                    col: scroll_col_after(
                        old(edit_area)@.scroll_offset.col as nat,
                        old(edit_area)@.size.width as nat,
                        old(edit_area)@.width_until_at(
                            old(edit_area)@.caret.line_idx as int,
                            old(edit_area)@.caret.cell_idx as int,
                        ),
                    ) as usize,
                },
                ..old(edit_area)@
            }),
            changed == scroll_col_moves(
                old(edit_area)@.scroll_offset.col as nat,
                old(edit_area)@.size.width as nat,
                old(edit_area)@.width_until_at(
                    old(edit_area)@.caret.line_idx as int,
                    old(edit_area)@.caret.cell_idx as int,
                ),
            ),
    {
        let width = edit_area.size.width;
        let caret_col = edit_area.get_line_cell_width_until(
            edit_area.caret.line_idx,
            edit_area.caret.cell_idx,
        );
        let start = edit_area.scroll_offset.col;
        let end = start.saturating_add(width).saturating_sub(1);

        if caret_col < start {
            edit_area.scroll_offset.col = caret_col;
            true
        } else if caret_col >= end {
            edit_area.scroll_offset.col = caret_col.saturating_sub(width).saturating_add(1);
            true
        } else {
            false
        }
    }
}

/// The movement commands of the text-editing mode.
#[derive(Clone, Copy, PartialEq, Eq, Structural, Debug)]
pub enum Move {
    Up,
    Down,
    Left,
    Right,
    Home,
    End,
    PageUp,
    PageDown,
}

/// Which movement command a key press parses to: the plain arrow,
/// Home/End and page keys, nothing else.
pub open spec fn spec_parse_move(key: KeyEvent) -> Option<Move> {
    if key.modifiers == KeyModifiers::Plain {
        match key.code {
            KeyCode::Up => Some(Move::Up),
            KeyCode::Down => Some(Move::Down),
            KeyCode::Left => Some(Move::Left),
            KeyCode::Right => Some(Move::Right),
            KeyCode::Home => Some(Move::Home),
            KeyCode::End => Some(Move::End),
            KeyCode::PageUp => Some(Move::PageUp),
            KeyCode::PageDown => Some(Move::PageDown),
            _ => None,
        }
    } else {
        None
    }
}

/// The edit area after a movement command runs.
pub open spec fn spec_apply_move(op: Move, m: EditAreaModel) -> EditAreaModel {
    match op {
        Move::Up => spec_caret_up(m),
        Move::Down => spec_caret_down(m),
        Move::Left => spec_caret_left(m),
        Move::Right => spec_caret_right(m),
        Move::Home => spec_caret_home(m),
        Move::End => spec_caret_end(m),
        Move::PageUp => spec_caret_page_up(m),
        Move::PageDown => spec_caret_page_down(m),
    }
}

impl Move {
    /// Parses a key press into a movement command; unrecognized keys
    /// parse to nothing, which the dispatcher drops silently.
    pub fn try_from_key(key: KeyEvent) -> (r: Option<Move>)
        ensures
            r == spec_parse_move(key),
    {
        if key.modifiers == KeyModifiers::Plain {
            match key.code {
                KeyCode::Up => Some(Move::Up),
                KeyCode::Down => Some(Move::Down),
                KeyCode::Left => Some(Move::Left),
                KeyCode::Right => Some(Move::Right),
                KeyCode::Home => Some(Move::Home),
                KeyCode::End => Some(Move::End),
                KeyCode::PageUp => Some(Move::PageUp),
                KeyCode::PageDown => Some(Move::PageDown),
                _ => None,
            }
        } else {
            None
        }
    }

    /// Clamps a target coordinate to the nearest valid caret position,
    /// stores it, and scrolls the viewport after it.
    pub fn move_caret_validly(edit_area: &mut EditArea, target: DocumentCoordinate)
        requires
            old(edit_area)@.lines_wf(),
        ensures
            final(edit_area)@ == spec_move_validly(old(edit_area)@, target),
            final(edit_area)@.wf(),
    {
        let lines_count = edit_area.get_lines_count();
        let valid_line_idx = if lines_count == 0 {
            0
        } else if target.line_idx < lines_count - 1 {
            target.line_idx
        } else {
            lines_count - 1
        };
        let cell_count = edit_area.get_line_cell_count(valid_line_idx);
        let valid_cell_idx = if target.cell_idx < cell_count {
            target.cell_idx
        } else {
            cell_count
        };

        edit_area.set_caret(
            DocumentCoordinate { line_idx: valid_line_idx, cell_idx: valid_cell_idx },
        );
        TextScroll::scroll_text(edit_area);
    }

    /// Moves the caret one line up.
    pub fn caret_up(edit_area: &mut EditArea)
        requires
            old(edit_area)@.lines_wf(),
        ensures
            final(edit_area)@ == spec_caret_up(old(edit_area)@),
            final(edit_area)@.wf(),
    {
        let target = DocumentCoordinate {
            line_idx: edit_area.caret.line_idx.saturating_sub(1),
            cell_idx: edit_area.caret.cell_idx,
        };
        Self::move_caret_validly(edit_area, target);
    }

    /// Moves the caret one line down.
    pub fn caret_down(edit_area: &mut EditArea)
        requires
            old(edit_area)@.lines_wf(),
        ensures
            final(edit_area)@ == spec_caret_down(old(edit_area)@),
            final(edit_area)@.wf(),
    {
        let target = DocumentCoordinate {
            line_idx: edit_area.caret.line_idx.saturating_add(1),
            cell_idx: edit_area.caret.cell_idx,
        };
        Self::move_caret_validly(edit_area, target);
    }

    /// Moves the caret one cell left, wrapping to the end of the
    /// previous line at a line start.
    pub fn caret_left(edit_area: &mut EditArea)
        requires
            old(edit_area)@.lines_wf(),
        ensures
            final(edit_area)@ == spec_caret_left(old(edit_area)@),
            final(edit_area)@.wf(),
    {
        let line_idx = edit_area.caret.line_idx;
        let cell_idx = edit_area.caret.cell_idx;

        if cell_idx > 0 {
            let target = DocumentCoordinate { line_idx, cell_idx: cell_idx - 1 };
            Self::move_caret_validly(edit_area, target);
        } else if line_idx > 0 {
            Self::caret_up(edit_area);
            Self::caret_end(edit_area);
        }
    }

    /// Moves the caret one cell right, wrapping to the start of the
    /// next line from past the last cell.
    pub fn caret_right(edit_area: &mut EditArea)
        requires
            old(edit_area)@.lines_wf(),
        ensures
            final(edit_area)@ == spec_caret_right(old(edit_area)@),
            old(edit_area)@.wf() ==> final(edit_area)@.wf(),
            final(edit_area)@.lines_wf(),
    {
        let line_idx = edit_area.caret.line_idx;
        let cell_idx = edit_area.caret.cell_idx;
        let cell_count = edit_area.get_line_cell_count(line_idx);
        let lines_count = edit_area.get_lines_count();

        if cell_idx < cell_count {
            let target = DocumentCoordinate {
                line_idx,
                cell_idx: cell_idx.saturating_add(1),
            };
            Self::move_caret_validly(edit_area, target);
        } else if cell_idx == cell_count && line_idx < lines_count.saturating_sub(1) {
            Self::caret_down(edit_area);
            Self::caret_home(edit_area);
        }
    }

    /// Moves the caret to the start of its line.
    pub fn caret_home(edit_area: &mut EditArea)
        requires
            old(edit_area)@.lines_wf(),
        ensures
            final(edit_area)@ == spec_caret_home(old(edit_area)@),
            final(edit_area)@.wf(),
    {
        let target = DocumentCoordinate { line_idx: edit_area.caret.line_idx, cell_idx: 0 };
        Self::move_caret_validly(edit_area, target);
    }

    /// Moves the caret one past the last cell of its line.
    pub fn caret_end(edit_area: &mut EditArea)
        requires
            old(edit_area)@.lines_wf(),
        ensures
            final(edit_area)@ == spec_caret_end(old(edit_area)@),
            final(edit_area)@.wf(),
    {
        let line_idx = edit_area.caret.line_idx;
        let new_cell_idx = edit_area.get_line_cell_count(line_idx);
        let target = DocumentCoordinate { line_idx, cell_idx: new_cell_idx };
        Self::move_caret_validly(edit_area, target);
    }

    /// Moves the caret one viewport height up.
    pub fn caret_page_up(edit_area: &mut EditArea)
        requires
            old(edit_area)@.lines_wf(),
        ensures
            final(edit_area)@ == spec_caret_page_up(old(edit_area)@),
            final(edit_area)@.wf(),
    {
        let target = DocumentCoordinate {
            line_idx: edit_area.caret.line_idx.saturating_sub(edit_area.size.height),
            cell_idx: edit_area.caret.cell_idx,
        };
        Self::move_caret_validly(edit_area, target);
    }

    /// Moves the caret one viewport height down.
    pub fn caret_page_down(edit_area: &mut EditArea)
        requires
            old(edit_area)@.lines_wf(),
        ensures
            final(edit_area)@ == spec_caret_page_down(old(edit_area)@),
            final(edit_area)@.wf(),
    {
        let target = DocumentCoordinate {
            line_idx: edit_area.caret.line_idx.saturating_add(edit_area.size.height),
            cell_idx: edit_area.caret.cell_idx,
        };
        Self::move_caret_validly(edit_area, target);
    }

    /// Runs this movement command on the edit area.
    pub fn execute(self, edit_area: &mut EditArea)
        requires
            old(edit_area)@.lines_wf(),
        ensures
            final(edit_area)@ == spec_apply_move(self, old(edit_area)@),
            old(edit_area)@.wf() ==> final(edit_area)@.wf(),
            final(edit_area)@.lines_wf(),
    {
        match self {
            Move::Up => Self::caret_up(edit_area),
            Move::Down => Self::caret_down(edit_area),
            Move::Left => Self::caret_left(edit_area),
            Move::Right => Self::caret_right(edit_area),
            Move::Home => Self::caret_home(edit_area),
            Move::End => Self::caret_end(edit_area),
            Move::PageUp => Self::caret_page_up(edit_area),
            Move::PageDown => Self::caret_page_down(edit_area),
        }
    }
}

/// Law (scroll containment): when the viewport has positive extent,
/// running scroll-follow leaves the caret's terminal row in
/// `[0, height)` and its terminal column in `[0, width)`.
pub proof fn lemma_scroll_containment(m: EditAreaModel)
    requires
        m.size.height >= 1,
        m.size.width >= 1,
    ensures
        (spec_scroll_text(m).caret_terminal().row as int) < m.size.height,
        (spec_scroll_text(m).caret_terminal().col as int) < m.size.width,
{
    let caret_row = m.caret.line_idx as nat;
    let caret_col = m.width_until_at(m.caret.line_idx as int, m.caret.cell_idx as int);
    let row_after = scroll_row_after(m.scroll_offset.row as nat, m.size.height as nat, caret_row);
    let col_after = scroll_col_after(m.scroll_offset.col as nat, m.size.width as nat, caret_col);
    assert(row_after <= caret_row && caret_row - row_after < m.size.height);
    assert(caret_col - col_after < m.size.width);
}

/// Law (scroll containment), stated for a whole clamped move: the
/// caret's terminal position lies inside the viewport after any caret
/// move through `move_caret_validly`.
pub proof fn lemma_move_keeps_caret_visible(m: EditAreaModel, target: DocumentCoordinate)
    requires
        m.size.height >= 1,
        m.size.width >= 1,
    ensures
        (spec_move_validly(m, target).caret_terminal().row as int) < m.size.height,
        (spec_move_validly(m, target).caret_terminal().col as int) < m.size.width,
{
    lemma_scroll_containment(EditAreaModel { caret: clamp_coordinate(m, target), ..m });
}


/// Law (clamping invariant, clamping): the clamped coordinate is a
/// valid caret position of any non-empty buffer.
pub proof fn lemma_clamp_coordinate_valid(m: EditAreaModel, target: DocumentCoordinate)
    requires
        m.lines.len() >= 1,
    ensures
        (clamp_coordinate(m, target).line_idx as int) < m.lines.len(),
        (clamp_coordinate(m, target).cell_idx as int) <= m.lines[clamp_coordinate(
            m,
            target,
        ).line_idx as int].len(),
{
}

/// Law (clamping invariant, movement): a clamped move with
/// scroll-follow turns any well-formed buffer into a fully valid
/// session state, whatever the target was.
pub proof fn lemma_move_validly_preserves_wf(m: EditAreaModel, target: DocumentCoordinate)
    requires
        m.lines_wf(),
    ensures
        spec_move_validly(m, target).wf(),
        spec_move_validly(m, target).lines == m.lines,
{
    lemma_clamp_coordinate_valid(m, target);
}

/// Law (clamping invariant, movement commands): every movement
/// command preserves the document invariant.
pub proof fn lemma_apply_move_preserves_wf(op: Move, m: EditAreaModel)
    requires
        m.wf(),
    ensures
        spec_apply_move(op, m).wf(),
        spec_apply_move(op, m).lines == m.lines,
{
    match op {
        Move::Up => {
            lemma_move_validly_preserves_wf(
                m,
                DocumentCoordinate {
                    line_idx: cap_sub(m.caret.line_idx as nat, 1) as usize,
                    cell_idx: m.caret.cell_idx,
                },
            );
        },
        Move::Down => {
            lemma_move_validly_preserves_wf(
                m,
                DocumentCoordinate {
                    line_idx: cap_add(m.caret.line_idx as nat, 1) as usize,
                    cell_idx: m.caret.cell_idx,
                },
            );
        },
        Move::Home => {
            lemma_move_validly_preserves_wf(
                m,
                DocumentCoordinate { line_idx: m.caret.line_idx, cell_idx: 0 },
            );
        },
        Move::End => {
            lemma_move_validly_preserves_wf(
                m,
                DocumentCoordinate {
                    line_idx: m.caret.line_idx,
                    cell_idx: m.cell_count_at(m.caret.line_idx as int) as usize,
                },
            );
        },
        Move::Left => {
            if m.caret.cell_idx > 0 {
                lemma_move_validly_preserves_wf(
                    m,
                    DocumentCoordinate {
                        line_idx: m.caret.line_idx,
                        cell_idx: cap_sub(m.caret.cell_idx as nat, 1) as usize,
                    },
                );
            } else if m.caret.line_idx > 0 {
                let m1 = spec_caret_up(m);
                lemma_move_validly_preserves_wf(
                    m,
                    DocumentCoordinate {
                        line_idx: cap_sub(m.caret.line_idx as nat, 1) as usize,
                        cell_idx: m.caret.cell_idx,
                    },
                );
                lemma_move_validly_preserves_wf(
                    m1,
                    DocumentCoordinate {
                        line_idx: m1.caret.line_idx,
                        cell_idx: m1.cell_count_at(m1.caret.line_idx as int) as usize,
                    },
                );
            }
        },
        Move::Right => {
            let cell_count = m.cell_count_at(m.caret.line_idx as int);
            if (m.caret.cell_idx as nat) < cell_count {
                lemma_move_validly_preserves_wf(
                    m,
                    DocumentCoordinate {
                        line_idx: m.caret.line_idx,
                        cell_idx: cap_add(m.caret.cell_idx as nat, 1) as usize,
                    },
                );
            } else if m.caret.cell_idx == cell_count && (m.caret.line_idx as nat) < cap_sub(
                m.lines.len(),
                1,
            ) {
                let m1 = spec_caret_down(m);
                lemma_move_validly_preserves_wf(
                    m,
                    DocumentCoordinate {
                        line_idx: cap_add(m.caret.line_idx as nat, 1) as usize,
                        cell_idx: m.caret.cell_idx,
                    },
                );
                lemma_move_validly_preserves_wf(
                    m1,
                    DocumentCoordinate { line_idx: m1.caret.line_idx, cell_idx: 0 },
                );
            }
        },
        Move::PageUp => {
            lemma_move_validly_preserves_wf(
                m,
                DocumentCoordinate {
                    line_idx: cap_sub(m.caret.line_idx as nat, m.size.height as nat) as usize,
                    cell_idx: m.caret.cell_idx,
                },
            );
        },
        Move::PageDown => {
            lemma_move_validly_preserves_wf(
                m,
                DocumentCoordinate {
                    line_idx: cap_add(m.caret.line_idx as nat, m.size.height as nat) as usize,
                    cell_idx: m.caret.cell_idx,
                },
            );
        },
    }
}

} // verus!

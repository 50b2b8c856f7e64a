//! The text-editing commands: Enter, printable insertion, Delete and
//! Backspace, as structural edits on the edit area.
//!
//! Every command re-establishes the caret invariant and marks the
//! document modified exactly when it changed it.

use vstd::prelude::*;

use crate::cell::{cell_model_of_grapheme, lemma_cell_model_of_grapheme_wf, Cell, CellModel};
use crate::coords::{cap_sub, DocumentCoordinate};
use crate::edit_area::{EditArea, EditAreaModel};
use crate::key::{KeyCode, KeyEvent, KeyModifiers};
use crate::line::{lemma_line_wf_concat, lemma_line_wf_insert, lemma_line_wf_remove};
use crate::line::{lemma_line_wf_subrange, line_wf, Line};
use crate::move_cmd::{spec_caret_down, spec_caret_end, spec_caret_home, spec_caret_left};
use crate::move_cmd::{lemma_apply_move_preserves_wf, lemma_move_validly_preserves_wf};
use crate::move_cmd::{spec_caret_right, spec_caret_up, Move};

verus! {

/// The edit area after a cell is inserted at the caret: the caret's
/// line gains the cell at the caret's cell index, the document is
/// modified, and the caret moves one cell right (with scroll-follow).
pub open spec fn spec_insert_cell(m: EditAreaModel, cm: CellModel) -> EditAreaModel {
    let li = m.caret.line_idx as int;
    let ci = m.caret.cell_idx as int;
    let m1 = EditAreaModel {
        lines: m.lines.update(li, m.lines[li].insert(ci, cm)),
        is_modified: true,
        ..m
    };
    spec_caret_right(m1)
}

/// The edit area after Enter: the caret's line is split at the caret,
/// the head replaces it, the tail becomes the next line, the document
/// is modified, and the caret moves to the start of that next line.
pub open spec fn spec_enter(m: EditAreaModel) -> EditAreaModel {
    let li = m.caret.line_idx as int;
    let ci = m.caret.cell_idx as int;
    let line = m.lines[li];
    let head = line.subrange(0, ci);
    let tail = line.subrange(ci, line.len() as int);
    let m1 = EditAreaModel {
        lines: m.lines.update(li, head).insert(li + 1, tail),
        is_modified: true,
        ..m
    };
    spec_caret_home(spec_caret_down(m1))
}

/// The edit area after Delete: the cell under the caret is removed
/// (caret unmoved); past the last cell the next line is joined onto
/// the caret's line; past the last cell of the last line nothing
/// happens.
pub open spec fn spec_delete(m: EditAreaModel) -> EditAreaModel {
    let li = m.caret.line_idx as int;
    let ci = m.caret.cell_idx as int;
    let count = m.cell_count_at(li);
    if ci < count {
        EditAreaModel {
            lines: m.lines.update(li, m.lines[li].remove(ci)),
            is_modified: true,
            ..m
        }
    } else if li + 1 < m.lines.len() {
        EditAreaModel {
            lines: m.lines.remove(li + 1).update(li, m.lines[li] + m.lines[li + 1]),
            is_modified: true,
            ..m
        }
    } else {
        m
    }
}

/// The edit area after Backspace: nothing at the document start; at a
/// line start the caret moves to the end of the previous line and the
/// two lines join; otherwise the cell before the caret is removed and
/// the caret moves one cell left.
pub open spec fn spec_backspace(m: EditAreaModel) -> EditAreaModel {
    let li = m.caret.line_idx as int;
    let ci = m.caret.cell_idx as int;
    if li == 0 && ci == 0 {
        m
    } else if ci == 0 {
        spec_delete(spec_caret_end(spec_caret_up(m)))
    } else {
        let m1 = EditAreaModel {
            lines: m.lines.update(li, m.lines[li].remove(ci - 1)),
            is_modified: true,
            ..m
        };
        spec_caret_left(m1)
    }
}

/// The text-editing commands of the editing mode.
pub enum Edit {
    Enter,
    Insert(char),
    Delete,
    Backspace,
}

/// Which editing command a key press parses to: printable characters
/// (plain or shifted), Tab as an inserted tab character, and the three
/// structural keys.
pub open spec fn spec_parse_edit(key: KeyEvent) -> Option<Edit> {
    match (key.code, key.modifiers) {
        (KeyCode::Char(c), KeyModifiers::Plain) => Some(Edit::Insert(c)),
        (KeyCode::Char(c), KeyModifiers::Shift) => Some(Edit::Insert(c)),
        (KeyCode::Tab, KeyModifiers::Plain) => Some(Edit::Insert('\t')),
        (KeyCode::Enter, KeyModifiers::Plain) => Some(Edit::Enter),
        (KeyCode::Backspace, KeyModifiers::Plain) => Some(Edit::Backspace),
        (KeyCode::Delete, KeyModifiers::Plain) => Some(Edit::Delete),
        _ => None,
    }
}

/// The edit area after an editing command runs.
pub open spec fn spec_apply_edit(op: Edit, m: EditAreaModel) -> EditAreaModel {
    match op {
        Edit::Enter => spec_enter(m),
        Edit::Insert(c) => spec_insert_cell(m, cell_model_of_grapheme(seq![c])),
        Edit::Delete => spec_delete(m),
        Edit::Backspace => spec_backspace(m),
    }
}

impl Edit {
    /// Parses a key press into an editing command; unrecognized keys
    /// parse to nothing.
    pub fn try_from_key(key: KeyEvent) -> (r: Option<Edit>)
        ensures
            r == spec_parse_edit(key),
    {
        match (key.code, key.modifiers) {
            (KeyCode::Char(c), KeyModifiers::Plain) => Some(Edit::Insert(c)),
            (KeyCode::Char(c), KeyModifiers::Shift) => Some(Edit::Insert(c)),
            (KeyCode::Tab, KeyModifiers::Plain) => Some(Edit::Insert('\t')),
            (KeyCode::Enter, KeyModifiers::Plain) => Some(Edit::Enter),
            (KeyCode::Backspace, KeyModifiers::Plain) => Some(Edit::Backspace),
            (KeyCode::Delete, KeyModifiers::Plain) => Some(Edit::Delete),
            _ => None,
        }
    }

    /// Splits the caret's line at the caret; the head replaces it, the
    /// tail becomes the next line, and the caret moves to the tail's
    /// start.
    pub fn enter(edit_area: &mut EditArea)
        requires
            old(edit_area)@.wf(),
        ensures
            final(edit_area)@ == spec_enter(old(edit_area)@),
            final(edit_area)@.wf(),
    {
        let li = edit_area.caret.line_idx;
        let ci = edit_area.caret.cell_idx;
        let lines_count = edit_area.lines.len();

        let line = edit_area.lines.remove(li);
        let (head, tail) = line.split(ci);
        edit_area.lines.insert(li, head);
        edit_area.lines.insert(li.saturating_add(1), tail);
        edit_area.is_modified = true;
        proof {
            let m = old(edit_area)@;
            let lii = li as int;
            let cii = ci as int;
            let head_m = m.lines[lii].subrange(0, cii);
            let tail_m = m.lines[lii].subrange(cii, m.lines[lii].len() as int);
            let new_lines = m.lines.update(lii, head_m).insert(lii + 1, tail_m);
            assert(head@ == head_m);
            assert(tail@ == tail_m);
            assert(edit_area.lines@.len() == m.lines.len() + 1);
            assert(edit_area@.lines.len() == new_lines.len());
            assert forall|k: int| 0 <= k < new_lines.len() implies edit_area@.lines[k]
                =~= new_lines[k] by {
                if k < lii {
                    assert(edit_area.lines@[k] == old(edit_area).lines@[k]);
                } else if k == lii {
                    assert(edit_area.lines@[k] == head);
                } else if k == lii + 1 {
                    assert(edit_area.lines@[k] == tail);
                } else {
                    assert(edit_area.lines@[k] == old(edit_area).lines@[k - 1]);
                }
            }
            assert(edit_area@.lines =~~= new_lines);
            lemma_line_wf_subrange(m.lines[lii], 0, cii);
            lemma_line_wf_subrange(m.lines[lii], cii, m.lines[lii].len() as int);
            assert forall|k: int| 0 <= k < new_lines.len() implies line_wf(
                #[trigger] new_lines[k],
            ) by {
                if k < lii {
                    assert(new_lines[k] == m.lines[k]);
                } else if k == lii + 1 {
                    assert(new_lines[k] == tail_m);
                } else if k > lii + 1 {
                    assert(new_lines[k] == m.lines[k - 1]);
                }
            }
            assert(edit_area@ == EditAreaModel {
                lines: new_lines,
                is_modified: true,
                ..m
            });
        }
        Move::caret_down(edit_area);
        Move::caret_home(edit_area);
    }

    /// Inserts a cell at the caret and moves the caret right over it.
    pub fn insert(cell: Cell, edit_area: &mut EditArea)
        requires
            old(edit_area)@.wf(),
            cell@.wf(),
        ensures
            final(edit_area)@ == spec_insert_cell(old(edit_area)@, cell@),
            final(edit_area)@.wf(),
    {
        let li = edit_area.caret.line_idx;
        let ci = edit_area.caret.cell_idx;

        let mut line = edit_area.lines.remove(li);
        line.insert_cell(cell, ci);
        edit_area.lines.insert(li, line);
        edit_area.is_modified = true;
        proof {
            let m = old(edit_area)@;
            let lii = li as int;
            let new_lines = m.lines.update(lii, m.lines[lii].insert(ci as int, cell@));
            assert(edit_area@.lines =~~= new_lines);
            lemma_line_wf_insert(m.lines[lii], ci as int, cell@);
            assert forall|k: int| 0 <= k < new_lines.len() implies line_wf(
                #[trigger] new_lines[k],
            ) by {
                if k != lii {
                    assert(new_lines[k] == m.lines[k]);
                }
            }
            assert(edit_area@ == EditAreaModel { lines: new_lines, is_modified: true, ..m });
            assert(edit_area@.wf());
        }
        Move::caret_right(edit_area);
    }

    /// Removes the cell under the caret, or joins the next line onto
    /// the caret's line when the caret is past the last cell; a caret
    /// past the last cell of the last line does nothing.
    pub fn delete(edit_area: &mut EditArea)
        requires
            old(edit_area)@.wf(),
        ensures
            final(edit_area)@ == spec_delete(old(edit_area)@),
            final(edit_area)@.wf(),
    {
        let li = edit_area.caret.line_idx;
        let ci = edit_area.caret.cell_idx;
        let count = edit_area.get_line_cell_count(li);
        let lines_count = edit_area.get_lines_count();

        if ci < count {
            let mut line = edit_area.lines.remove(li);
            line.delete_cell(ci);
            edit_area.lines.insert(li, line);
            edit_area.is_modified = true;
            proof {
                let m = old(edit_area)@;
                let lii = li as int;
                let new_lines = m.lines.update(lii, m.lines[lii].remove(ci as int));
                assert(edit_area@.lines =~~= new_lines);
                lemma_line_wf_remove(m.lines[lii], ci as int);
                assert forall|k: int| 0 <= k < new_lines.len() implies line_wf(
                    #[trigger] new_lines[k],
                ) by {
                    if k != lii {
                        assert(new_lines[k] == m.lines[k]);
                    }
                }
                assert(edit_area@ == EditAreaModel { lines: new_lines, is_modified: true, ..m });
            }
        } else if li.saturating_add(1) < lines_count {
            let next = edit_area.remove_line(li.saturating_add(1));
            proof {
                assert(edit_area@.lines == old(edit_area)@.lines.remove(li as int + 1));
                assert((li as int) < edit_area.lines@.len());
            }
            let ghost mid_vec: Seq<Line> = edit_area.lines@;
            let ghost mid_model: EditAreaModel = edit_area@;
            let mut line = edit_area.lines.remove(li);
            line.merge(next);
            edit_area.lines.insert(li, line);
            edit_area.is_modified = true;
            proof {
                let m = old(edit_area)@;
                let lii = li as int;
                let new_lines = m.lines.remove(lii + 1).update(lii, m.lines[lii] + m.lines[lii + 1]);
                assert(next@ == m.lines[lii + 1]);
                assert(mid_model.lines == m.lines.remove(lii + 1));
                assert(edit_area@.lines.len() == new_lines.len());
                assert forall|k: int| 0 <= k < new_lines.len() implies edit_area@.lines[k]
                    == new_lines[k] by {
                    if k == lii {
                        assert(edit_area.lines@[k] == line);
                        assert(edit_area@.lines[k] == line@);
                        assert(mid_model.lines[lii] == mid_vec[lii]@);
                        assert(line@ == m.lines[lii] + m.lines[lii + 1]);
                        assert(new_lines[k] == m.lines[lii] + m.lines[lii + 1]);
                    } else {
                        assert(edit_area.lines@[k] == mid_vec[k]);
                        assert(edit_area@.lines[k] == mid_vec[k]@);
                        assert(mid_model.lines[k] == mid_vec[k]@);
                        assert(new_lines[k] == mid_model.lines[k]);
                    }
                }
                assert(edit_area@.lines =~~= new_lines);
                lemma_line_wf_concat(m.lines[lii], m.lines[lii + 1]);
                assert forall|k: int| 0 <= k < new_lines.len() implies line_wf(
                    #[trigger] new_lines[k],
                ) by {
                    if k < lii {
                        assert(new_lines[k] == m.lines[k]);
                    } else if k > lii {
                        assert(new_lines[k] == m.lines[k + 1]);
                    }
                }
                assert(edit_area@ == EditAreaModel { lines: new_lines, is_modified: true, ..m });
            }
        }
    }

    /// Removes the cell before the caret and moves the caret left, or
    /// joins the caret's line onto the previous one at a line start; a
    /// caret at the document start does nothing.
    pub fn backspace(edit_area: &mut EditArea)
        requires
            old(edit_area)@.wf(),
        ensures
            final(edit_area)@ == spec_backspace(old(edit_area)@),
            final(edit_area)@.wf(),
    {
        let li = edit_area.caret.line_idx;
        let ci = edit_area.caret.cell_idx;

        if li == 0 && ci == 0 {
            return ;
        }
        if ci == 0 {
            Move::caret_up(edit_area);
            Move::caret_end(edit_area);
            Self::delete(edit_area);
        } else {
            let mut line = edit_area.lines.remove(li);
            line.delete_cell(ci - 1);
            edit_area.lines.insert(li, line);
            edit_area.is_modified = true;
            proof {
                let m = old(edit_area)@;
                let lii = li as int;
                let new_lines = m.lines.update(lii, m.lines[lii].remove(ci as int - 1));
                assert(edit_area@.lines =~~= new_lines);
                lemma_line_wf_remove(m.lines[lii], ci as int - 1);
                assert forall|k: int| 0 <= k < new_lines.len() implies line_wf(
                    #[trigger] new_lines[k],
                ) by {
                    if k != lii {
                        assert(new_lines[k] == m.lines[k]);
                    }
                }
                assert(edit_area@ == EditAreaModel { lines: new_lines, is_modified: true, ..m });
            }
            Move::caret_left(edit_area);
        }
    }

    /// Runs this editing command on the edit area.
    pub fn execute(self, edit_area: &mut EditArea)
        requires
            old(edit_area)@.wf(),
        ensures
            final(edit_area)@ == spec_apply_edit(self, old(edit_area)@),
            final(edit_area)@.wf(),
    {
        match self {
            Edit::Enter => Self::enter(edit_area),
            Edit::Insert(c) => {
                let cell = Cell::char_to_cell(c);
                Self::insert(cell, edit_area);
            },
            Edit::Delete => Self::delete(edit_area),
            Edit::Backspace => Self::backspace(edit_area),
        }
    }
}


/// Law (clamping invariant, Delete): Delete preserves the document
/// invariant.
pub proof fn lemma_delete_preserves_wf(m: EditAreaModel)
    requires
        m.wf(),
    ensures
        spec_delete(m).wf(),
{
    let li = m.caret.line_idx as int;
    let ci = m.caret.cell_idx as int;
    let count = m.cell_count_at(li);
    if ci < count {
        let new_lines = m.lines.update(li, m.lines[li].remove(ci));
        lemma_line_wf_remove(m.lines[li], ci);
        assert forall|k: int| 0 <= k < new_lines.len() implies line_wf(#[trigger] new_lines[k]) by {
            if k != li {
                assert(new_lines[k] == m.lines[k]);
            }
        }
    } else if li + 1 < m.lines.len() {
        let new_lines = m.lines.remove(li + 1).update(li, m.lines[li] + m.lines[li + 1]);
        lemma_line_wf_concat(m.lines[li], m.lines[li + 1]);
        assert forall|k: int| 0 <= k < new_lines.len() implies line_wf(#[trigger] new_lines[k]) by {
            if k < li {
                assert(new_lines[k] == m.lines[k]);
            } else if k > li {
                assert(new_lines[k] == m.lines[k + 1]);
            }
        }
    }
}

/// Law (clamping invariant, edit commands): every editing command
/// preserves the document invariant.
pub proof fn lemma_apply_edit_preserves_wf(op: Edit, m: EditAreaModel)
    requires
        m.wf(),
    ensures
        spec_apply_edit(op, m).wf(),
{
    let li = m.caret.line_idx as int;
    let ci = m.caret.cell_idx as int;
    match op {
        Edit::Enter => {
            let head = m.lines[li].subrange(0, ci);
            let tail = m.lines[li].subrange(ci, m.lines[li].len() as int);
            let new_lines = m.lines.update(li, head).insert(li + 1, tail);
            lemma_line_wf_subrange(m.lines[li], 0, ci);
            lemma_line_wf_subrange(m.lines[li], ci, m.lines[li].len() as int);
            assert forall|k: int| 0 <= k < new_lines.len() implies line_wf(
                #[trigger] new_lines[k],
            ) by {
                if k < li {
                    assert(new_lines[k] == m.lines[k]);
                } else if k == li + 1 {
                    assert(new_lines[k] == tail);
                } else if k > li + 1 {
                    assert(new_lines[k] == m.lines[k - 1]);
                }
            }
            let m1 = EditAreaModel { lines: new_lines, is_modified: true, ..m };
            lemma_apply_move_preserves_wf(Move::Down, m1);
            lemma_apply_move_preserves_wf(Move::Home, spec_caret_down(m1));
        },
        Edit::Insert(c) => {
            let cm = cell_model_of_grapheme(seq![c]);
            lemma_cell_model_of_grapheme_wf(seq![c]);
            let new_lines = m.lines.update(li, m.lines[li].insert(ci, cm));
            lemma_line_wf_insert(m.lines[li], ci, cm);
            assert forall|k: int| 0 <= k < new_lines.len() implies line_wf(
                #[trigger] new_lines[k],
            ) by {
                if k != li {
                    assert(new_lines[k] == m.lines[k]);
                }
            }
            let m1 = EditAreaModel { lines: new_lines, is_modified: true, ..m };
            lemma_apply_move_preserves_wf(Move::Right, m1);
        },
        Edit::Delete => {
            lemma_delete_preserves_wf(m);
        },
        Edit::Backspace => {
            if li == 0 && ci == 0 {
            } else if ci == 0 {
                lemma_apply_move_preserves_wf(Move::Up, m);
                lemma_apply_move_preserves_wf(Move::End, spec_caret_up(m));
                lemma_delete_preserves_wf(spec_caret_end(spec_caret_up(m)));
            } else {
                let new_lines = m.lines.update(li, m.lines[li].remove(ci - 1));
                lemma_line_wf_remove(m.lines[li], ci - 1);
                assert forall|k: int| 0 <= k < new_lines.len() implies line_wf(
                    #[trigger] new_lines[k],
                ) by {
                    if k != li {
                        assert(new_lines[k] == m.lines[k]);
                    }
                }
                let m1 = EditAreaModel { lines: new_lines, is_modified: true, ..m };
                lemma_move_validly_preserves_wf(
                    m1,
                    DocumentCoordinate {
                        line_idx: m1.caret.line_idx,
                        cell_idx: cap_sub(m1.caret.cell_idx as nat, 1) as usize,
                    },
                );
            }
        },
    }
}

} // verus!

//! A `Cell` is one renderable grapheme cluster together with the number
//! of terminal columns it occupies.
//!
//! Two canonicalizations are applied when text enters the editor: a
//! literal space is stored as the visible placeholder glyph (U+2423,
//! width 1) and a tab as four of those placeholders (width 4).  Saving
//! reverses them, so persisted text keeps the original characters.

use vstd::prelude::*;
use vstd::string::StringExecFns;

use crate::unicode::{display_width_of, graphemes_of, measure_width};
use crate::unicode::{char_to_string, split_graphemes};

verus! {

/// The mathematical content of a `Cell`: its character sequence and its
/// display width.
pub ghost struct CellModel {
    pub content: Seq<char>,
    pub width: nat,
}

impl CellModel {
    /// A cell is well formed when its stored width is the one a
    /// terminal will use for its content: 1 for the space placeholder,
    /// 4 for the tab placeholder, and the measured display width
    /// otherwise.
    pub open spec fn wf(self) -> bool {
        ||| (self.content == space_placeholder() && self.width == 1)
        ||| (self.content == tab_placeholder() && self.width == 4)
        ||| self.width == display_width_of(self.content)
    }
}

/// The placeholder glyph that stands for a literal space (U+2423).
pub open spec fn space_placeholder() -> Seq<char> {
    seq!['\u{2423}']
}

/// The placeholder run that stands for a tab: four space placeholders.
pub open spec fn tab_placeholder() -> Seq<char> {
    seq!['\u{2423}', '\u{2423}', '\u{2423}', '\u{2423}']
}

/// The cell a single grapheme cluster is stored as: spaces and tabs are
/// canonicalized to placeholders of fixed width, everything else keeps
/// its text and its measured display width.
pub open spec fn cell_model_of_grapheme(g: Seq<char>) -> CellModel {
    if g == seq![' '] {
        CellModel { content: space_placeholder(), width: 1 }
    } else if g == seq!['\t'] {
        CellModel { content: tab_placeholder(), width: 4 }
    } else {
        CellModel { content: g, width: display_width_of(g) }
    }
}

/// The cells a whole string is stored as: one per grapheme cluster.
pub open spec fn cells_of_str(s: Seq<char>) -> Seq<CellModel> {
    graphemes_of(s).map_values(|g: Seq<char>| cell_model_of_grapheme(g))
}

/// Canonicalizing any grapheme cluster yields a well-formed cell.
pub proof fn lemma_cell_model_of_grapheme_wf(g: Seq<char>)
    ensures
        cell_model_of_grapheme(g).wf(),
{
}

/// The text a cell contributes to a saved document: placeholders turn
/// back into the space or tab they stand for.
pub open spec fn saved_form(m: CellModel) -> Seq<char> {
    if m.content == space_placeholder() {
        seq![' ']
    } else if m.content == tab_placeholder() {
        seq!['\t']
    } else {
        m.content
    }
}

/// One grapheme cluster as rendered on the terminal, plus its width in
/// columns.  Immutable once constructed; edits replace whole cells.
pub struct Cell {
    pub content: String,
    pub cell_width: usize,
}

impl View for Cell {
    type V = CellModel;

    open spec fn view(&self) -> CellModel {
        CellModel { content: self.content@, width: self.cell_width as nat }
    }
}

impl Clone for Cell {
    fn clone(&self) -> (r: Self)
        ensures
            r@ == self@,
    {
        Cell { content: self.content.clone(), cell_width: self.cell_width }
    }
}

impl Cell {
    /// The stored width matches the content; see `CellModel::wf`.
    pub open spec fn wf(self) -> bool {
        self@.wf()
    }

    /// The rendered text of this cell.
    pub fn to_string(&self) -> (r: &String)
        ensures
            r@ == self@.content,
    {
        &self.content
    }

    /// The number of terminal columns this cell occupies.
    pub fn cell_width(&self) -> (r: usize)
        ensures
            r == self@.width,
    {
        self.cell_width
    }

    /// The number of terminal columns this cell occupies.
    pub fn get_cell_width(&self) -> (r: usize)
        ensures
            r == self@.width,
    {
        self.cell_width
    }

    /// The text this cell contributes to a saved document: the
    /// placeholder canonicalization reversed.
    pub fn to_grapheme(&self) -> (r: &str)
        ensures
            r@ == saved_form(self@),
    {
        proof {
            reveal_strlit(" ");
            reveal_strlit("\t");
            reveal_strlit("\u{2423}");
            reveal_strlit("\u{2423}\u{2423}\u{2423}\u{2423}");
            assert(" "@ =~= seq![' ']);
            assert("\t"@ =~= seq!['\t']);
            assert("\u{2423}"@ =~= space_placeholder());
            assert("\u{2423}\u{2423}\u{2423}\u{2423}"@ =~= tab_placeholder());
        }
        if self.content == String::from_str("\u{2423}") {
            " "
        } else if self.content == String::from_str("\u{2423}\u{2423}\u{2423}\u{2423}") {
            "\t"
        } else {
            self.content.as_str()
        }
    }

    /// The cell a single typed character becomes.
    pub fn char_to_cell(c: char) -> (r: Cell)
        ensures
            r@ == cell_model_of_grapheme(seq![c]),
            r.wf(),
    {
        let s = char_to_string(c);
        Self::from_grapheme(s.as_str())
    }

    /// Segments `s` into grapheme clusters and canonicalizes each into a
    /// cell.
    pub fn str_to_cells(s: &str) -> (r: Vec<Cell>)
        ensures
            r@.map_values(|c: Cell| c@) == cells_of_str(s@),
            forall|i: int| 0 <= i < r@.len() ==> #[trigger] r@[i].wf(),
    {
        let gs = split_graphemes(s);
        let ghost gseq: Seq<Seq<char>> = graphemes_of(s@);
        let mut result: Vec<Cell> = Vec::new();
        let mut idx: usize = 0;
        while idx < gs.len()
            invariant
                gs@.map_values(|g: String| g@) == gseq,
                idx <= gs@.len(),
                result@.len() == idx,
                forall|j: int| 0 <= j < idx ==> #[trigger] result@[j]@ == cell_model_of_grapheme(
                    gseq[j],
                ),
                forall|j: int| 0 <= j < idx ==> #[trigger] result@[j].wf(),
            decreases gs@.len() - idx,
        {
            proof {
                assert(gs@.map_values(|g: String| g@)[idx as int] == gs@[idx as int]@);
            }
            let cell = Self::from_grapheme(gs[idx].as_str());
            result.push(cell);
            idx += 1;
        }
        proof {
            assert(result@.map_values(|c: Cell| c@) =~= cells_of_str(s@));
        }
        result
    }

    /// Canonicalizes one grapheme cluster into a cell: a space becomes
    /// the placeholder glyph, a tab four of them, anything else keeps
    /// its text with its measured width.
    fn from_grapheme(g: &str) -> (r: Cell)
        ensures
            r@ == cell_model_of_grapheme(g@),
            r.wf(),
    {
        proof {
            reveal_strlit(" ");
            reveal_strlit("\t");
            reveal_strlit("\u{2423}");
            reveal_strlit("\u{2423}\u{2423}\u{2423}\u{2423}");
            assert(" "@ =~= seq![' ']);
            assert("\t"@ =~= seq!['\t']);
            assert("\u{2423}"@ =~= space_placeholder());
            assert("\u{2423}\u{2423}\u{2423}\u{2423}"@ =~= tab_placeholder());
        }
        let owned = String::from_str(g);
        if owned == String::from_str(" ") {
            Cell { content: String::from_str("\u{2423}"), cell_width: 1 }
        } else if owned == String::from_str("\t") {
            Cell {
                content: String::from_str("\u{2423}\u{2423}\u{2423}\u{2423}"),
                cell_width: 4,
            }
        } else {
            let w = measure_width(g);
            Cell { content: owned, cell_width: w }
        }
    }
}

} // verus!

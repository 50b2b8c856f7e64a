//! A `Line` is one document row: an ordered sequence of cells.
//!
//! Widths are summed the way a terminal accumulates columns, saturating
//! at `usize::MAX`; the unsaturated sums are also modelled so the width
//! laws can be stated exactly.

use vstd::prelude::*;
use vstd::string::StringExecFns;

use crate::cell::{Cell, CellModel, cell_model_of_grapheme, cells_of_str, saved_form};
use crate::cell::lemma_cell_model_of_grapheme_wf;
use crate::cell::{space_placeholder, tab_placeholder};
use crate::coords::{cap_add, CellIdx, ColIdx};
use crate::unicode::graphemes_of;

verus! {

/// Sum of the widths of the cells strictly before index `n`.
pub open spec fn prefix_width(cells: Seq<CellModel>, n: int) -> nat
    decreases n,
{
    if n <= 0 {
        0
    } else {
        prefix_width(cells, n - 1) + cells[n - 1].width
    }
}

/// Sum of the widths of the cells strictly before index `n`, computed
/// the way the executable code accumulates it: capped at `usize::MAX`.
pub open spec fn sat_prefix_width(cells: Seq<CellModel>, n: int) -> nat
    decreases n,
{
    if n <= 0 {
        0
    } else {
        cap_add(sat_prefix_width(cells, n - 1), cells[n - 1].width)
    }
}

/// Sum of all the cells' widths.
pub open spec fn sum_widths(cells: Seq<CellModel>) -> nat
    decreases cells.len(),
{
    if cells.len() == 0 {
        0
    } else {
        cells[0].width + sum_widths(cells.drop_first())
    }
}

/// What `get_cell_width_until` returns: the index is first clamped to
/// the cell count, then the widths before it are summed, saturating.
pub open spec fn width_until_model(cells: Seq<CellModel>, cell_idx: int) -> nat {
    if cell_idx <= cells.len() {
        sat_prefix_width(cells, cell_idx)
    } else {
        sat_prefix_width(cells, cells.len() as int)
    }
}

/// Every cell of the line carries the width its content renders at.
pub open spec fn line_wf(cells: Seq<CellModel>) -> bool {
    forall|i: int| 0 <= i < cells.len() ==> #[trigger] cells[i].wf()
}

/// The text a line is saved as: each cell's canonical saved form,
/// concatenated (placeholders restored to space and tab).
pub open spec fn line_saved_text(cells: Seq<CellModel>) -> Seq<char>
    decreases cells.len(),
{
    if cells.len() == 0 {
        Seq::empty()
    } else {
        saved_form(cells[0]) + line_saved_text(cells.drop_first())
    }
}

/// Whether cell `i`'s column span `[cell_start, cell_start + width)`
/// overlaps the half-open column range `[start, end)`.  Cells are atomic
/// render units, so partial overlap includes the whole cell.
pub open spec fn cell_visible(cells: Seq<CellModel>, i: int, start: int, end: int) -> bool {
    sat_prefix_width(cells, i) < end && cap_add(sat_prefix_width(cells, i), cells[i].width)
        > start
}

/// Concatenated contents of the cells from index `i` on that overlap
/// the column range `[start, end)`.
pub open spec fn visible_from(cells: Seq<CellModel>, i: int, start: int, end: int) -> Seq<char>
    decreases cells.len() - i,
{
    if i < 0 || i >= cells.len() {
        Seq::empty()
    } else {
        (if cell_visible(cells, i, start, end) {
            cells[i].content
        } else {
            Seq::empty()
        }) + visible_from(cells, i + 1, start, end)
    }
}

/// What `get_visible_substr` returns: empty when the range is empty or
/// starts beyond the line, otherwise the contents of the cells that
/// overlap the range, with its end clamped to the line's total width.
pub open spec fn visible_substr_model(cells: Seq<CellModel>, start: int, end: int) -> Seq<char> {
    let total = sat_prefix_width(cells, cells.len() as int) as int;
    if start >= end || start > total {
        Seq::empty()
    } else {
        visible_from(cells, 0, start, if end <= total { end } else { total })
    }
}

/// One document row, rendered cell by cell in insertion order.
pub struct Line {
    pub cells: Vec<Cell>,
}

impl View for Line {
    type V = Seq<CellModel>;

    open spec fn view(&self) -> Seq<CellModel> {
        self.cells@.map_values(|c: Cell| c@)
    }
}

impl Default for Line {
    /// The empty line.
    fn default() -> (r: Self)
        ensures
            r@ == Seq::<CellModel>::empty(),
            r.wf(),
    {
        let r = Self { cells: Vec::new() };
        proof {
            assert(r@ =~= Seq::<CellModel>::empty());
        }
        r
    }
}

impl Line {
    /// All cells of the line carry their rendered width.
    pub open spec fn wf(self) -> bool {
        line_wf(self@)
    }

    /// Segments a raw string into cells, applying the whitespace
    /// canonicalizations.
    pub fn from(s: &str) -> (r: Self)
        ensures
            r@ == cells_of_str(s@),
            r.wf(),
    {
        let cells = Cell::str_to_cells(s);
        Self { cells }
    }

    /// The number of cells in this line.
    pub fn get_cells_count(&self) -> (n: usize)
        ensures
            n == self@.len(),
    {
        self.cells.len()
    }

    /// The terminal columns occupied by the cells strictly before
    /// `cell_idx`; the index is clamped to the cell count, and the sum
    /// saturates at `usize::MAX`.
    pub fn get_cell_width_until(&self, cell_idx: CellIdx) -> (w: usize)
        ensures
            w == width_until_model(self@, cell_idx as int),
    {
        let count = self.cells.len();
        let k = if cell_idx < count {
            cell_idx
        } else {
            count
        };
        let mut w: usize = 0;
        let mut i: usize = 0;
        while i < k
            invariant
                i <= k <= self.cells@.len(),
                self@.len() == self.cells@.len(),
                w == sat_prefix_width(self@, i as int),
            decreases k - i,
        {
            w = w.saturating_add(self.cells[i].cell_width);
            i += 1;
        }
        w
    }

    /// The rendered text of the cells whose column span overlaps the
    /// half-open column range `[start, end)`.
    pub fn get_visible_substr(&self, start: ColIdx, end: ColIdx) -> (r: String)
        ensures
            r@ == visible_substr_model(self@, start as int, end as int),
    {
        let mut result = String::new();
        let count = self.get_cells_count();
        let total = self.get_cell_width_until(count);

        if start >= end || start > total {
            return result;
        }

        let end_clamped: usize = if end < total {
            end
        } else {
            total
        };
        let ghost e: int = end_clamped as int;

        let mut cumulative: usize = 0;
        let mut i: usize = 0;
        proof {
            assert(result@ + visible_from(self@, 0, start as int, e) =~= visible_from(
                self@,
                0,
                start as int,
                e,
            ));
        }
        while i < self.cells.len() && cumulative < end_clamped
            invariant
                i <= self.cells@.len(),
                self@.len() == self.cells@.len(),
                e == end_clamped as int,
                cumulative == sat_prefix_width(self@, i as int),
                result@ + visible_from(self@, i as int, start as int, e) == visible_from(
                    self@,
                    0,
                    start as int,
                    e,
                ),
            decreases self.cells@.len() - i,
        {
            let ghost prev = result@;
            let cell_width = self.cells[i].cell_width;
            let cell_end = cumulative.saturating_add(cell_width);
            if cell_end > start {
                result.append(self.cells[i].content.as_str());
            }
            proof {
                let ii = i as int;
                assert(cell_visible(self@, ii, start as int, e) == (cell_end > start));
                let piece = if cell_visible(self@, ii, start as int, e) {
                    self@[ii].content
                } else {
                    Seq::<char>::empty()
                };
                assert(result@ =~= prev + piece);
                assert(visible_from(self@, ii, start as int, e) == piece + visible_from(
                    self@,
                    ii + 1,
                    start as int,
                    e,
                ));
                assert((prev + piece) + visible_from(self@, ii + 1, start as int, e) =~= prev + (
                piece + visible_from(self@, ii + 1, start as int, e)));
            }
            cumulative = cell_end;
            i += 1;
        }
        proof {
            if i < self.cells@.len() {
                lemma_visible_from_empty(self@, i as int, start as int, e);
            }
            assert(visible_from(self@, i as int, start as int, e) == Seq::<char>::empty());
            assert(result@ + Seq::<char>::empty() =~= result@);
        }
        result
    }

    /// Inserts a cell at `cell_idx`, shifting the cells after it.
    pub fn insert_cell(&mut self, cell: Cell, cell_idx: CellIdx)
        requires
            cell_idx <= old(self)@.len(),
        ensures
            final(self)@ == old(self)@.insert(cell_idx as int, cell@),
            old(self).wf() && cell.wf() ==> final(self).wf(),
    {
        self.cells.insert(cell_idx, cell);
        proof {
            assert(self@ =~= old(self)@.insert(cell_idx as int, cell@));
            if line_wf(old(self)@) && cell@.wf() {
                lemma_line_wf_insert(old(self)@, cell_idx as int, cell@);
            }
        }
    }

    /// Removes the cell at `cell_idx`, shifting the cells after it.
    pub fn delete_cell(&mut self, cell_idx: CellIdx)
        requires
            cell_idx < old(self)@.len(),
        ensures
            final(self)@ == old(self)@.remove(cell_idx as int),
            old(self).wf() ==> final(self).wf(),
    {
        self.cells.remove(cell_idx);
        proof {
            assert(self@ =~= old(self)@.remove(cell_idx as int));
            if line_wf(old(self)@) {
                lemma_line_wf_remove(old(self)@, cell_idx as int);
            }
        }
    }

    /// Partitions the line's cells at `at` into two new lines,
    /// preserving order.
    pub fn split(&self, at: CellIdx) -> (r: (Line, Line))
        requires
            at <= self@.len(),
        ensures
            r.0@ == self@.subrange(0, at as int),
            r.1@ == self@.subrange(at as int, self@.len() as int),
            self.wf() ==> r.0.wf() && r.1.wf(),
    {
        proof {
            if line_wf(self@) {
                lemma_line_wf_subrange(self@, 0, at as int);
                lemma_line_wf_subrange(self@, at as int, self@.len() as int);
            }
        }
        let count = self.cells.len();
        let mut head_cells: Vec<Cell> = Vec::new();
        let mut i: usize = 0;
        while i < at
            invariant
                i <= at <= self.cells@.len(),
                self@.len() == self.cells@.len(),
                head_cells@.len() == i,
                forall|j: int| 0 <= j < i ==> #[trigger] head_cells@[j]@ == self@[j],
            decreases at - i,
        {
            head_cells.push(self.cells[i].clone());
            i += 1;
        }
        let mut tail_cells: Vec<Cell> = Vec::new();
        let mut k: usize = at;
        while k < count
            invariant
                at <= k <= count == self.cells@.len(),
                self@.len() == self.cells@.len(),
                tail_cells@.len() == k - at,
                forall|j: int| 0 <= j < k - at ==> #[trigger] tail_cells@[j]@ == self@[j + at],
            decreases count - k,
        {
            tail_cells.push(self.cells[k].clone());
            k += 1;
        }
        let r = (Line { cells: head_cells }, Line { cells: tail_cells });
        proof {
            assert(r.0@ =~= self@.subrange(0, at as int));
            assert(r.1@ =~= self@.subrange(at as int, self@.len() as int));
        }
        r
    }

    /// Appends `other`'s cells to this line, consuming `other`.
    pub fn merge(&mut self, other: Line)
        ensures
            final(self)@ == old(self)@ + other@,
            old(self).wf() && other.wf() ==> final(self).wf(),
    {
        proof {
            if line_wf(old(self)@) && line_wf(other@) {
                lemma_line_wf_concat(old(self)@, other@);
            }
        }
        let mut tail = other;
        self.cells.append(&mut tail.cells);
        proof {
            assert(self@ =~= old(self)@ + other@);
        }
    }

    /// The text this line is saved as: each cell's canonical form, with
    /// the whitespace placeholders reversed.
    pub fn to_text(&self) -> (r: String)
        ensures
            r@ == line_saved_text(self@),
    {
        let mut out = String::new();
        let mut i: usize = 0;
        proof {
            assert(self@.skip(0) =~= self@);
            assert(out@ + line_saved_text(self@) =~= line_saved_text(self@));
        }
        while i < self.cells.len()
            invariant
                i <= self.cells@.len(),
                self@.len() == self.cells@.len(),
                out@ + line_saved_text(self@.skip(i as int)) == line_saved_text(self@),
            decreases self.cells@.len() - i,
        {
            let ghost prev = out@;
            let ghost ii = i as int;
            proof {
                assert(self@.skip(ii).drop_first() =~= self@.skip(ii + 1));
                assert(self@.skip(ii)[0] == self@[ii]);
                assert(line_saved_text(self@.skip(ii)) == saved_form(self@[ii])
                    + line_saved_text(self@.skip(ii + 1)));
            }
            out.append(self.cells[i].to_grapheme());
            proof {
                assert((prev + saved_form(self@[ii])) + line_saved_text(self@.skip(ii + 1)) =~= prev
                    + (saved_form(self@[ii]) + line_saved_text(self@.skip(ii + 1))));
            }
            i += 1;
        }
        proof {
            assert(self@.skip(i as int) =~= Seq::<CellModel>::empty());
            assert(out@ + Seq::<char>::empty() =~= out@);
        }
        out
    }
}

/// Cells at or past a column that is at or beyond the range's end
/// contribute nothing to the visible text.
proof fn lemma_visible_from_empty(cells: Seq<CellModel>, i: int, start: int, end: int)
    requires
        0 <= i,
        sat_prefix_width(cells, i) >= end,
    ensures
        visible_from(cells, i, start, end) == Seq::<char>::empty(),
    decreases cells.len() - i,
{
    if i < cells.len() {
        assert(sat_prefix_width(cells, i + 1) == cap_add(
            sat_prefix_width(cells, i),
            cells[i].width,
        ));
        lemma_visible_from_empty(cells, i + 1, start, end);
    }
}

/// Dropping the first cell shifts a prefix-width sum by that cell's
/// width.
proof fn lemma_prefix_width_drop_first(cells: Seq<CellModel>, n: int)
    requires
        1 <= n <= cells.len(),
    ensures
        prefix_width(cells, n) == cells[0].width + prefix_width(cells.drop_first(), n - 1),
    decreases n,
{
    if n == 1 {
        assert(prefix_width(cells, 1) == prefix_width(cells, 0) + cells[0].width);
        assert(prefix_width(cells.drop_first(), 0) == 0);
    } else {
        lemma_prefix_width_drop_first(cells, n - 1);
        assert(cells.drop_first()[n - 2] == cells[n - 1]);
        assert(prefix_width(cells, n) == prefix_width(cells, n - 1) + cells[n - 1].width);
        assert(prefix_width(cells.drop_first(), n - 1) == prefix_width(cells.drop_first(), n - 2)
            + cells.drop_first()[n - 2].width);
    }
}

/// Law (width invariant, totality): the width of the whole line —
/// `width_until` taken at the cell count — is the sum of all the cells'
/// widths.
pub proof fn lemma_width_until_total(cells: Seq<CellModel>)
    ensures
        prefix_width(cells, cells.len() as int) == sum_widths(cells),
    decreases cells.len(),
{
    if cells.len() > 0 {
        lemma_prefix_width_drop_first(cells, cells.len() as int);
        lemma_width_until_total(cells.drop_first());
    }
}

/// Law (width invariant, monotonicity): summing the widths of a longer
/// prefix never yields less, in both the exact and the saturating sums.
pub proof fn lemma_width_until_monotonic(cells: Seq<CellModel>, i: int, j: int)
    requires
        0 <= i <= j,
    ensures
        prefix_width(cells, i) <= prefix_width(cells, j),
        sat_prefix_width(cells, i) <= sat_prefix_width(cells, j),
    decreases j - i,
{
    if i < j {
        lemma_width_until_monotonic(cells, i, j - 1);
    }
}

/// As long as the exact prefix sum fits in `usize`, the saturating sum
/// that the executable code computes equals it.
pub proof fn lemma_sat_prefix_width_exact(cells: Seq<CellModel>, n: int)
    requires
        prefix_width(cells, n) <= usize::MAX,
    ensures
        sat_prefix_width(cells, n) == prefix_width(cells, n),
    decreases n,
{
    if n > 0 {
        lemma_sat_prefix_width_exact(cells, n - 1);
    }
}

/// Every line built from a raw string is well formed.
pub proof fn lemma_cells_of_str_wf(s: Seq<char>)
    ensures
        line_wf(cells_of_str(s)),
{
    assert forall|i: int| 0 <= i < cells_of_str(s).len() implies (#[trigger] cells_of_str(
        s,
    )[i]).wf() by {
        lemma_cell_model_of_grapheme_wf(graphemes_of(s)[i]);
    }
}

/// Law (width invariant, monotonicity of the clamped form): the value
/// `get_cell_width_until` returns never decreases as its index grows.
pub proof fn lemma_width_until_model_monotonic(cells: Seq<CellModel>, i: int, j: int)
    requires
        0 <= i <= j,
    ensures
        width_until_model(cells, i) <= width_until_model(cells, j),
{
    if j <= cells.len() {
        lemma_width_until_monotonic(cells, i, j);
    } else if i <= cells.len() {
        lemma_width_until_monotonic(cells, i, cells.len() as int);
    }
}

/// The empty line is well formed.
pub proof fn lemma_empty_line_wf()
    ensures
        line_wf(Seq::<CellModel>::empty()),
{
}

/// A contiguous piece of a well-formed line is well formed.
pub proof fn lemma_line_wf_subrange(cells: Seq<CellModel>, a: int, b: int)
    requires
        line_wf(cells),
        0 <= a <= b <= cells.len(),
    ensures
        line_wf(cells.subrange(a, b)),
{
    assert forall|i: int| 0 <= i < cells.subrange(a, b).len() implies (#[trigger] cells.subrange(
        a,
        b,
    )[i]).wf() by {
        assert(cells.subrange(a, b)[i] == cells[i + a]);
        assert(cells[i + a].wf());
    }
}

/// Inserting a well-formed cell into a well-formed line keeps it well
/// formed.
pub proof fn lemma_line_wf_insert(cells: Seq<CellModel>, i: int, cm: CellModel)
    requires
        line_wf(cells),
        cm.wf(),
        0 <= i <= cells.len(),
    ensures
        line_wf(cells.insert(i, cm)),
{
    assert forall|j: int| 0 <= j < cells.insert(i, cm).len() implies (#[trigger] cells.insert(
        i,
        cm,
    )[j]).wf() by {
        if j < i {
            assert(cells.insert(i, cm)[j] == cells[j]);
            assert(cells[j].wf());
        } else if j == i {
        } else {
            assert(cells.insert(i, cm)[j] == cells[j - 1]);
            assert(cells[j - 1].wf());
        }
    }
}

/// Removing a cell from a well-formed line keeps it well formed.
pub proof fn lemma_line_wf_remove(cells: Seq<CellModel>, i: int)
    requires
        line_wf(cells),
        0 <= i < cells.len(),
    ensures
        line_wf(cells.remove(i)),
{
    assert forall|j: int| 0 <= j < cells.remove(i).len() implies (#[trigger] cells.remove(i)[j]).wf()
        by {
        if j < i {
            assert(cells.remove(i)[j] == cells[j]);
            assert(cells[j].wf());
        } else {
            assert(cells.remove(i)[j] == cells[j + 1]);
            assert(cells[j + 1].wf());
        }
    }
}

/// The concatenation of two well-formed lines is well formed.
pub proof fn lemma_line_wf_concat(a: Seq<CellModel>, b: Seq<CellModel>)
    requires
        line_wf(a),
        line_wf(b),
    ensures
        line_wf(a + b),
{
    assert forall|j: int| 0 <= j < (a + b).len() implies (#[trigger] (a + b)[j]).wf() by {
        if j < a.len() {
            assert((a + b)[j] == a[j]);
            assert(a[j].wf());
        } else {
            assert((a + b)[j] == b[j - a.len()]);
            assert(b[j - a.len()].wf());
        }
    }
}

/// Law (width invariant): the value `get_cell_width_until` returns at
/// the cell count is exactly the sum of all the cells' widths,
/// whenever that sum fits the machine word (beyond it the executable
/// sum saturates).
pub proof fn lemma_width_until_model_total(cells: Seq<CellModel>)
    requires
        sum_widths(cells) <= usize::MAX,
    ensures
        width_until_model(cells, cells.len() as int) == sum_widths(cells),
{
    lemma_width_until_total(cells);
    lemma_sat_prefix_width_exact(cells, cells.len() as int);
}

/// Law (split/merge inverse): merging the two pieces a split produced
/// reconstructs the original line, cell for cell.  Together with the
/// contracts of `split` and `merge` this is exactly
/// `merge(split(line, at)) == line` for every `at` in range.
pub proof fn lemma_split_merge_inverse(cells: Seq<CellModel>, at: int)
    requires
        0 <= at <= cells.len(),
    ensures
        cells.subrange(0, at) + cells.subrange(at, cells.len() as int) == cells,
{
    assert(cells.subrange(0, at) + cells.subrange(at, cells.len() as int) =~= cells);
}

/// No cluster of the sequence is one of the placeholder glyph runs
/// themselves; text that displays the placeholder characters literally
/// is the one input the save/load round trip cannot distinguish.
pub open spec fn placeholder_free(gs: Seq<Seq<char>>) -> bool {
    forall|i: int|
        0 <= i < gs.len() ==> (#[trigger] gs[i]) != space_placeholder() && gs[i]
            != tab_placeholder()
}

/// Saving the cells built from a cluster sequence yields the clusters'
/// concatenation, as long as no cluster is itself a placeholder run.
proof fn lemma_saved_eq_flatten(gs: Seq<Seq<char>>, cells: Seq<CellModel>)
    requires
        cells.len() == gs.len(),
        forall|i: int|
            0 <= i < gs.len() ==> (#[trigger] cells[i]) == cell_model_of_grapheme(gs[i]),
        placeholder_free(gs),
    ensures
        line_saved_text(cells) == gs.flatten(),
    decreases gs.len(),
{
    if gs.len() > 0 {
        assert(cells[0] == cell_model_of_grapheme(gs[0]));
        assert(gs[0] != space_placeholder() && gs[0] != tab_placeholder());
        assert(space_placeholder().len() == 1);
        assert(tab_placeholder().len() == 4);
        assert(space_placeholder()[0] == '\u{2423}');
        assert(seq![' '].len() == 1 && seq![' '][0] == ' ');
        assert(seq!['\t'].len() == 1 && seq!['\t'][0] == '\t');
        assert(saved_form(cells[0]) == gs[0]);
        assert(cells.drop_first().len() == gs.drop_first().len());
        assert forall|i: int|
            0 <= i < gs.drop_first().len() implies (#[trigger] cells.drop_first()[i])
            == cell_model_of_grapheme(gs.drop_first()[i]) by {
            assert(cells.drop_first()[i] == cells[i + 1]);
            assert(gs.drop_first()[i] == gs[i + 1]);
        }
        assert forall|i: int| 0 <= i < gs.drop_first().len() implies (#[trigger] gs.drop_first()[i])
            != space_placeholder() && gs.drop_first()[i] != tab_placeholder() by {
            assert(gs.drop_first()[i] == gs[i + 1]);
        }
        lemma_saved_eq_flatten(gs.drop_first(), cells.drop_first());
    }
}

/// Law (round trip): loading a raw string and saving it again gives the
/// string back, provided none of its grapheme clusters is literally a
/// placeholder run.  `gs` is the cluster sequence the segmenter
/// produced; its two properties here are exactly what the segmentation
/// boundary guarantees about every call.
pub proof fn lemma_line_round_trip(s: Seq<char>, gs: Seq<Seq<char>>)
    requires
        gs == graphemes_of(s),
        gs.flatten() == s,
        placeholder_free(gs),
    ensures
        line_saved_text(cells_of_str(s)) == s,
{
    assert(cells_of_str(s).len() == gs.len());
    assert forall|i: int| 0 <= i < gs.len() implies (#[trigger] cells_of_str(s)[i])
        == cell_model_of_grapheme(gs[i]) by {}
    lemma_saved_eq_flatten(gs, cells_of_str(s));
}

} // verus!

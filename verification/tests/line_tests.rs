//! Tests for cells, lines, widths and the visible-substring logic.

use celledit::cell::Cell;
use celledit::line::Line;

#[test]
fn char_cell_has_unit_width() {
    let cell = Cell::char_to_cell('a');
    assert_eq!(cell.cell_width(), 1);
    assert_eq!(cell.to_string(), "a");
}

#[test]
fn space_becomes_placeholder_glyph() {
    let cell = Cell::char_to_cell(' ');
    assert_eq!(cell.to_string(), "\u{2423}");
    assert_eq!(cell.cell_width(), 1);
    assert_eq!(cell.to_grapheme(), " ");
}

#[test]
fn tab_becomes_four_wide_placeholder() {
    let cell = Cell::char_to_cell('\t');
    assert_eq!(cell.to_string(), "\u{2423}\u{2423}\u{2423}\u{2423}");
    assert_eq!(cell.cell_width(), 4);
    assert_eq!(cell.to_grapheme(), "\t");
}

#[test]
fn wide_character_measures_two_columns() {
    let cells = Cell::str_to_cells("\u{4f60}");
    assert_eq!(cells.len(), 1);
    assert_eq!(cells[0].cell_width(), 2);
}

#[test]
fn combining_mark_stays_in_one_cell() {
    let cells = Cell::str_to_cells("a\u{301}b");
    assert_eq!(cells.len(), 2);
    assert_eq!(cells[0].to_string(), "a\u{301}");
    assert_eq!(cells[1].to_string(), "b");
}

#[test]
fn line_from_counts_cells() {
    let line = Line::from("abc");
    assert_eq!(line.get_cells_count(), 3);
}

#[test]
fn width_until_sums_prefix_widths() {
    let line = Line::from("a\u{4f60}b");
    assert_eq!(line.get_cell_width_until(0), 0);
    assert_eq!(line.get_cell_width_until(1), 1);
    assert_eq!(line.get_cell_width_until(2), 3);
    assert_eq!(line.get_cell_width_until(3), 4);
    // the index clamps to the cell count
    assert_eq!(line.get_cell_width_until(99), 4);
}

#[test]
fn width_until_is_monotonic_on_values() {
    let line = Line::from("x\ty\u{4f60}");
    let mut prev = 0;
    for i in 0..=line.get_cells_count() {
        let w = line.get_cell_width_until(i);
        assert!(w >= prev);
        prev = w;
    }
}

#[test]
fn visible_substr_takes_overlapping_cells() {
    let line = Line::from("abc");
    assert_eq!(line.get_visible_substr(1, 3), "bc");
    assert_eq!(line.get_visible_substr(0, 3), "abc");
    assert_eq!(line.get_visible_substr(3, 3), "");
    assert_eq!(line.get_visible_substr(2, 1), "");
}

#[test]
fn visible_substr_keeps_partially_visible_wide_cell() {
    // two cells of width 2: spans [0,2) and [2,4)
    let line = Line::from("\u{4f60}\u{597d}");
    assert_eq!(line.get_visible_substr(1, 3), "\u{4f60}\u{597d}");
    assert_eq!(line.get_visible_substr(2, 4), "\u{597d}");
}

#[test]
fn visible_substr_beyond_line_is_empty() {
    let line = Line::from("ab");
    assert_eq!(line.get_visible_substr(5, 9), "");
}

#[test]
fn insert_and_delete_cells() {
    let mut line = Line::from("ac");
    line.insert_cell(Cell::char_to_cell('b'), 1);
    assert_eq!(line.to_text(), "abc");
    line.delete_cell(0);
    assert_eq!(line.to_text(), "bc");
}

#[test]
fn split_then_merge_restores_line() {
    for at in 0..=4 {
        let line = Line::from("abcd");
        let (mut head, tail) = line.split(at);
        head.merge(tail);
        assert_eq!(head.to_text(), "abcd");
        assert_eq!(head.get_cells_count(), 4);
    }
}

#[test]
fn saved_text_restores_whitespace() {
    let line = Line::from("a\tb c");
    assert_eq!(line.to_text(), "a\tb c");
}

#[test]
fn saved_text_of_empty_line_is_empty() {
    let line = Line::default();
    assert_eq!(line.to_text(), "");
}

//! Tests for the edit area, the movement and edit commands, scrolling,
//! and the modal dispatcher.

use celledit::coords::{DocumentCoordinate, Size, TerminalCoordinate};
use celledit::edit_area::EditArea;
use celledit::edit_cmd::Edit;
use celledit::editor::Editor;
use celledit::key::{KeyCode, KeyEvent, KeyModifiers};
use celledit::line::Line;
use celledit::mode::{Mode, SideEffect};
use celledit::move_cmd::{Move, TextScroll};

fn area_with(lines: Vec<&str>, caret: (usize, usize), size: (usize, usize)) -> EditArea {
    let mut area = EditArea::default();
    let rows: Vec<String> = lines.iter().map(|s| s.to_string()).collect();
    area.lines = rows.iter().map(|r| Line::from(r)).collect();
    area.caret = DocumentCoordinate { line_idx: caret.0, cell_idx: caret.1 };
    area.size = Size { width: size.0, height: size.1 };
    area
}

fn key(code: KeyCode) -> KeyEvent {
    KeyEvent { code, modifiers: KeyModifiers::Plain }
}

fn ctrl(c: char) -> KeyEvent {
    KeyEvent { code: KeyCode::Char(c), modifiers: KeyModifiers::Control }
}

fn texts(area: &EditArea) -> Vec<String> {
    area.get_lines().iter().map(|l| l.to_text()).collect()
}

#[test]
fn scenario_insert_into_empty_document() {
    let mut editor = Editor::new("notes.txt");
    editor.resize_all(Size { width: 80, height: 24 });
    let eff = Mode::key_event_handler(key(KeyCode::Char('x')), &mut editor);
    assert_eq!(eff, SideEffect::Nothing);
    assert_eq!(texts(editor.get_edit_area()), vec!["x".to_string()]);
    assert_eq!(*editor.get_edit_area().get_caret(), DocumentCoordinate {
        line_idx: 0,
        cell_idx: 1,
    });
    assert!(editor.get_edit_area().get_is_modified());
}

#[test]
fn scenario_enter_at_line_end() {
    let mut area = area_with(vec!["ab"], (0, 2), (80, 24));
    Edit::Enter.execute(&mut area);
    assert_eq!(texts(&area), vec!["ab".to_string(), "".to_string()]);
    assert_eq!(*area.get_caret(), DocumentCoordinate { line_idx: 1, cell_idx: 0 });
    assert!(area.get_is_modified());
}

#[test]
fn scenario_delete_joins_next_line() {
    let mut area = area_with(vec!["ab", "cd"], (0, 2), (80, 24));
    Edit::Delete.execute(&mut area);
    assert_eq!(texts(&area), vec!["abcd".to_string()]);
    assert_eq!(*area.get_caret(), DocumentCoordinate { line_idx: 0, cell_idx: 2 });
    assert!(area.get_is_modified());
}

#[test]
fn scenario_backspace_at_line_start_joins_previous() {
    let mut area = area_with(vec!["ab", "cd"], (1, 0), (80, 24));
    Edit::Backspace.execute(&mut area);
    assert_eq!(texts(&area), vec!["abcd".to_string()]);
    assert_eq!(*area.get_caret(), DocumentCoordinate { line_idx: 0, cell_idx: 2 });
    assert!(area.get_is_modified());
}

#[test]
fn scenario_scroll_follows_caret_down() {
    let lines: Vec<&str> = vec!["l"; 12];
    let mut area = area_with(lines, (0, 0), (80, 3));
    Move::move_caret_validly(&mut area, DocumentCoordinate { line_idx: 10, cell_idx: 0 });
    assert_eq!(area.get_scroll_offset().row, 8);
    assert_eq!(*area.get_caret(), DocumentCoordinate { line_idx: 10, cell_idx: 0 });
}

#[test]
fn delete_at_document_end_is_a_noop() {
    let mut area = area_with(vec!["ab"], (0, 2), (80, 24));
    Edit::Delete.execute(&mut area);
    assert_eq!(texts(&area), vec!["ab".to_string()]);
    assert!(!area.get_is_modified());
}

#[test]
fn backspace_at_document_start_is_a_noop() {
    let mut area = area_with(vec!["ab"], (0, 0), (80, 24));
    Edit::Backspace.execute(&mut area);
    assert_eq!(texts(&area), vec!["ab".to_string()]);
    assert!(!area.get_is_modified());
}

#[test]
fn backspace_removes_previous_cell() {
    let mut area = area_with(vec!["abc"], (0, 2), (80, 24));
    Edit::Backspace.execute(&mut area);
    assert_eq!(texts(&area), vec!["ac".to_string()]);
    assert_eq!(*area.get_caret(), DocumentCoordinate { line_idx: 0, cell_idx: 1 });
}

#[test]
fn caret_moves_clamp_to_document() {
    let mut area = area_with(vec!["ab", "wxyz"], (0, 0), (80, 24));
    Move::move_caret_validly(&mut area, DocumentCoordinate { line_idx: 9, cell_idx: 9 });
    assert_eq!(*area.get_caret(), DocumentCoordinate { line_idx: 1, cell_idx: 4 });
}

#[test]
fn caret_left_wraps_to_previous_line_end() {
    let mut area = area_with(vec!["abc", "d"], (1, 0), (80, 24));
    Move::Left.execute(&mut area);
    assert_eq!(*area.get_caret(), DocumentCoordinate { line_idx: 0, cell_idx: 3 });
}

#[test]
fn caret_right_wraps_to_next_line_start() {
    let mut area = area_with(vec!["abc", "d"], (0, 3), (80, 24));
    Move::Right.execute(&mut area);
    assert_eq!(*area.get_caret(), DocumentCoordinate { line_idx: 1, cell_idx: 0 });
}

#[test]
fn caret_up_clamps_cell_to_shorter_line() {
    let mut area = area_with(vec!["a", "wxyz"], (1, 4), (80, 24));
    Move::Up.execute(&mut area);
    assert_eq!(*area.get_caret(), DocumentCoordinate { line_idx: 0, cell_idx: 1 });
}

#[test]
fn page_down_moves_by_viewport_height() {
    let lines: Vec<&str> = vec!["l"; 30];
    let mut area = area_with(lines, (0, 0), (80, 10));
    Move::PageDown.execute(&mut area);
    assert_eq!(area.get_caret().line_idx, 10);
}

#[test]
fn scroll_up_to_caret_exactly() {
    let lines: Vec<&str> = vec!["l"; 12];
    let mut area = area_with(lines, (2, 0), (80, 3));
    area.scroll_offset = TerminalCoordinate { row: 5, col: 0 };
    let changed = TextScroll::scroll_text(&mut area);
    assert!(changed);
    assert_eq!(area.get_scroll_offset().row, 2);
}

#[test]
fn scroll_right_nudges_on_last_column() {
    // caret column 4 with width 5: the asymmetric rule scrolls by one
    let mut area = area_with(vec!["abcdefgh"], (0, 4), (5, 3));
    let changed = TextScroll::scroll_text(&mut area);
    assert!(changed);
    assert_eq!(area.get_scroll_offset().col, 1);
}

#[test]
fn scroll_inside_viewport_changes_nothing() {
    let lines: Vec<&str> = vec!["l"; 12];
    let mut area = area_with(lines, (1, 0), (80, 3));
    let changed = TextScroll::scroll_text(&mut area);
    assert!(!changed);
    assert_eq!(area.get_scroll_offset().row, 0);
}

#[test]
fn caret_to_terminal_subtracts_scroll() {
    let mut area = area_with(vec!["a\u{4f60}bc"; 9], (5, 2), (80, 3));
    area.scroll_offset = TerminalCoordinate { row: 3, col: 1 };
    let t = area.caret_to_terminal();
    assert_eq!(t.row, 2);
    // caret column is 1 + 2 = 3; minus the column offset 1
    assert_eq!(t.col, 2);
}

#[test]
fn load_resets_document_and_caret() {
    let mut area = area_with(vec!["old"], (0, 3), (80, 24));
    area.set_is_modified(true);
    area.load(&vec!["one".to_string(), "two".to_string()]);
    assert_eq!(
        texts(&area),
        vec!["one".to_string(), "two".to_string(), "".to_string()],
    );
    assert_eq!(*area.get_caret(), DocumentCoordinate { line_idx: 0, cell_idx: 0 });
    assert!(!area.get_is_modified());
}

#[test]
fn document_save_text_round_trips() {
    let mut area = EditArea::default();
    let rows = vec!["a\tb c".to_string(), "second".to_string()];
    area.load(&rows);
    let saved = texts(&area);
    assert_eq!(
        saved,
        vec!["a\tb c".to_string(), "second".to_string(), "".to_string()],
    );
}

#[test]
fn remove_line_out_of_range_returns_empty() {
    let mut area = area_with(vec!["ab"], (0, 0), (80, 24));
    let line = area.remove_line(7);
    assert_eq!(line.get_cells_count(), 0);
    assert_eq!(texts(&area), vec!["ab".to_string()]);
}

#[test]
fn quit_key_sets_quit_flag() {
    let mut editor = Editor::new("notes.txt");
    editor.resize_all(Size { width: 80, height: 24 });
    let eff = Mode::key_event_handler(ctrl('q'), &mut editor);
    assert_eq!(eff, SideEffect::Nothing);
    assert!(editor.get_is_quit());
}

#[test]
fn save_key_requests_the_side_effect() {
    let mut editor = Editor::new("notes.txt");
    editor.resize_all(Size { width: 80, height: 24 });
    Mode::key_event_handler(key(KeyCode::Char('x')), &mut editor);
    let eff = Mode::key_event_handler(ctrl('s'), &mut editor);
    assert_eq!(eff, SideEffect::SaveFile);
    // the library changes nothing until the run loop reports success
    assert!(editor.get_edit_area().get_is_modified());
    editor.mark_saved();
    assert!(!editor.get_edit_area().get_is_modified());
}

#[test]
fn find_flow_arms_edits_and_confirms() {
    let mut editor = Editor::new("notes.txt");
    editor.resize_all(Size { width: 80, height: 24 });
    Mode::key_event_handler(ctrl('f'), &mut editor);
    assert!(matches!(editor.mode, Mode::CmdLineMode { editing: true, .. }));

    Mode::key_event_handler(key(KeyCode::Char('q')), &mut editor);
    Mode::key_event_handler(key(KeyCode::Char('w')), &mut editor);
    assert_eq!(editor.get_cmd_line().input().to_text(), "qw");

    Mode::key_event_handler(key(KeyCode::Enter), &mut editor);
    assert!(matches!(editor.mode, Mode::CmdLineMode { editing: false, .. }));
    assert_eq!(editor.get_find_context().query, "qw");
}

#[test]
fn command_line_backspace_and_moves() {
    let mut editor = Editor::new("notes.txt");
    editor.resize_all(Size { width: 80, height: 24 });
    Mode::key_event_handler(ctrl('f'), &mut editor);
    for c in ['a', 'b', 'c'] {
        Mode::key_event_handler(key(KeyCode::Char(c)), &mut editor);
    }
    Mode::key_event_handler(key(KeyCode::Backspace), &mut editor);
    assert_eq!(editor.get_cmd_line().input().to_text(), "ab");
    Mode::key_event_handler(key(KeyCode::Home), &mut editor);
    assert_eq!(editor.get_cmd_line().caret().cell_idx, 0);
    Mode::key_event_handler(key(KeyCode::Delete), &mut editor);
    assert_eq!(editor.get_cmd_line().input().to_text(), "b");
}

#[test]
fn escape_returns_to_editing_and_clears() {
    let mut editor = Editor::new("notes.txt");
    editor.resize_all(Size { width: 80, height: 24 });
    Mode::key_event_handler(ctrl('f'), &mut editor);
    Mode::key_event_handler(key(KeyCode::Char('z')), &mut editor);
    Mode::key_event_handler(key(KeyCode::Esc), &mut editor);
    assert!(matches!(editor.mode, Mode::EditMode));
    assert_eq!(editor.get_cmd_line().input().get_cells_count(), 0);
}

#[test]
fn find_navigation_moves_document_caret() {
    let mut editor = Editor::new("notes.txt");
    editor.resize_all(Size { width: 80, height: 24 });
    editor.get_mut_edit_area().load(&vec!["a".to_string(), "b".to_string(), "c".to_string()]);
    Mode::key_event_handler(ctrl('f'), &mut editor);
    Mode::key_event_handler(key(KeyCode::Enter), &mut editor);
    Mode::key_event_handler(key(KeyCode::Down), &mut editor);
    assert_eq!(editor.get_edit_area().get_caret().line_idx, 1);
    Mode::key_event_handler(key(KeyCode::Up), &mut editor);
    assert_eq!(editor.get_edit_area().get_caret().line_idx, 0);
}

#[test]
fn unrecognized_key_is_dropped() {
    let mut editor = Editor::new("notes.txt");
    editor.resize_all(Size { width: 80, height: 24 });
    let before = texts(editor.get_edit_area());
    let eff = Mode::key_event_handler(
        KeyEvent { code: KeyCode::Other, modifiers: KeyModifiers::Other },
        &mut editor,
    );
    assert_eq!(eff, SideEffect::Nothing);
    assert_eq!(texts(editor.get_edit_area()), before);
    assert!(matches!(editor.mode, Mode::EditMode));
}

#[test]
fn resize_all_lays_out_components() {
    let mut editor = Editor::new("notes.txt");
    editor.resize_all(Size { width: 80, height: 24 });
    assert_eq!(editor.get_status_bar().size().height, 2);
    assert_eq!(editor.get_cmd_line().size().height, 1);
    assert_eq!(editor.get_cmd_line().row, 23);
    assert_eq!(editor.get_edit_area().get_size().height, 21);
    assert_eq!(editor.get_edit_area().get_size().width, 80);
}

#[test]
fn line_on_caret_follows_the_caret() {
    let mut area = area_with(vec!["ab", "cd"], (1, 0), (80, 24));
    assert_eq!(area.get_line_on_caret().unwrap().to_text(), "cd");
    area.set_caret(DocumentCoordinate { line_idx: 9, cell_idx: 0 });
    assert!(area.get_line_on_caret().is_none());
}

#[test]
fn mutable_accessors_expose_the_parts() {
    let mut area = area_with(vec!["ab"], (0, 0), (80, 24));
    area.get_mut_scroll_offset().row = 4;
    assert_eq!(area.get_scroll_offset().row, 4);
    area.get_mut_lines().push(Line::from("cd"));
    assert_eq!(area.get_lines_count(), 2);

    let mut editor = Editor::new("notes.txt");
    editor.get_mut_edit_area().set_is_modified(true);
    assert!(editor.get_edit_area().get_is_modified());
}

#[test]
fn cmd_line_caret_lands_after_prompt_and_input() {
    let mut editor = Editor::new("notes.txt");
    editor.resize_all(Size { width: 80, height: 24 });
    Mode::key_event_handler(ctrl('f'), &mut editor);
    Mode::key_event_handler(key(KeyCode::Char('a')), &mut editor);
    Mode::key_event_handler(key(KeyCode::Char('b')), &mut editor);
    Mode::key_event_handler(key(KeyCode::Left), &mut editor);
    let t = editor.get_cmd_line().caret_to_terminal();
    // "Find: " is six columns wide, and one input cell sits before the caret
    assert_eq!(t.col, 7);
    assert_eq!(t.row, 23);
}

#[test]
fn status_bar_reflects_document() {
    let mut editor = Editor::new("src/lib.rs");
    editor.resize_all(Size { width: 80, height: 24 });
    editor.get_mut_edit_area().load(&vec!["a".to_string(), "b".to_string()]);
    editor.update_status();
    assert_eq!(editor.get_status_bar().total_lines, 3);
    assert!(!editor.get_status_bar().is_modified);
}

//! The editor session: the document, the status bar, the command
//! line, the find context, the current mode, and the quit flag.
//!
//! All input handling goes through `Mode::key_event_handler`; the run
//! loop around the library only reads events, paints, and performs the
//! file side effects the dispatcher asks for.

use vstd::prelude::*;

use crate::cell::cells_of_str;
use crate::cmd_line::{CmdLine, CmdLineModel};
use crate::coords::{cap_sub, DocumentCoordinate, Size};
use crate::delay_cmd::{DelayCmd, FindContext, FindContextModel};
use crate::edit_area::{EditArea, EditAreaModel};
use crate::file_info::{display_name_of, file_type_of, final_path_of, FileInfo, FileInfoModel};
use crate::line::line_saved_text;
use crate::mode::Mode;
use crate::status_bar::{StatusBar, StatusBarModel, STATUS_BAR_ROWS};

verus! {

/// The mathematical content of the whole editor session.
pub ghost struct EditorModel {
    pub file_info: FileInfoModel,
    pub edit_area: EditAreaModel,
    pub status_bar: StatusBarModel,
    pub cmd_line: CmdLineModel,
    pub mode: Mode,
    pub find: FindContextModel,
    pub is_quit: bool,
}

impl EditorModel {
    /// The session invariant: document and command line well formed.
    pub open spec fn wf(self) -> bool {
        &&& self.edit_area.wf()
        &&& self.cmd_line.wf()
    }

    /// The session with a new document state and the status bar
    /// refreshed from it.
    pub open spec fn with_edit_area(self, a: EditAreaModel) -> EditorModel {
        EditorModel {
            edit_area: a,
            status_bar: StatusBarModel {
                size: self.status_bar.size,
                file_info: self.file_info,
                total_lines: a.lines.len(),
                is_modified: a.is_modified,
                caret: a.caret,
            },
            ..self
        }
    }

    /// The session with the status bar refreshed from the current
    /// document state.
    pub open spec fn with_status_refreshed(self) -> EditorModel {
        self.with_edit_area(self.edit_area)
    }
}

/// One editing session over one file.
pub struct Editor {
    pub file_info: FileInfo,
    pub edit_area: EditArea,
    pub status_bar: StatusBar,
    pub cmd_line: CmdLine,
    pub mode: Mode,
    pub find_context: FindContext,
    pub is_quit: bool,
}

impl View for Editor {
    type V = EditorModel;

    open spec fn view(&self) -> EditorModel {
        EditorModel {
            file_info: self.file_info@,
            edit_area: self.edit_area@,
            status_bar: self.status_bar@,
            cmd_line: self.cmd_line@,
            mode: self.mode,
            find: self.find_context@,
            is_quit: self.is_quit,
        }
    }
}

impl Editor {
    /// A fresh session on the given path: an empty one-line document,
    /// editing mode, nothing to quit, and the status bar already
    /// reflecting the empty document.  The caller sizes the session
    /// with `resize_all` and fills the document with `load`.
    pub fn new(file_path: &str) -> (r: Editor)
        ensures
            r@.file_info == (FileInfoModel {
                name: display_name_of(file_path@),
                file_type: file_type_of(file_path@),
                path: final_path_of(file_path@),
            }),
            r@.edit_area == (EditAreaModel {
                size: Size { width: 0, height: 0 },
                lines: seq![Seq::<crate::cell::CellModel>::empty()],
                is_modified: false,
                caret: DocumentCoordinate { line_idx: 0, cell_idx: 0 },
                scroll_offset: crate::coords::TerminalCoordinate { row: 0, col: 0 },
            }),
            r@.cmd_line == (CmdLineModel {
                size: Size { width: 0, height: 0 },
                row: 0,
                prompt: Seq::empty(),
                input: Seq::empty(),
                caret: DocumentCoordinate { line_idx: 0, cell_idx: 0 },
            }),
            r@.mode == Mode::EditMode,
            r@.find.query == Seq::<char>::empty(),
            r@.find.results == Seq::<DocumentCoordinate>::empty(),
            r@.is_quit == false,
            r@.status_bar == (StatusBarModel {
                size: Size { width: 0, height: 0 },
                file_info: r@.file_info,
                total_lines: 1,
                is_modified: false,
                caret: DocumentCoordinate { line_idx: 0, cell_idx: 0 },
            }),
            r@.wf(),
    {
        let mut editor = Editor {
            file_info: FileInfo::from(file_path),
            edit_area: EditArea::default(),
            status_bar: StatusBar::default(),
            cmd_line: CmdLine::default(),
            mode: Mode::EditMode,
            find_context: FindContext::default(),
            is_quit: false,
        };
        editor.update_status();
        editor
    }

    /// The file's metadata.
    pub fn get_file_info(&self) -> (r: &FileInfo)
        ensures
            r@ == self@.file_info,
    {
        &self.file_info
    }

    /// Borrows the document area.
    pub fn get_edit_area(&self) -> (r: &EditArea)
        ensures
            r@ == self@.edit_area,
    {
        &self.edit_area
    }

    /// Mutably borrows the document area; everything else is
    /// untouched.
    pub fn get_mut_edit_area(&mut self) -> (r: &mut EditArea)
        ensures
            *r == old(self).edit_area,
            final(self).edit_area == *final(r),
            final(self).file_info == old(self).file_info,
            final(self).status_bar == old(self).status_bar,
            final(self).cmd_line == old(self).cmd_line,
            final(self).mode == old(self).mode,
            final(self).find_context == old(self).find_context,
            final(self).is_quit == old(self).is_quit,
    {
        &mut self.edit_area
    }

    /// Borrows the status bar.
    pub fn get_status_bar(&self) -> (r: &StatusBar)
        ensures
            r@ == self@.status_bar,
    {
        &self.status_bar
    }

    /// Borrows the command line.
    pub fn get_cmd_line(&self) -> (r: &CmdLine)
        ensures
            r@ == self@.cmd_line,
    {
        &self.cmd_line
    }

    /// Borrows the find context.
    pub fn get_find_context(&self) -> (r: &FindContext)
        ensures
            r@ == self@.find,
    {
        &self.find_context
    }

    /// Whether a quit command has been accepted.
    pub fn get_is_quit(&self) -> (r: bool)
        ensures
            r == self@.is_quit,
    {
        self.is_quit
    }

    /// Sets the quit flag.
    pub fn set_is_quit(&mut self, is_quit: bool)
        ensures
            final(self)@ == (EditorModel { is_quit, ..old(self)@ }),
    {
        self.is_quit = is_quit;
    }

    /// Refreshes the status bar from the current document state.
    pub fn update_status(&mut self)
        ensures
            final(self)@ == old(self)@.with_status_refreshed(),
    {
        let file_info = self.file_info.clone();
        let total_lines = self.edit_area.get_lines_count();
        let is_modified = self.edit_area.get_is_modified();
        let caret = *self.edit_area.get_caret();
        self.status_bar.update_status(file_info, total_lines, is_modified, caret);
    }

    /// Lays the components out for a terminal of the given size: the
    /// status bar keeps its two rows, the command line its one row on
    /// the terminal's last row, and the edit area gets the rest.
    pub fn resize_all(&mut self, terminal_size: Size)
        ensures
            final(self)@ == (EditorModel {
                status_bar: StatusBarModel {
                    size: Size { width: terminal_size.width, height: STATUS_BAR_ROWS },
                    ..old(self)@.status_bar
                },
                cmd_line: CmdLineModel {
                    size: Size { width: terminal_size.width, height: 1 },
                    row: cap_sub(terminal_size.height as nat, 1) as usize,
                    ..old(self)@.cmd_line
                },
                edit_area: EditAreaModel {
                    size: Size {
                        width: terminal_size.width,
                        height: cap_sub(
                            cap_sub(terminal_size.height as nat, STATUS_BAR_ROWS as nat),
                            1,
                        ) as usize,
                    },
                    ..old(self)@.edit_area
                },
                ..old(self)@
            }),
    {
        self.status_bar.resize(terminal_size);
        self.cmd_line.resize(terminal_size, terminal_size.height.saturating_sub(1));
        let edit_height = terminal_size
            .height
            .saturating_sub(self.status_bar.size.height)
            .saturating_sub(self.cmd_line.size.height);
        self.edit_area.resize(Size { width: terminal_size.width, height: edit_height });
    }

    /// What a completed save leaves behind: the modified flag cleared,
    /// the status bar refreshed, and the save prompt shown.
    pub open spec fn spec_mark_saved(m: EditorModel) -> EditorModel {
        let e1 = EditorModel {
            edit_area: EditAreaModel { is_modified: false, ..m.edit_area },
            ..m
        }.with_status_refreshed();
        EditorModel {
            cmd_line: CmdLineModel {
                prompt: cells_of_str("File saved"@),
                caret: DocumentCoordinate { line_idx: m.cmd_line.row, cell_idx: 0 },
                ..e1.cmd_line
            },
            ..e1
        }
    }

    /// Records that the run loop wrote the document out successfully:
    /// clears the modified flag, refreshes the status bar, and shows
    /// the save prompt.  A failed save calls nothing, so the modified
    /// flag survives for a retry.
    pub fn mark_saved(&mut self)
        requires
            old(self)@.wf(),
        ensures
            final(self)@ == Self::spec_mark_saved(old(self)@),
            final(self)@.wf(),
    {
        self.edit_area.set_is_modified(false);
        self.update_status();
        self.cmd_line.set_prompt_for_save();
    }

    /// Arms the find command: command-line mode, editing the query,
    /// with the find prompt shown.
    pub fn enable_cmd_find(&mut self)
        ensures
            final(self)@ == (EditorModel {
                mode: Mode::CmdLineMode { armed: Some(DelayCmd::Find), editing: true },
                cmd_line: CmdLineModel {
                    prompt: cells_of_str("Find: "@),
                    caret: DocumentCoordinate { line_idx: old(self)@.cmd_line.row, cell_idx: 0 },
                    ..old(self)@.cmd_line
                },
                ..old(self)@
            }),
    {
        self.mode = Mode::CmdLineMode { armed: Some(DelayCmd::Find), editing: true };
        self.cmd_line.set_prompt_for_find();
    }

    /// Leaves command-line mode: back to editing, with the prompt and
    /// the input cleared.  Does nothing in editing mode.
    pub fn disable_cmd_line(&mut self)
        ensures
            final(self)@ == (match old(self)@.mode {
                Mode::CmdLineMode { .. } => EditorModel {
                    mode: Mode::EditMode,
                    cmd_line: CmdLineModel {
                        prompt: Seq::empty(),
                        input: Seq::empty(),
                        caret: DocumentCoordinate {
                            line_idx: old(self)@.cmd_line.row,
                            cell_idx: 0,
                        },
                        ..old(self)@.cmd_line
                    },
                    ..old(self)@
                },
                Mode::EditMode => old(self)@,
            }),
    {
        match self.mode {
            Mode::CmdLineMode { .. } => {
                self.mode = Mode::EditMode;
                self.cmd_line.clear();
            },
            Mode::EditMode => {},
        }
    }

    /// Confirms the delayed command being edited: the input becomes
    /// the stored find query (in its saved text form, placeholders
    /// reversed) and the session moves to the command's post-confirm
    /// phase.
    pub fn confirm_delay_cmd(&mut self, armed: Option<DelayCmd>)
        ensures
            final(self)@ == (EditorModel {
                mode: Mode::CmdLineMode { armed, editing: false },
                find: FindContextModel {
                    query: line_saved_text(old(self)@.cmd_line.input),
                    results: old(self)@.find.results,
                },
                ..old(self)@
            }),
    {
        let query = self.cmd_line.input.to_text();
        self.find_context.set_query(query);
        self.mode = Mode::CmdLineMode { armed, editing: false };
    }
}

} // verus!

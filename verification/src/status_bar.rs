//! The status bar: a snapshot of the editor's state (file, line
//! count, modified flag, caret) refreshed after commands run.
//!
//! Formatting the snapshot into terminal text is presentation work and
//! lives with the rest of the drawing code, outside the core.

use vstd::prelude::*;

use crate::coords::{DocumentCoordinate, Size};
use crate::file_info::{FileInfo, FileInfoModel};

verus! {

/// The number of terminal rows the status bar occupies: one for the
/// file path, one for the summary line.
pub const STATUS_BAR_ROWS: usize = 2;

/// The mathematical content of the status bar.
pub ghost struct StatusBarModel {
    pub size: Size,
    pub file_info: FileInfoModel,
    pub total_lines: nat,
    pub is_modified: bool,
    pub caret: DocumentCoordinate,
}

/// The two-row strip showing the document's state.
pub struct StatusBar {
    pub size: Size,
    pub file_info: FileInfo,
    pub total_lines: usize,
    pub is_modified: bool,
    pub caret: DocumentCoordinate,
}

impl View for StatusBar {
    type V = StatusBarModel;

    open spec fn view(&self) -> StatusBarModel {
        StatusBarModel {
            size: self.size,
            file_info: self.file_info@,
            total_lines: self.total_lines as nat,
            is_modified: self.is_modified,
            caret: self.caret,
        }
    }
}

impl Default for StatusBar {
    /// An empty snapshot.
    fn default() -> (r: Self)
        ensures
            r@.size == (Size { width: 0, height: 0 }),
            r@.file_info == (FileInfoModel {
                name: Seq::<char>::empty(),
                file_type: crate::file_info::FileType::Text,
                path: Seq::<char>::empty(),
            }),
            r@.total_lines == 0,
            r@.is_modified == false,
            r@.caret == (DocumentCoordinate { line_idx: 0, cell_idx: 0 }),
    {
        StatusBar {
            size: Size::default(),
            file_info: FileInfo::default(),
            total_lines: 0,
            is_modified: false,
            caret: DocumentCoordinate::default(),
        }
    }
}

impl StatusBar {
    /// The strip's size.
    pub fn size(&self) -> (r: &Size)
        ensures
            r == self@.size,
    {
        &self.size
    }

    /// Gives the strip the terminal's width and its fixed two rows.
    pub fn resize(&mut self, size: Size)
        ensures
            final(self)@ == (StatusBarModel {
                size: Size { width: size.width, height: STATUS_BAR_ROWS },
                ..old(self)@
            }),
    {
        self.size = Size { width: size.width, height: 2 };
    }

    /// Replaces the snapshot.
    pub fn update_status(
        &mut self,
        file_info: FileInfo,
        total_lines: usize,
        is_modified: bool,
        caret: DocumentCoordinate,
    )
        ensures
            final(self)@ == (StatusBarModel {
                size: old(self)@.size,
                file_info: file_info@,
                total_lines: total_lines as nat,
                is_modified,
                caret,
            }),
    {
        self.file_info = file_info;
        self.total_lines = total_lines;
        self.is_modified = is_modified;
        self.caret = caret;
    }
}

} // verus!

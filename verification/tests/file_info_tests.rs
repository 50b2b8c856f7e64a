//! Tests for file metadata: names, extensions and types.

use celledit::file_info::{FileInfo, FileType};

#[test]
fn rust_source_is_recognized() {
    let info = FileInfo::from("src/main.rs");
    assert_eq!(info.get_name(), "main.rs");
    assert_eq!(*info.get_file_type(), FileType::Rust);
    assert_eq!(info.get_path_str(), "src/main.rs");
}

#[test]
fn rust_extension_ignores_ascii_case() {
    let info = FileInfo::from("LIB.RS");
    assert_eq!(*info.get_file_type(), FileType::Rust);
}

#[test]
fn missing_extension_gets_txt() {
    let info = FileInfo::from("notes");
    assert_eq!(info.get_path_str(), "notes.txt");
    assert_eq!(info.get_name(), "notes.txt");
    assert_eq!(*info.get_file_type(), FileType::Text);
}

#[test]
fn dotfile_has_no_extension() {
    let info = FileInfo::from("dir/.hidden");
    assert_eq!(info.get_path_str(), "dir/.hidden.txt");
    assert_eq!(*info.get_file_type(), FileType::Text);
}

#[test]
fn empty_file_name_falls_back_to_given_text() {
    let info = FileInfo::from("dir/");
    assert_eq!(info.get_path_str(), "dir/");
    assert_eq!(info.get_name(), "dir/");
    assert_eq!(*info.get_file_type(), FileType::Text);
}

#[test]
fn trailing_dot_counts_as_an_extension() {
    let info = FileInfo::from("foo.");
    assert_eq!(info.get_path_str(), "foo.");
    assert_eq!(*info.get_file_type(), FileType::Text);
}

#[test]
fn file_type_names() {
    assert_eq!(FileType::Rust.to_string(), "Rust");
    assert_eq!(FileType::Text.to_string(), "Text");
}

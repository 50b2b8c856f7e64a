//! File metadata shown by the editor: the file's path, its display
//! name, and its type.
//!
//! Paths are plain strings here.  The file name is the text after the
//! last `/`; a name has an extension when it holds a `.` after its
//! first character, and a name without one is given `.txt`, as the
//! editor always saves plain text by default.

use vstd::prelude::*;
use vstd::string::StringExecFns;

use crate::unicode::char_to_string;

verus! {

/// The kinds of file the editor distinguishes.
#[derive(Clone, Copy, PartialEq, Eq, Structural, Debug)]
pub enum FileType {
    Rust,
    Text,
}

/// The display name of a file type.
pub open spec fn file_type_name(t: FileType) -> Seq<char> {
    match t {
        FileType::Rust => seq!['R', 'u', 's', 't'],
        FileType::Text => seq!['T', 'e', 'x', 't'],
    }
}

impl Default for FileType {
    /// Plain text, the type of everything that is not Rust source.
    fn default() -> (r: Self)
        ensures
            r == FileType::Text,
    {
        FileType::Text
    }
}

impl FileType {
    /// The display name of this file type.
    pub fn to_string(&self) -> (r: String)
        ensures
            r@ == file_type_name(*self),
    {
        proof {
            reveal_strlit("Rust");
            reveal_strlit("Text");
            assert("Rust"@ =~= seq!['R', 'u', 's', 't']);
            assert("Text"@ =~= seq!['T', 'e', 'x', 't']);
        }
        match self {
            FileType::Rust => String::from_str("Rust"),
            FileType::Text => String::from_str("Text"),
        }
    }
}

/// The index of the last occurrence of `c` in `s`, or -1 when `s`
/// does not contain it.
pub open spec fn last_index_of_char(s: Seq<char>, c: char) -> int
    decreases s.len(),
{
    if s.len() == 0 {
        -1
    } else if s[s.len() - 1] == c {
        s.len() - 1
    } else {
        last_index_of_char(s.drop_last(), c)
    }
}

/// The file name of a path: the text after its last `/` (the whole
/// path when it has none).
pub open spec fn file_name_of(path: Seq<char>) -> Seq<char> {
    path.subrange(last_index_of_char(path, '/') + 1, path.len() as int)
}

/// The extension of a file name: the text after its last `.`, which
/// must come after the first character (so dotfiles have none), or
/// nothing.
pub open spec fn extension_of(name: Seq<char>) -> Option<Seq<char>> {
    let dot = last_index_of_char(name, '.');
    if dot > 0 {
        Some(name.subrange(dot + 1, name.len() as int))
    } else {
        None
    }
}

/// The path the editor works with: the given one, with `.txt` added
/// when its (non-empty) file name has no extension.
pub open spec fn final_path_of(path: Seq<char>) -> Seq<char> {
    let name = file_name_of(path);
    if name.len() > 0 && extension_of(name) is None {
        path + seq!['.', 't', 'x', 't']
    } else {
        path
    }
}

/// Whether an extension spells `rs`, ASCII case ignored.
pub open spec fn is_rust_extension(e: Seq<char>) -> bool {
    e.len() == 2 && (e[0] == 'r' || e[0] == 'R') && (e[1] == 's' || e[1] == 'S')
}

/// The file type a path gets: Rust for an `rs` extension, text
/// otherwise.
pub open spec fn file_type_of(path: Seq<char>) -> FileType {
    match extension_of(file_name_of(final_path_of(path))) {
        Some(e) => if is_rust_extension(e) {
            FileType::Rust
        } else {
            FileType::Text
        },
        None => FileType::Text,
    }
}

/// The display name a path gets: the final path's file name, or the
/// originally given text when that name is empty.
pub open spec fn display_name_of(path: Seq<char>) -> Seq<char> {
    let name = file_name_of(final_path_of(path));
    if name.len() > 0 {
        name
    } else {
        path
    }
}

/// The mathematical content of a `FileInfo`.
pub ghost struct FileInfoModel {
    pub name: Seq<char>,
    pub file_type: FileType,
    pub path: Seq<char>,
}

/// Name, type and path of the file being edited.
pub struct FileInfo {
    pub name: String,
    pub file_type: FileType,
    pub path: String,
}

impl View for FileInfo {
    type V = FileInfoModel;

    open spec fn view(&self) -> FileInfoModel {
        FileInfoModel { name: self.name@, file_type: self.file_type, path: self.path@ }
    }
}

impl Clone for FileInfo {
    fn clone(&self) -> (r: Self)
        ensures
            r@ == self@,
    {
        FileInfo {
            name: self.name.clone(),
            file_type: self.file_type,
            path: self.path.clone(),
        }
    }
}

impl Default for FileInfo {
    /// No name, no path, plain text.
    fn default() -> (r: Self)
        ensures
            r@.name == Seq::<char>::empty(),
            r@.file_type == FileType::Text,
            r@.path == Seq::<char>::empty(),
    {
        FileInfo { name: String::new(), file_type: FileType::Text, path: String::new() }
    }
}

impl FileInfo {
    /// Builds the metadata for a path: adds `.txt` to a file name
    /// without an extension, takes the name after the last `/` (or
    /// falls back to the given text), and derives the file type from
    /// the extension.
    pub fn from(file_path: &str) -> (r: Self)
        ensures
            r@.path == final_path_of(file_path@),
            r@.name == display_name_of(file_path@),
            r@.file_type == file_type_of(file_path@),
    {
        let mut chars = str_chars(file_path);

        let name_vec = chars_after_last(&chars, '/');
        let dot = rlast_index(&name_vec, '.');
        let has_extension = match dot {
            Some(i) => i > 0,
            None => false,
        };
        if name_vec.len() > 0 && !has_extension {
            chars.push('.');
            chars.push('t');
            chars.push('x');
            chars.push('t');
            proof {
                assert(chars@ =~= file_path@ + seq!['.', 't', 'x', 't']);
            }
        }
        proof {
            assert(chars@ == final_path_of(file_path@));
        }

        let final_name = chars_after_last(&chars, '/');
        let name = if final_name.len() > 0 {
            chars_to_string(&final_name)
        } else {
            String::from_str(file_path)
        };

        let final_dot = rlast_index(&final_name, '.');
        let file_type = match final_dot {
            Some(d) => if d > 0 && final_name.len() - d == 3 {
                let c0 = final_name[d + 1];
                let c1 = final_name[d + 2];
                if (c0 == 'r' || c0 == 'R') && (c1 == 's' || c1 == 'S') {
                    FileType::Rust
                } else {
                    FileType::Text
                }
            } else {
                FileType::Text
            },
            None => FileType::Text,
        };
        proof {
            assert(file_type == file_type_of(file_path@));
        }

        let path = chars_to_string(&chars);
        FileInfo { name, file_type, path }
    }

    /// The file's display name.
    pub fn get_name(&self) -> (r: &String)
        ensures
            r@ == self@.name,
    {
        &self.name
    }

    /// The file's type.
    pub fn get_file_type(&self) -> (r: &FileType)
        ensures
            *r == self@.file_type,
    {
        &self.file_type
    }

    /// The file's path.
    pub fn get_path(&self) -> (r: &String)
        ensures
            r@ == self@.path,
    {
        &self.path
    }

    /// The file's path as an owned string.
    pub fn get_path_str(&self) -> (r: String)
        ensures
            r@ == self@.path,
    {
        self.path.clone()
    }
}

/// The characters of a string, in order.
fn str_chars(s: &str) -> (r: Vec<char>)
    ensures
        r@ == s@,
{
    let n = s.unicode_len();
    let mut out: Vec<char> = Vec::new();
    let mut i: usize = 0;
    while i < n
        invariant
            i <= n == s@.len(),
            out@ =~= s@.subrange(0, i as int),
        decreases n - i,
    {
        out.push(s.get_char(i));
        proof {
            assert(out@ =~= s@.subrange(0, i as int + 1));
        }
        i += 1;
    }
    proof {
        assert(out@ =~= s@);
    }
    out
}

/// A string holding exactly the given characters.
fn chars_to_string(v: &Vec<char>) -> (r: String)
    ensures
        r@ == v@,
{
    let mut out = String::new();
    let mut i: usize = 0;
    while i < v.len()
        invariant
            i <= v@.len(),
            out@ =~= v@.subrange(0, i as int),
        decreases v@.len() - i,
    {
        let piece = char_to_string(v[i]);
        out.append(piece.as_str());
        proof {
            assert(out@ =~= v@.subrange(0, i as int + 1));
        }
        i += 1;
    }
    proof {
        assert(out@ =~= v@);
    }
    out
}

/// The index of the last occurrence of `c`, matching
/// `last_index_of_char`, as an option.
fn rlast_index(v: &Vec<char>, c: char) -> (r: Option<usize>)
    ensures
        match r {
            Some(i) => last_index_of_char(v@, c) == i && i < v@.len(),
            None => last_index_of_char(v@, c) == -1,
        },
{
    let mut i: usize = v.len();
    proof {
        assert(v@.subrange(0, v@.len() as int) =~= v@);
    }
    while i > 0
        invariant
            i <= v@.len(),
            last_index_of_char(v@, c) == last_index_of_char(v@.subrange(0, i as int), c),
        decreases i,
    {
        proof {
            assert(v@.subrange(0, i as int).drop_last() =~= v@.subrange(0, i as int - 1));
            assert(v@.subrange(0, i as int)[i as int - 1] == v@[i as int - 1]);
        }
        if v[i - 1] == c {
            return Some(i - 1);
        }
        i -= 1;
    }
    proof {
        assert(v@.subrange(0, 0) =~= Seq::<char>::empty());
    }
    None
}

/// The characters after the last occurrence of `c` (all of them when
/// `c` does not occur).
fn chars_after_last(v: &Vec<char>, c: char) -> (r: Vec<char>)
    ensures
        r@ == v@.subrange(last_index_of_char(v@, c) + 1, v@.len() as int),
{
    let n = v.len();
    let start = match rlast_index(v, c) {
        Some(i) => i + 1,
        None => 0,
    };
    let mut out: Vec<char> = Vec::new();
    let mut i: usize = start;
    while i < n
        invariant
            n == v@.len(),
            start <= i <= v@.len(),
            out@ =~= v@.subrange(start as int, i as int),
        decreases v@.len() - i,
    {
        out.push(v[i]);
        proof {
            assert(out@ =~= v@.subrange(start as int, i as int + 1));
        }
        i += 1;
    }
    proof {
        assert(out@ =~= v@.subrange(start as int, v@.len() as int));
    }
    out
}

} // verus!

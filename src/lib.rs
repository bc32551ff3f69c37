pub mod chords;
pub mod mode;
pub mod recorder;
pub mod recording;

use std::path::PathBuf;
use vstd::prelude::*;

verus! {

#[verifier::external_type_specification]
#[verifier::external_body]
pub struct ExPathBuf(PathBuf);

/// `r` is `name` up to, not including, its first `.`; all of `name` when it
/// has none.
pub open spec fn is_stem(name: Seq<char>, r: Seq<char>) -> bool {
    &&& r.len() <= name.len()
    &&& r == name.subrange(0, r.len() as int)
    &&& forall|k: int| 0 <= k < r.len() ==> r[k] != '.'
    &&& r.len() == name.len() || name[r.len() as int] == '.'
}

/// Relies on `Path::file_name` for the last component of the path (none when
/// the path ends in `..` or is a root), and on `OsStr::to_str`, which gives it
/// only when it is valid UTF-8.
#[verifier::external_body]
fn file_name_of(path: &PathBuf) -> (r: Option<String>) {
    match path.file_name() {
        Some(name) => match name.to_str() {
            Some(s) => Some(s.to_owned()),
            None => None,
        },
        None => None,
    }
}

/// The part of a file name before its first `.`.
pub fn stem(name: &str) -> (r: String)
    ensures
        is_stem(name@, r@),
{
    let n = name.unicode_len();
    let mut i: usize = 0;
    while i < n && name.get_char(i) != '.'
        invariant
            n == name@.len(),
            i <= n,
            forall|k: int| 0 <= k < i ==> name@[k] != '.',
        decreases n - i,
    {
        i = i + 1;
    }
    name.substring_char(0, i).to_owned()
}

/// The file name of `path` without its suffixes; `None` when the path has
/// no file name or it is not valid UTF-8.
pub fn filename_sans_suffix(path: &PathBuf) -> (r: Option<String>)
    ensures
        r is Some ==> forall|k: int| 0 <= k < r->0@.len() ==> r->0@[k] != '.',
{
    match file_name_of(path) {
        Some(name) => Some(stem(name.as_str())),
        None => None,
    }
}

} // verus!

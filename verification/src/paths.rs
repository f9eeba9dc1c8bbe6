//! Paths handled as strings: what std's `Path` makes of them is named, not
//! restated.

use vstd::prelude::*;

use crate::shell::opt_string_view;

verus! {

/// What `Path::file_stem` gives for a path, as UTF-8.
pub uninterp spec fn path_file_stem(path: Seq<char>) -> Option<Seq<char>>;

/// What `Path::file_name` gives for a path, as UTF-8.
pub uninterp spec fn path_file_name(path: Seq<char>) -> Option<Seq<char>>;

/// What `Path::join` gives for a directory and a file name, as a string.
pub uninterp spec fn path_join(dir: Seq<char>, file: Seq<char>) -> Seq<char>;

/// The stem of the file a path names: `std::path::Path::file_stem`, taken
/// as UTF-8 (`None` also when it is not UTF-8). The contract only names the
/// result (`path_file_stem`): how a path splits into components is left to
/// std.
#[verifier::external_body]
pub(crate) fn file_stem(path: &str) -> (r: Option<String>)
    ensures
        opt_string_view(r) == path_file_stem(path@),
{
    match std::path::Path::new(path).file_stem() {
        Some(stem) => match stem.to_str() {
            Some(t) => Some(t.to_string()),
            None => None,
        },
        None => None,
    }
}

/// The last component of a path: `std::path::Path::file_name`, taken as
/// UTF-8 (`None` also when it is not UTF-8). The contract only names the
/// result (`path_file_name`).
#[verifier::external_body]
pub(crate) fn file_name(path: &str) -> (r: Option<String>)
    ensures
        opt_string_view(r) == path_file_name(path@),
{
    match std::path::Path::new(path).file_name() {
        Some(name) => match name.to_str() {
            Some(t) => Some(t.to_string()),
            None => None,
        },
        None => None,
    }
}

/// A directory joined with a file name: `std::path::Path::join`, then
/// `to_string_lossy`. The contract only names the result (`path_join`): the
/// separator and the treatment of absolute names are left to std.
#[verifier::external_body]
pub(crate) fn join_path(dir: &str, file: &str) -> (r: String)
    ensures
        r@ == path_join(dir@, file@),
{
    std::path::Path::new(dir).join(file).to_string_lossy().to_string()
}

} // verus!

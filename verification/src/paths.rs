//! The parts of a file path that the library reads, taken from
//! `std::path::Path`, and lower-casing from `str`.
//!
//! Paths are held as `String`s. Each function below makes one call into std;
//! what it returns is named by a spec function of its argument, since the
//! rules of path syntax (for the platform the crate is built for) and of
//! Unicode case mapping take more than a few lines to state. The results are
//! pure functions of the argument for a given build.

use vstd::prelude::*;

verus! {

/// What `Path::file_name` gives for the path: its last component, unless
/// that is `..` or the path ends in the root or a prefix.
pub uninterp spec fn path_file_name(path: Seq<char>) -> Option<Seq<char>>;

/// What `Path::parent` gives for the path: the path without its last
/// component, or `None` for a root, a prefix or the empty path.
pub uninterp spec fn path_parent(path: Seq<char>) -> Option<Seq<char>>;

/// What `Path::file_stem` gives for the path: the file name without its
/// extension.
pub uninterp spec fn path_file_stem(path: Seq<char>) -> Option<Seq<char>>;

/// What `Path::extension` gives for the path: what follows the last `.` of
/// the file name, when there is such a `.` that does not start the name.
pub uninterp spec fn path_extension(path: Seq<char>) -> Option<Seq<char>>;

/// What `Path::join` gives for `base` and `name`.
pub uninterp spec fn path_join(base: Seq<char>, name: Seq<char>) -> Seq<char>;

/// What `str::to_lowercase` gives for `s`.
pub uninterp spec fn lowercase(s: Seq<char>) -> Seq<char>;

/// `std::path::Path::file_name`, as a `String`.
#[verifier::external_body]
pub(crate) fn file_name_of(path: &str) -> (out: Option<String>)
    ensures
        out matches Some(s) ==> path_file_name(path@) == Some(s@),
        out is None ==> path_file_name(path@) is None,
{
    match std::path::Path::new(path).file_name() {
        Some(s) => Some(s.to_string_lossy().into_owned()),
        None => None,
    }
}

/// `std::path::Path::parent`, as a `String`.
#[verifier::external_body]
pub(crate) fn parent_of(path: &str) -> (out: Option<String>)
    ensures
        out matches Some(s) ==> path_parent(path@) == Some(s@),
        out is None ==> path_parent(path@) is None,
{
    match std::path::Path::new(path).parent() {
        Some(p) => Some(p.to_string_lossy().into_owned()),
        None => None,
    }
}

/// `std::path::Path::file_stem`, as a `String`.
#[verifier::external_body]
pub(crate) fn file_stem_of(path: &str) -> (out: Option<String>)
    ensures
        out matches Some(s) ==> path_file_stem(path@) == Some(s@),
        out is None ==> path_file_stem(path@) is None,
{
    match std::path::Path::new(path).file_stem() {
        Some(s) => Some(s.to_string_lossy().into_owned()),
        None => None,
    }
}

/// `std::path::Path::extension`, as a `String`.
#[verifier::external_body]
pub(crate) fn extension_of(path: &str) -> (out: Option<String>)
    ensures
        out matches Some(s) ==> path_extension(path@) == Some(s@),
        out is None ==> path_extension(path@) is None,
{
    match std::path::Path::new(path).extension() {
        Some(s) => Some(s.to_string_lossy().into_owned()),
        None => None,
    }
}

/// `std::path::Path::join`, as a `String`.
#[verifier::external_body]
pub(crate) fn join_path(base: &str, name: &str) -> (out: String)
    ensures
        out@ == path_join(base@, name@),
{
    std::path::Path::new(base).join(name).to_string_lossy().into_owned()
}

/// `str::to_lowercase`.
#[verifier::external_body]
pub(crate) fn to_lowercase(s: &str) -> (out: String)
    ensures
        out@ == lowercase(s@),
{
    s.to_lowercase()
}

} // verus!

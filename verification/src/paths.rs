//! Path queries answered by `std::path::Path`.
//!
//! Paths are carried as strings; the questions asked of them (file name,
//! parent, extension, equality) are answered by the standard library, whose
//! component-based semantics are named here rather than re-implemented.

use vstd::prelude::*;

verus! {

/// `Path::file_name` of the path spelled by `p`, as text.
pub uninterp spec fn path_file_name(p: Seq<char>) -> Option<Seq<char>>;

/// `Path::parent` of the path spelled by `p`, as text.
pub uninterp spec fn path_parent(p: Seq<char>) -> Option<Seq<char>>;

/// `Path::extension` of the path spelled by `p`, as text.
pub uninterp spec fn path_extension(p: Seq<char>) -> Option<Seq<char>>;

/// `Path::eq`: component-wise equality of two paths.
pub uninterp spec fn same_path(a: Seq<char>, b: Seq<char>) -> bool;

/// `Path::join` of the path spelled by `base` with `name`, as text.
pub uninterp spec fn path_join(base: Seq<char>, name: Seq<char>) -> Seq<char>;

/// The views of an optional string.
pub open spec fn opt_view(o: Option<String>) -> Option<Seq<char>> {
    match o {
        Some(s) => Some(s@),
        None => None,
    }
}

/// Calls `Path::file_name` (then `OsStr::to_str`, which cannot fail on a
/// path built from a `&str`). Claims only that the result is the named
/// `path_file_name` of the argument.
#[verifier::external_body]
pub(crate) fn file_name(p: &str) -> (r: Option<String>)
    ensures
        opt_view(r) == path_file_name(p@),
{
    std::path::Path::new(p).file_name().and_then(|n| n.to_str()).map(|s| s.to_owned())
}

/// Calls `Path::parent` (then `Path::to_str`). Claims only that the result
/// is the named `path_parent` of the argument.
#[verifier::external_body]
pub(crate) fn parent(p: &str) -> (r: Option<String>)
    ensures
        opt_view(r) == path_parent(p@),
{
    std::path::Path::new(p).parent().and_then(|d| d.to_str()).map(|s| s.to_owned())
}

/// Calls `Path::extension` (then `OsStr::to_str`). Claims only that the
/// result is the named `path_extension` of the argument.
#[verifier::external_body]
pub(crate) fn extension(p: &str) -> (r: Option<String>)
    ensures
        opt_view(r) == path_extension(p@),
{
    std::path::Path::new(p).extension().and_then(|e| e.to_str()).map(|s| s.to_owned())
}

/// Calls `<Path as PartialEq>::eq`. Claims that the result is the named
/// `same_path` of the arguments, and that equal spellings are equal paths
/// (`Path` is `Eq`, so its equality is reflexive).
#[verifier::external_body]
pub(crate) fn paths_equal(a: &str, b: &str) -> (r: bool)
    ensures
        r == same_path(a@, b@),
        a@ == b@ ==> r,
{
    std::path::Path::new(a) == std::path::Path::new(b)
}

/// Calls `Path::join` (then `Path::to_string_lossy`, which is exact on a
/// path built from `&str` pieces). Claims only that the result is the named
/// `path_join` of the arguments.
#[verifier::external_body]
pub(crate) fn join_path(base: &str, name: &str) -> (r: String)
    ensures
        r@ == path_join(base@, name@),
{
    std::path::Path::new(base).join(name).to_string_lossy().into_owned()
}

/// Calls `Path::exists`. The answer depends on the file system, so nothing
/// is claimed of it.
#[verifier::external_body]
pub(crate) fn path_exists(p: &str) -> bool {
    std::path::Path::new(p).exists()
}

} // verus!

//! File paths, held as text, and the two questions the library asks of them.

use vstd::prelude::*;

verus! {

/// Whether `std::path::Path` considers the two paths equal (it compares them
/// component by component, so `a/b` and `a//b/` are the same path).
pub uninterp spec fn same_path(a: Seq<char>, b: Seq<char>) -> bool;

/// The final component of a path, as `std::path::Path::file_name` gives it
/// (`None` when the path ends in `..` or has no components).
pub uninterp spec fn path_file_name(path: Seq<char>) -> Option<Seq<char>>;

/// `Path == Path`: compares two paths component by component.
/// Claimed: the result is `same_path` of the two texts, and identical texts are
/// equal paths (`Path` implements `Eq`, whose equality is reflexive).
#[verifier::external_body]
pub(crate) fn paths_equal(a: &str, b: &str) -> (r: bool)
    ensures
        r == same_path(a@, b@),
        a@ == b@ ==> r,
{
    std::path::Path::new(a) == std::path::Path::new(b)
}

/// Establishes that a path is the same path as itself, by comparing it with itself.
pub(crate) fn same_path_as_itself(p: &str)
    ensures
        same_path(p@, p@),
{
    let _same = paths_equal(p, p);
}

/// `Path::file_name`, turned into an owned `String`.
/// Claimed: the result is `path_file_name` of the text. A name taken from a
/// `&str` is always valid UTF-8, so the conversion loses nothing.
#[verifier::external_body]
pub(crate) fn file_name(path: &str) -> (r: Option<String>)
    ensures
        match r {
            Some(n) => path_file_name(path@) == Some(n@),
            None => path_file_name(path@) is None,
        },
{
    std::path::Path::new(path).file_name().and_then(|n| n.to_str()).map(|n| n.to_owned())
}

} // verus!

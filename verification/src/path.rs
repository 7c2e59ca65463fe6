//! Paths, held as text; their parent and their children are computed by the
//! standard library.
use crate::text::optional_text;
use vstd::prelude::*;

verus! {

/// The parent of a path as `std::path::Path::parent` gives it: the path
/// without its final component, and nothing for a root or an empty path.
pub uninterp spec fn parent_path(path: Seq<char>) -> Option<Seq<char>>;

/// Calls `std::path::Path::parent`. Believed, not proved: the result is
/// what `Path::parent` returns for this path.
#[verifier::external_body]
pub(crate) fn path_parent(path: &str) -> (parent: Option<String>)
    ensures
        optional_text(parent) == parent_path(path@),
{
    std::path::Path::new(path).parent().map(|p| p.to_string_lossy().into_owned())
}

/// The path of the entry `name` of the directory `base`, as
/// `std::path::Path::join` gives it.
pub uninterp spec fn joined_path(base: Seq<char>, name: Seq<char>) -> Seq<char>;

/// Calls `std::path::Path::join`. Believed, not proved: the result is what
/// `Path::join` returns for this directory and name.
#[verifier::external_body]
pub(crate) fn path_join(base: &str, name: &str) -> (path: String)
    ensures
        path@ == joined_path(base@, name@),
{
    std::path::Path::new(base).join(name).to_string_lossy().into_owned()
}

} // verus!

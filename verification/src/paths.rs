//! File-system paths as text.
//!
//! The library holds a path as the string it is written as and leaves the
//! rules of path syntax to `std::path`: what a parent is, when a path is
//! absolute and how two paths are joined is what `std::path` says of the
//! text, on the platform that the library is built for. Nothing here
//! touches the file system.

use std::path::Path;
use vstd::prelude::*;

verus! {

/// What `Path::parent` gives for the path written as `path`: the path without
/// its final component, or `None` where there is nothing to take off.
pub uninterp spec fn path_parent(path: Seq<char>) -> Option<Seq<char>>;

/// What `Path::is_absolute` gives for the path written as `path`.
pub uninterp spec fn path_is_absolute(path: Seq<char>) -> bool;

/// What `Path::join` gives for the directory written as `base` and the path
/// written as `path`.
pub uninterp spec fn path_join(base: Seq<char>, path: Seq<char>) -> Seq<char>;

/// `Path::parent`, from text to text.
#[verifier::external_body]
pub(crate) fn parent_of_path(path: &str) -> (r: Option<String>)
    ensures
        crate::text::option_text(r) == path_parent(path@),
{
    Path::new(path).parent().map(|p| p.to_string_lossy().into_owned())
}

/// `Path::is_absolute`.
#[verifier::external_body]
pub(crate) fn is_absolute_path(path: &str) -> (r: bool)
    ensures
        r == path_is_absolute(path@),
{
    Path::new(path).is_absolute()
}

/// `Path::join`, from text to text.
#[verifier::external_body]
pub(crate) fn join_paths(base: &str, path: &str) -> (r: String)
    ensures
        r@ == path_join(base@, path@),
{
    Path::new(base).join(path).to_string_lossy().into_owned()
}

} // verus!

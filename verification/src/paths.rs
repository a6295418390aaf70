//! Display names derived from filesystem paths.

use vstd::prelude::*;

verus! {

/// The final component of a path as `std::path::Path::file_name` sees it on
/// the platform the library is built for, or `None` where the path has none
/// (it is empty, a root, or ends in `..`).
pub uninterp spec fn final_component(path: Seq<char>) -> Option<Seq<char>>;

/// `Path::file_name` on `path`, handed back as an owned string.
///
/// The contract only gives the result its name: what the final component of
/// a path is stays with std.
#[verifier::external_body]
fn path_file_name(path: &str) -> (name: Option<String>)
    ensures
        name.deep_view() == final_component(path@),
{
    std::path::Path::new(path).file_name().map(|name| name.to_string_lossy().to_string())
}

/// The display name of the document at `path`: its final path component.
pub fn file_name(path: &str) -> (name: Option<String>)
    ensures
        name.deep_view() == final_component(path@),
{
    path_file_name(path)
}

} // verus!

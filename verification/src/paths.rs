//! The few questions the library asks of file paths. Paths are texts; what they
//! mean is up to the rules of the platform, which `std::path` knows.
use std::path::Path;
use vstd::prelude::*;

verus! {

/// The path that `std::path::Path::join` makes of a path and one to append.
pub uninterp spec fn joined_path(base: Seq<char>, name: Seq<char>) -> Seq<char>;

/// The path that `std::path::Path::with_file_name` makes of a path and a file name.
pub uninterp spec fn path_beside(path: Seq<char>, name: Seq<char>) -> Seq<char>;

/// The path that `std::path::Path::with_extension` makes of a path and an extension.
pub uninterp spec fn path_with_extension(path: Seq<char>, extension: Seq<char>) -> Seq<char>;

/// What `std::path::Path::parent` says of a path.
pub uninterp spec fn path_parent(path: Seq<char>) -> Option<Seq<char>>;

/// What `std::path::Path::file_name` says of a path.
pub uninterp spec fn path_file_name(path: Seq<char>) -> Option<Seq<char>>;

/// Calls `std::path::Path::join`, whose result is named [`joined_path`]: the second
/// path appended to the first by the rules of the platform.
#[verifier::external_body]
pub(crate) fn join_path(base: &str, name: &str) -> (joined: String)
    ensures
        joined@ == joined_path(base@, name@),
{
    Path::new(base).join(name).to_string_lossy().into_owned()
}

/// Calls `std::path::Path::with_file_name`, whose result is named [`path_beside`]:
/// the path with its last component replaced.
#[verifier::external_body]
pub(crate) fn beside_path(path: &str, name: &str) -> (beside: String)
    ensures
        beside@ == path_beside(path@, name@),
{
    Path::new(path).with_file_name(name).to_string_lossy().into_owned()
}

/// Calls `std::path::Path::with_extension`, whose result is named
/// [`path_with_extension`]: the path with its extension replaced, or added. The
/// extension must hold no path separator. As what `std::path` takes for the extension
/// of a file holds no dot, putting one that does in its place gives another path.
#[verifier::external_body]
pub(crate) fn extended_path(path: &str, extension: &str) -> (extended: String)
    requires
        !extension@.contains('/'),
        !extension@.contains('\\'),
    ensures
        extended@ == path_with_extension(path@, extension@),
        path_file_name(path@) is Some && extension@.contains('.') ==> extended@ != path@,
{
    Path::new(path).with_extension(extension).to_string_lossy().into_owned()
}

/// Calls `std::path::Path::parent`, whose result is named [`path_parent`]: the path
/// without its last component, if it has one.
#[verifier::external_body]
pub(crate) fn parent_path(path: &str) -> (parent: Option<String>)
    ensures
        match parent {
            Some(text) => path_parent(path@) == Some(text@),
            None => path_parent(path@) is None,
        },
{
    Path::new(path).parent().map(|p| p.to_string_lossy().into_owned())
}

/// Calls `std::path::Path::file_name`, whose result is named [`path_file_name`]: the
/// last component of a path that does not end in `..`.
#[verifier::external_body]
pub(crate) fn last_component(path: &str) -> (name: Option<String>)
    ensures
        match name {
            Some(text) => path_file_name(path@) == Some(text@),
            None => path_file_name(path@) is None,
        },
{
    Path::new(path).file_name().map(|n| n.to_string_lossy().into_owned())
}

} // verus!

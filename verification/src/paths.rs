//! What this crate takes from `std::path`: whether a path is absolute, the
//! joining of two paths, and a path's last component.
//!
//! All three go by the path syntax of the platform that the crate is built
//! for, and by nothing else: they look at the text of a path only, never at
//! the file system or the environment. Their results are therefore named, not
//! defined: [`is_absolute_path`], [`joined_path`] and [`file_name_of`].

use vstd::prelude::*;

verus! {

/// Whether `path` is absolute in the platform's path syntax.
pub uninterp spec fn is_absolute_path(path: Seq<char>) -> bool;

/// The path that joining `path` to `base` gives in the platform's path
/// syntax.
pub uninterp spec fn joined_path(base: Seq<char>, path: Seq<char>) -> Seq<char>;

/// The last component of `path` in the platform's path syntax, where it is the
/// name of a file or directory; `None` where `path` ends otherwise.
pub uninterp spec fn file_name_of(path: Seq<char>) -> Option<Seq<char>>;

/// Calls `std::path::Path::is_absolute`.
///
/// Claimed: the result is the one that [`is_absolute_path`] names.
#[verifier::external_body]
pub(crate) fn path_is_absolute(path: &str) -> (absolute: bool)
    ensures
        absolute == is_absolute_path(path@),
{
    std::path::Path::new(path).is_absolute()
}

/// Calls `std::path::Path::join`.
///
/// Claimed: the result is the one that [`joined_path`] names. Both inputs are
/// strings, so the joined path is one too and nothing is lost in converting
/// it.
#[verifier::external_body]
pub(crate) fn path_join(base: &str, path: &str) -> (joined: String)
    ensures
        joined@ == joined_path(base@, path@),
{
    std::path::Path::new(base).join(path).to_string_lossy().into_owned()
}

/// Calls `std::path::Path::file_name`.
///
/// Claimed: the result is the one that [`file_name_of`] names. The path is a
/// string, so its last component is one too and nothing is lost in converting
/// it.
#[verifier::external_body]
pub(crate) fn path_file_name(path: &str) -> (name: Option<String>)
    ensures
        match name {
            Some(text) => file_name_of(path@) == Some(text@),
            None => file_name_of(path@) is None,
        },
{
    match std::path::Path::new(path).file_name() {
        Some(name) => Some(name.to_string_lossy().into_owned()),
        None => None,
    }
}

} // verus!

//! Path arithmetic on text.
//!
//! Paths are held as `String`s. How a path splits into a directory and a
//! final component, and how two paths combine, is the platform's business:
//! the standard library decides it, and this module only gives the results
//! names that contracts can speak of. Each name stands for what the
//! standard library computes on the platform the library is compiled for;
//! the result depends on the text alone, never on what is on disk.

use vstd::prelude::*;

verus! {

/// The directory part of `path` as `std::path::Path::parent` reports it, or
/// `None` where it reports none (the empty path, a root, a prefix).
pub uninterp spec fn parent_of(path: Seq<char>) -> Option<Seq<char>>;

/// `dir` with `name` adjoined, as `std::path::Path::join` builds it.
pub uninterp spec fn joined(dir: Seq<char>, name: Seq<char>) -> Seq<char>;

/// `path` as `std::path::Path`'s `Debug` formatting prints it: quoted, with
/// special characters escaped.
pub uninterp spec fn debug_text(path: Seq<char>) -> Seq<char>;

/// The view of an optional string.
pub open spec fn text_of(value: Option<String>) -> Option<Seq<char>> {
    match value {
        Some(s) => Some(s@),
        None => None,
    }
}

/// Calls `std::path::Path::parent` on `path`.
///
/// Trusted: the result is exactly what that method returns, converted back
/// to text. The parent of a path given as UTF-8 text is a prefix of it, so
/// the conversion loses nothing.
#[verifier::external_body]
pub(crate) fn parent(path: &str) -> (dir: Option<String>)
    ensures
        text_of(dir) == parent_of(path@),
{
    std::path::Path::new(path).parent().map(|p| p.to_string_lossy().into_owned())
}

/// Calls `std::path::Path::join` on `dir` with `name`.
///
/// Trusted: the result is exactly what that method returns, converted back
/// to text. Joining two paths given as UTF-8 text yields UTF-8 text, so the
/// conversion loses nothing.
#[verifier::external_body]
pub(crate) fn join(dir: &str, name: &str) -> (path: String)
    ensures
        path@ == joined(dir@, name@),
{
    std::path::Path::new(dir).join(name).to_string_lossy().into_owned()
}

/// Formats `path` with `std::path::Path`'s `Debug` implementation.
///
/// Trusted: the result is exactly the text that formatting produces.
#[verifier::external_body]
pub(crate) fn debug(path: &str) -> (text: String)
    ensures
        text@ == debug_text(path@),
{
    format!("{:?}", std::path::Path::new(path))
}

} // verus!

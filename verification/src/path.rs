//! Path operations of the standard library that the library relies on.
use std::path::Path;

use vstd::prelude::*;

verus! {

/// Whether the path `base` is a prefix of `path`, comparing whole components
/// (`Path::starts_with`).
pub uninterp spec fn spec_path_starts_with(path: Seq<char>, base: Seq<char>) -> bool;

/// Whether two paths have the same components (`Path` equality).
pub uninterp spec fn spec_path_eq(a: Seq<char>, b: Seq<char>) -> bool;

/// The path without its final component (`Path::parent`).
pub uninterp spec fn spec_path_parent(path: Seq<char>) -> Option<Seq<char>>;

/// `Path::new(path).starts_with(base)`.
///
/// Trusted: the result is named `spec_path_starts_with` of the two paths'
/// characters; the one fact stated is that a path starts with itself.
#[verifier::external_body]
pub(crate) fn path_starts_with(path: &str, base: &str) -> (r: bool)
    ensures
        r == spec_path_starts_with(path@, base@),
        path@ == base@ ==> r,
{
    Path::new(path).starts_with(Path::new(base))
}

/// `Path::new(a) == Path::new(b)`.
///
/// Trusted: the result is named `spec_path_eq` of the two paths' characters;
/// the one fact stated is that a path equals itself.
#[verifier::external_body]
pub(crate) fn path_eq(a: &str, b: &str) -> (r: bool)
    ensures
        r == spec_path_eq(a@, b@),
        a@ == b@ ==> r,
{
    Path::new(a) == Path::new(b)
}

/// `Path::new(path).parent()`, as text.
///
/// Trusted: the result is named `spec_path_parent` of the path's characters;
/// nothing else is stated.
#[verifier::external_body]
pub(crate) fn path_parent(path: &str) -> (r: Option<String>)
    ensures
        match r {
            Some(p) => spec_path_parent(path@) == Some(p@),
            None => spec_path_parent(path@) is None,
        },
{
    Path::new(path).parent().map(|p| p.to_string_lossy().into_owned())
}

/// The final component of a path, where it has one (`Path::file_name`).
pub uninterp spec fn spec_path_file_name(path: Seq<char>) -> Option<Seq<char>>;

/// `Path::new(path).file_name()`, as text.
///
/// Trusted: the result is named `spec_path_file_name` of the path's
/// characters; nothing else is stated.
#[verifier::external_body]
pub(crate) fn path_file_name(path: &str) -> (r: Option<String>)
    ensures
        match r {
            Some(n) => spec_path_file_name(path@) == Some(n@),
            None => spec_path_file_name(path@) is None,
        },
{
    Path::new(path).file_name().map(|n| n.to_string_lossy().into_owned())
}

/// What remains of `path` after its leading components `base`, where `base`
/// is a prefix of it (`Path::strip_prefix`).
pub uninterp spec fn spec_path_strip_prefix(path: Seq<char>, base: Seq<char>) -> Option<Seq<char>>;

/// `Path::new(path).strip_prefix(base)`, as text.
///
/// Trusted: the result is named `spec_path_strip_prefix` of the two paths'
/// characters; nothing else is stated.
#[verifier::external_body]
pub(crate) fn path_strip_prefix(path: &str, base: &str) -> (r: Option<String>)
    ensures
        match r {
            Some(s) => spec_path_strip_prefix(path@, base@) == Some(s@),
            None => spec_path_strip_prefix(path@, base@) is None,
        },
{
    match Path::new(path).strip_prefix(Path::new(base)) {
        Ok(p) => Some(p.to_string_lossy().into_owned()),
        Err(_) => None,
    }
}

/// `path` extended by `more` (`Path::join`).
pub uninterp spec fn spec_path_join(path: Seq<char>, more: Seq<char>) -> Seq<char>;

/// `Path::new(path).join(more)`, as text.
///
/// Trusted: the result is named `spec_path_join` of the two paths'
/// characters; nothing else is stated.
#[verifier::external_body]
pub(crate) fn path_join(path: &str, more: &str) -> (r: String)
    ensures
        r@ == spec_path_join(path@, more@),
{
    Path::new(path).join(more).to_string_lossy().into_owned()
}

/// The text of a path as `{:?}` prints it.
pub uninterp spec fn spec_path_debug(path: Seq<char>) -> Seq<char>;

/// `format!("{:?}", Path::new(path))`.
///
/// Trusted: the result is named `spec_path_debug` of the path's
/// characters; nothing else is stated.
#[verifier::external_body]
pub(crate) fn path_debug(path: &str) -> (r: String)
    ensures
        r@ == spec_path_debug(path@),
{
    format!("{:?}", Path::new(path))
}

} // verus!

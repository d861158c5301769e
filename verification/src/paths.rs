//! File-system paths, kept as texts. Joining and trimming are the standard
//! library's; this module only names what they return.

use vstd::prelude::*;

verus! {

/// The path that results from appending `rel` to the directory `base` the way
/// `std::path::Path::join` does it: with a separator where one is needed, and
/// with `rel` alone where `rel` is absolute.
pub uninterp spec fn joined_path(base: Seq<char>, rel: Seq<char>) -> Seq<char>;

/// A text without its leading and trailing white space, as `str::trim`
/// defines white space.
pub uninterp spec fn trimmed(text: Seq<char>) -> Seq<char>;

/// Whether two paths are the same path, as `std::path::Path` compares
/// paths: component by component.
pub uninterp spec fn same_path(a: Seq<char>, b: Seq<char>) -> bool;

/// `PartialEq` of `std::path::Path`. Paths that are written the same are
/// the same path.
#[verifier::external_body]
pub(crate) fn is_same_path(a: &str, b: &str) -> (r: bool)
    ensures
        r == same_path(a@, b@),
        a@ == b@ ==> r,
{
    std::path::Path::new(a) == std::path::Path::new(b)
}

/// `std::path::Path::join` on two paths that are valid Unicode.
#[verifier::external_body]
pub(crate) fn join(base: &str, rel: &str) -> (r: String)
    ensures
        r@ == joined_path(base@, rel@),
{
    std::path::Path::new(base).join(rel).to_string_lossy().into_owned()
}

/// `str::trim`.
#[verifier::external_body]
pub(crate) fn trim(text: &str) -> (r: String)
    ensures
        r@ == trimmed(text@),
{
    text.trim().to_string()
}

} // verus!

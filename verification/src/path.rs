//! Path arithmetic, done by the standard library on path text.
//!
//! Paths are held as text throughout this library. How a path splits into a
//! parent and a file name, and how a name is adjoined to a directory, is the
//! standard library's business and differs between platforms; the functions
//! here give those answers a name so that contracts can speak of them.

use vstd::prelude::*;

verus! {

/// The text of `std::path::Path::parent` of the path with text `path`, if it
/// has one.
pub uninterp spec fn path_parent(path: Seq<char>) -> Option<Seq<char>>;

/// The text of `std::path::Path::file_name` of the path with text `path`, if
/// it has one.
pub uninterp spec fn path_file_name(path: Seq<char>) -> Option<Seq<char>>;

/// The text of `std::path::Path::join` of the path with text `base` and the
/// path with text `tail`.
pub uninterp spec fn path_join(base: Seq<char>, tail: Seq<char>) -> Seq<char>;

/// Calls `std::path::Path::parent`: the path without its final component.
///
/// Not proved. The contract names the answer [`path_parent`] and adds what
/// the standard library documents of the empty path: it has no parent.
#[verifier::external_body]
pub(crate) fn parent(path: &str) -> (r: Option<String>)
    ensures
        r.deep_view() == path_parent(path@),
        path@.len() == 0 ==> r is None,
{
    match std::path::Path::new(path).parent() {
        Some(p) => Some(p.to_string_lossy().into_owned()),
        None => None,
    }
}

/// Calls `std::path::Path::file_name`: the final component of the path, if
/// that component is a name.
///
/// Not proved. The contract names the answer [`path_file_name`] and adds one
/// fact: the path `.` consists of the current-directory component alone,
/// which is no name.
#[verifier::external_body]
pub(crate) fn file_name(path: &str) -> (r: Option<String>)
    ensures
        r.deep_view() == path_file_name(path@),
        path@ == seq!['.'] ==> r is None,
{
    match std::path::Path::new(path).file_name() {
        Some(name) => Some(name.to_string_lossy().into_owned()),
        None => None,
    }
}

/// Calls `std::path::Path::join`: `tail` adjoined to `base`.
///
/// Not proved. The contract names the answer [`path_join`] and says nothing
/// more of it.
#[verifier::external_body]
pub(crate) fn join(base: &str, tail: &str) -> (r: String)
    ensures
        r@ == path_join(base@, tail@),
{
    std::path::Path::new(base).join(tail).to_string_lossy().into_owned()
}

} // verus!

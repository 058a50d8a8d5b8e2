//! The trusted boundary to path handling: the final component of a path,
//! and the two filesystem questions the lifecycle asks. The answers of the
//! filesystem depend on what is on disk and carry no contract; the final
//! component is a function of the path text alone and is named below.

use vstd::prelude::*;

verus! {

/// The final normal component of a path, if it has one: what
/// camino::Utf8Path::file_name returns for the path's text.
pub uninterp spec fn file_name_of(path: Seq<char>) -> Option<Seq<char>>;

/// Relies on camino::Utf8Path::file_name: the final component of the
/// path, or nothing when the path ends in `..`, is a root, or is empty.
/// The result depends on the path's characters alone.
#[verifier::external_body]
pub fn path_file_name(path: &String) -> (r: Option<String>)
    ensures
        r.deep_view() == file_name_of(path@),
{
    camino::Utf8Path::new(path.as_str()).file_name().map(|n| n.to_string())
}

/// Relies on camino::Utf8Path::is_file: whether the path points at a
/// regular file on disk right now.
#[verifier::external_body]
pub fn path_is_file(path: &String) -> (r: bool) {
    camino::Utf8Path::new(path.as_str()).is_file()
}

/// Relies on camino::Utf8Path::canonicalize_utf8: the absolute, resolved
/// form of the path, or nothing when it does not exist or cannot be
/// resolved.
#[verifier::external_body]
pub fn path_canonicalize(path: &String) -> (r: Option<String>) {
    match camino::Utf8Path::new(path.as_str()).canonicalize_utf8() {
        Ok(p) => Some(p.into_string()),
        Err(_) => None,
    }
}

} // verus!

//! The record emitted for one commit: every field a plain value, so that
//! contracts can speak of the whole record.

use vstd::prelude::*;

verus! {

/// One commit of a repository's history, as it is persisted.
pub struct GitLog {
    /// Commit hash, as hex text.
    pub commit_hash: String,
    /// First parent's hash; the all-zero hash for a root commit.
    pub parent_hash: String,
    /// Name of the author, after identity normalization.
    pub author_name: String,
    /// Email address of the author, never rewritten by normalization.
    pub author_email: String,
    /// Commit time in unix epoch seconds.
    pub commit_datetime: i64,
    /// Commit message, summary line only.
    pub message: String,
    /// Number of inserted lines in the commit's diff.
    pub insertions: usize,
    /// Number of deleted lines in the commit's diff.
    pub deletions: usize,
    /// Paths changed by the commit, in diff order.
    pub changed_files: Vec<String>,
}

} // verus!

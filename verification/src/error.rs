//! The error kinds a repository can fail with. Every failure of one
//! repository is reported through one of these and never aborts the batch.

use vstd::prelude::*;

verus! {

/// Why processing of one candidate directory stopped.
#[derive(Clone, Copy, PartialEq, Eq, Structural, Debug)]
pub enum RepoError {
    /// The path is a file, has no final component, or cannot be resolved.
    InvalidPath,
    /// The directory is not a repository.
    NotARepository,
    /// The repository has no resolvable head commit (for instance, it is empty).
    NoHead,
    /// The commit-graph walk itself failed.
    TraversalFailure,
    /// A schema, connection or transaction error of the store.
    PersistenceFailure,
}

impl RepoError {
    /// A short human-readable description of the error.
    pub fn message(&self) -> (r: &'static str)
        ensures
            r@ == self.message_spec(),
    {
        match self {
            RepoError::InvalidPath => "invalid path",
            RepoError::NotARepository => "not a git repository",
            RepoError::NoHead => "repository has no head commit",
            RepoError::TraversalFailure => "commit graph traversal failed",
            RepoError::PersistenceFailure => "database error",
        }
    }

    /// What `message` returns for each kind.
    pub open spec fn message_spec(&self) -> Seq<char> {
        match self {
            RepoError::InvalidPath => "invalid path"@,
            RepoError::NotARepository => "not a git repository"@,
            RepoError::NoHead => "repository has no head commit"@,
            RepoError::TraversalFailure => "commit graph traversal failed"@,
            RepoError::PersistenceFailure => "database error"@,
        }
    }
}

} // verus!

//! A changed file of one commit, and an ordered collection of them with a
//! verified textual rendering.

use vstd::prelude::*;
use vstd::string::*;

use crate::text::{join_spec, lemma_join_snoc};

verus! {

/// One file changed by a commit.
pub struct ChangedFile {
    commit_hash: String,
    path: String,
}

impl ChangedFile {
    /// The commit this change belongs to.
    pub closed spec fn commit_hash_spec(&self) -> Seq<char> {
        self.commit_hash@
    }

    /// The changed path.
    pub closed spec fn path_spec(&self) -> Seq<char> {
        self.path@
    }

    /// Records that `path` changed in the commit named by `commit_hash`.
    pub fn new(commit_hash: String, path: String) -> (r: Self)
        ensures
            r.commit_hash_spec() == commit_hash@,
            r.path_spec() == path@,
    {
        ChangedFile { commit_hash, path }
    }

    /// The changed path.
    pub fn path(&self) -> (r: &str)
        ensures
            r@ == self.path_spec(),
    {
        self.path.as_str()
    }
}

/// The changed files of one commit, in diff order.
pub struct ChangedFiles {
    inner: Vec<ChangedFile>,
}

impl ChangedFiles {
    /// The changed paths, in order.
    pub closed spec fn paths_spec(&self) -> Seq<Seq<char>> {
        self.inner@.map_values(|f: ChangedFile| f.path_spec())
    }

    /// How many files changed.
    pub fn len(&self) -> (r: usize)
        ensures
            r == self.paths_spec().len(),
    {
        self.inner.len()
    }

    /// The file at position `i`.
    pub fn get(&self, i: usize) -> (r: &ChangedFile)
        requires
            i < self.paths_spec().len(),
        ensures
            r.path_spec() == self.paths_spec()[i as int],
    {
        &self.inner[i]
    }

    /// The changed paths joined with a comma and a space, in order.
    pub fn joined(&self) -> (r: String)
        ensures
            r@ == join_spec(self.paths_spec(), ", "@),
    {
        let ghost parts = self.paths_spec();
        let mut out = String::new();
        let mut k: usize = 0;
        while k < self.inner.len()
            invariant
                0 <= k <= self.inner@.len(),
                parts == self.paths_spec(),
                parts.len() == self.inner@.len(),
                forall|m: int| 0 <= m < parts.len() ==> parts[m] == self.inner@[m].path_spec(),
                out@ == join_spec(parts.take(k as int), ", "@),
            decreases self.inner@.len() - k,
        {
            if k > 0 {
                out.append(", ");
            }
            out.append(self.inner[k].path.as_str());
            proof {
                assert(parts.take(k + 1) =~= parts.take(k as int).push(parts[k as int]));
                if k > 0 {
                    lemma_join_snoc(parts.take(k as int), ", "@, parts[k as int]);
                } else {
                    assert(parts.take(1) =~= seq![parts[0]]);
                    assert(join_spec(seq![parts[0]], ", "@) == parts[0]);
                    assert(out@ =~= Seq::<char>::empty() + parts[0]);
                }
            }
            k += 1;
        }
        proof {
            assert(parts.take(k as int) =~= parts);
        }
        out
    }
}

impl From<Vec<ChangedFile>> for ChangedFiles {
    /// Wraps a list of changes, keeping its order.
    fn from(files: Vec<ChangedFile>) -> (r: ChangedFiles) {
        ChangedFiles { inner: files }
    }
}

impl vstd::std_specs::convert::FromSpecImpl<Vec<ChangedFile>> for ChangedFiles {
    open spec fn obeys_from_spec() -> bool {
        true
    }

    closed spec fn from_spec(files: Vec<ChangedFile>) -> ChangedFiles {
        ChangedFiles { inner: files }
    }
}

/// What the conversion from a list of changes yields: the same paths, in
/// the same order.
pub proof fn lemma_from_changed_files(files: Vec<ChangedFile>)
    ensures
        <ChangedFiles as vstd::std_specs::convert::FromSpec<Vec<ChangedFile>>>::from_spec(
            files,
        ).paths_spec() == files@.map_values(|f: ChangedFile| f.path_spec()),
{
}

} // verus!

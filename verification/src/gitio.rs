//! The trusted boundary to the repository backend. Each function here makes
//! one operation of the git2 crate available to verified code, and its
//! contract states only what git2's source and documentation show. Results
//! that depend on what is on disk carry no contract beyond their shape, and
//! the verified callers take them as given values.

use vstd::prelude::*;

use crate::extract::CommitMeta;

verus! {

/// Declares git2's repository handle; opaque to verified code.
#[verifier::external_type_specification]
#[verifier::external_body]
pub struct ExRepository(git2::Repository);

/// Declares git2's error type; opaque to verified code.
#[verifier::external_type_specification]
#[verifier::external_body]
pub struct ExGitError(git2::Error);

/// Declares git2's tree-to-tree diff; opaque to verified code.
#[verifier::external_type_specification]
#[verifier::external_body]
pub struct ExDiff<'a>(git2::Diff<'a>);

/// Relies on git2::Repository::open: opens the repository at `path`, and
/// fails if there is none there.
#[verifier::external_body]
pub fn repo_open(path: &String) -> (r: Result<git2::Repository, git2::Error>) {
    git2::Repository::open(path.as_str())
}

/// Relies on git2::Repository::head and git2::Reference::target: the
/// identifier of the commit the head reference points at, in hex form.
#[verifier::external_body]
pub fn repo_head(repo: &git2::Repository) -> (r: Result<String, git2::Error>) {
    let head = repo.head()?;
    match head.target() {
        Some(oid) => Ok(oid.to_string()),
        None => Err(git2::Error::from_str("head is not a direct reference")),
    }
}

/// Relies on git2::Repository::revwalk, Revwalk::set_sorting with the
/// commit-time order, Revwalk::push and the walk itself: the identifiers
/// of the commits reachable from `head`, most recent first; identifiers
/// the walk could not produce are left out.
#[verifier::external_body]
pub fn revwalk_ids(repo: &git2::Repository, head: &String) -> (r: Result<
    Vec<String>,
    git2::Error,
>) {
    let oid = git2::Oid::from_str(head.as_str())?;
    let mut walk = repo.revwalk()?;
    walk.set_sorting(git2::Sort::TIME)?;
    walk.push(oid)?;
    Ok(walk.filter_map(|id| id.ok()).map(|id| id.to_string()).collect())
}

/// Relies on git2::Repository::find_commit and the commit accessors
/// parent_count, parent_id, tree, author, time and summary. The source
/// shows that parent_id(0) yields an identifier exactly when the commit
/// has at least one parent.
#[verifier::external_body]
pub fn commit_meta(repo: &git2::Repository, id: &String) -> (r: Option<CommitMeta>)
    ensures
        r matches Some(m) ==> (m.first_parent is Some <==> m.parent_count > 0),
{
    let oid = git2::Oid::from_str(id.as_str()).ok()?;
    let commit = repo.find_commit(oid).ok()?;
    let author = commit.author();
    Some(
        CommitMeta {
            parent_count: commit.parent_count(),
            first_parent: commit.parent_id(0).ok().map(|p| p.to_string()),
            tree_ok: commit.tree().is_ok(),
            author_name: author.name().ok().map(|n| n.to_string()),
            author_email: author.email().ok().map(|e| e.to_string()),
            time_seconds: commit.time().seconds(),
            summary: commit.summary().ok().flatten().map(|s| s.to_string()),
        },
    )
}

/// Relies on git2::Repository::diff_tree_to_tree between the commit's tree
/// and its first parent's tree (an empty tree when there is no parent),
/// with submodules ignored, type changes included and pathspec matching
/// disabled.
#[verifier::external_body]
pub fn diff_trees<'a>(repo: &'a git2::Repository, id: &String) -> (r: Option<git2::Diff<'a>>) {
    let commit = repo.find_commit(git2::Oid::from_str(id.as_str()).ok()?).ok()?;
    let parent_tree = commit.parent_id(0).ok().and_then(|p| repo.find_commit(p).ok()).and_then(
        |c| c.tree().ok(),
    );
    let mut opts = git2::DiffOptions::new();
    opts.disable_pathspec_match(true).ignore_submodules(true).include_typechange(true);
    repo.diff_tree_to_tree(parent_tree.as_ref(), Some(&commit.tree().ok()?), Some(&mut opts)).ok()
}

/// Relies on git2::Diff::find_similar restricted to byte-identical renames
/// and copies: collapses a delete and an identical add into one entry, and
/// says whether the detection ran.
#[verifier::external_body]
pub fn collapse_renames(diff: &mut git2::Diff) -> (r: bool) {
    let mut find = git2::DiffFindOptions::new();
    find.renames(true).copies(true).exact_match_only(true);
    diff.find_similar(Some(&mut find)).is_ok()
}

/// Relies on git2::Diff::deltas and DiffDelta::new_file: the new-side path
/// of every file change, in delta order; a delta without a path is left out.
#[verifier::external_body]
pub fn diff_paths(diff: &git2::Diff) -> (r: Vec<String>) {
    diff.deltas().filter_map(|d| d.new_file().path().map(|p| p.display().to_string())).collect()
}

/// Relies on git2::Diff::stats, DiffStats::insertions and
/// DiffStats::deletions: the line counts of the diff, or zero for both
/// when the stats cannot be computed.
#[verifier::external_body]
pub fn diff_stats(diff: &git2::Diff) -> (r: (usize, usize)) {
    match diff.stats() {
        Ok(stats) => (stats.insertions(), stats.deletions()),
        Err(_) => (0, 0),
    }
}

/// Relies on git2::Repository::find_remote and git2::Remote::url: the
/// configured location of the remote named "origin", if there is one.
#[verifier::external_body]
pub fn remote_url(repo: &git2::Repository) -> (r: Option<String>) {
    let remote = repo.find_remote("origin").ok()?;
    let url = remote.url().ok()?;
    Some(url.to_string())
}

} // verus!

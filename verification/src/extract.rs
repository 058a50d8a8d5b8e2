//! The commit-history extraction core: which commits are emitted, how a
//! commit's raw data becomes a record, and how author identities are
//! normalized. Everything here works on plain values.

use vstd::prelude::*;
use vstd::string::*;

use crate::config::{lookup_spec, AuthorMap};
use crate::error::RepoError;
use crate::gitio::{collapse_renames, commit_meta, diff_paths, diff_stats, diff_trees, revwalk_ids};
use crate::log::GitLog;
use crate::text::{zero_hash, zero_hash_spec};

verus! {

/// The raw data of one commit, read from the repository.
pub struct CommitMeta {
    /// How many parents the commit has; two or more marks a merge commit.
    pub parent_count: usize,
    /// The first parent's identifier, if one could be resolved.
    pub first_parent: Option<String>,
    /// Whether the commit's tree snapshot could be resolved.
    pub tree_ok: bool,
    /// The author's name, if the commit carries one.
    pub author_name: Option<String>,
    /// The author's email, if the commit carries one.
    pub author_email: Option<String>,
    /// Commit time in unix epoch seconds.
    pub time_seconds: i64,
    /// The summary line of the commit message, if there is one.
    pub summary: Option<String>,
}

/// The outcome of one commit's diff against its first parent.
pub struct DiffSummary {
    /// Lines added.
    pub insertions: usize,
    /// Lines removed.
    pub deletions: usize,
    /// Changed paths, renames and copies already collapsed.
    pub changed_files: Vec<String>,
}

/// Whether a commit is emitted: merge commits (two or more parents) and
/// commits without a resolvable tree are left out.
pub open spec fn emittable(m: CommitMeta) -> bool {
    m.parent_count < 2 && m.tree_ok
}

/// Executable form of `emittable`.
pub fn is_emittable(m: &CommitMeta) -> (r: bool)
    ensures
        r == emittable(*m),
{
    m.parent_count < 2 && m.tree_ok
}

/// The author email that is recorded: the raw one, or the sentinel when
/// the commit carries none.
pub open spec fn email_spec(raw: Option<Seq<char>>) -> Seq<char> {
    match raw {
        Some(e) => e,
        None => "(no author email)"@,
    }
}

/// The entry list of an optional author map.
pub open spec fn map_view(map: &Option<AuthorMap>) -> Option<Seq<(Seq<char>, Seq<char>)>> {
    match map {
        Some(m) => Some(m.entries.deep_view()),
        None => None,
    }
}

/// The author name that is recorded: the mapped display name when the map
/// has the (already defaulted) email, otherwise the raw name, otherwise
/// the sentinel.
pub open spec fn name_spec(
    raw_name: Option<Seq<char>>,
    email: Seq<char>,
    map: Option<Seq<(Seq<char>, Seq<char>)>>,
) -> Seq<char> {
    let base = match raw_name {
        Some(n) => n,
        None => "(no author name)"@,
    };
    match map {
        Some(entries) => match lookup_spec(entries, email) {
            Some(mapped) => mapped,
            None => base,
        },
        None => base,
    }
}

/// Resolves a commit's author name and email: missing parts become
/// sentinels, and the identity map rewrites the name, never the email.
pub fn resolve_author(
    raw_name: Option<String>,
    raw_email: Option<String>,
    map: &Option<AuthorMap>,
) -> (r: (String, String))
    ensures
        r.1@ == email_spec(raw_email.deep_view()),
        r.0@ == name_spec(raw_name.deep_view(), email_spec(raw_email.deep_view()), map_view(map)),
{
    let email = match raw_email {
        Some(e) => e,
        None => String::from_str("(no author email)"),
    };
    let mut name = match raw_name {
        Some(n) => n,
        None => String::from_str("(no author name)"),
    };
    match map {
        Some(m) => {
            match m.lookup(&email) {
                Some(mapped) => {
                    name = mapped;
                },
                None => {},
            }
        },
        None => {},
    }
    (name, email)
}

/// Builds the record of one commit from its raw data and the outcome of
/// its diff; a failed diff degrades to zero stats and no changed files.
pub fn build_log(
    id: String,
    meta: CommitMeta,
    diff: Option<DiffSummary>,
    map: &Option<AuthorMap>,
) -> (r: GitLog)
    ensures
        r.commit_hash == id,
        meta.first_parent matches Some(p) ==> r.parent_hash == p,
        meta.first_parent is None ==> r.parent_hash@ == zero_hash_spec(),
        r.author_email@ == email_spec(meta.author_email.deep_view()),
        r.author_name@ == name_spec(
            meta.author_name.deep_view(),
            email_spec(meta.author_email.deep_view()),
            map_view(map),
        ),
        r.commit_datetime == meta.time_seconds,
        meta.summary matches Some(s) ==> r.message == s,
        meta.summary is None ==> r.message@ == "(no commit summary)"@,
        diff matches Some(d) ==> r.insertions == d.insertions && r.deletions == d.deletions
            && r.changed_files == d.changed_files,
        diff is None ==> r.insertions == 0 && r.deletions == 0 && r.changed_files@.len() == 0,
{
    let (author_name, author_email) = resolve_author(meta.author_name, meta.author_email, map);
    let parent_hash = match meta.first_parent {
        Some(p) => p,
        None => zero_hash(),
    };
    let message = match meta.summary {
        Some(s) => s,
        None => String::from_str("(no commit summary)"),
    };
    let (insertions, deletions, changed_files) = match diff {
        Some(d) => (d.insertions, d.deletions, d.changed_files),
        None => (0, 0, Vec::new()),
    };
    GitLog {
        commit_hash: id,
        parent_hash,
        author_name,
        author_email,
        commit_datetime: meta.time_seconds,
        message,
        insertions,
        deletions,
        changed_files,
    }
}

/// The (identifier, data) pairs kept for emission, in input order: those
/// whose commit could be read and is emittable.
pub open spec fn selected_spec(loaded: Seq<(String, Option<CommitMeta>)>) -> Seq<
    (String, CommitMeta),
>
    decreases loaded.len(),
{
    if loaded.len() == 0 {
        Seq::empty()
    } else {
        let rest = selected_spec(loaded.drop_first());
        match loaded[0].1 {
            Some(m) => if emittable(m) {
                seq![(loaded[0].0, m)] + rest
            } else {
                rest
            },
            None => rest,
        }
    }
}

/// How many loaded entries are emittable.
pub open spec fn emittable_count(loaded: Seq<(String, Option<CommitMeta>)>) -> nat
    decreases loaded.len(),
{
    if loaded.len() == 0 {
        0
    } else {
        (match loaded[0].1 {
            Some(m) => if emittable(m) {
                1nat
            } else {
                0nat
            },
            None => 0nat,
        }) + emittable_count(loaded.drop_first())
    }
}

/// The number of records that will be emitted equals the number of
/// reachable commits whose data could be read, that are not merge
/// commits, and whose tree resolved: none is dropped, none is added.
pub proof fn lemma_selected_len(loaded: Seq<(String, Option<CommitMeta>)>)
    ensures
        selected_spec(loaded).len() == emittable_count(loaded),
    decreases loaded.len(),
{
    if loaded.len() == 0 {
    } else {
        lemma_selected_len(loaded.drop_first());
    }
}

/// Merge commits and commits without a resolvable tree are never
/// emitted: every selected commit is emittable.
pub proof fn lemma_selected_emittable(loaded: Seq<(String, Option<CommitMeta>)>)
    ensures
        forall|i: int|
            0 <= i < selected_spec(loaded).len() ==> emittable(
                #[trigger] selected_spec(loaded)[i].1,
            ),
    decreases loaded.len(),
{
    if loaded.len() == 0 {
    } else {
        lemma_selected_emittable(loaded.drop_first());
        let rest = selected_spec(loaded.drop_first());
        match loaded[0].1 {
            Some(m) => {
                if emittable(m) {
                    assert(forall|i: int|
                        0 <= i < selected_spec(loaded).len() ==> selected_spec(loaded)[i] == (
                        if i == 0 {
                            (loaded[0].0, m)
                        } else {
                            rest[i - 1]
                        }));
                }
            },
            None => {},
        }
    }
}

/// Keeps, in order, the loaded commits that are emitted.
pub fn select_commits(loaded: Vec<(String, Option<CommitMeta>)>) -> (r: Vec<(String, CommitMeta)>)
    ensures
        r@ == selected_spec(loaded@),
{
    let ghost orig = loaded@;
    let mut rest = loaded;
    let mut out: Vec<(String, CommitMeta)> = Vec::new();
    proof {
        assert(out@ + selected_spec(orig) =~= selected_spec(orig));
    }
    while rest.len() > 0
        invariant
            selected_spec(orig) == out@ + selected_spec(rest@),
        decreases rest@.len(),
    {
        let ghost rest0 = rest@;
        let ghost out0 = out@;
        let pair = rest.remove(0);
        proof {
            assert(rest@ =~= rest0.drop_first());
        }
        match pair.1 {
            Some(m) => {
                if is_emittable(&m) {
                    proof {
                        assert(selected_spec(rest0) == seq![(rest0[0].0, m)] + selected_spec(
                            rest0.drop_first(),
                        ));
                    }
                    out.push((pair.0, m));
                    proof {
                        assert(out0 + (seq![(rest0[0].0, m)] + selected_spec(rest@)) =~= out@
                            + selected_spec(rest@));
                    }
                } else {
                }
            },
            None => {},
        }
    }
    proof {
        assert(selected_spec(rest@) =~= Seq::<(String, CommitMeta)>::empty());
        assert(out@ + selected_spec(rest@) =~= out@);
    }
    out
}

/// Reads the raw data of every listed commit, keeping the input order;
/// one entry per identifier, whether or not its commit could be read.
pub fn load_metas(repo: &git2::Repository, ids: Vec<String>) -> (r: Vec<
    (String, Option<CommitMeta>),
>)
    ensures
        r@.len() == ids@.len(),
        forall|i: int| 0 <= i < ids@.len() ==> #[trigger] r@[i].0 == ids@[i],
{
    let ghost orig = ids@;
    let mut rest = ids;
    let mut out: Vec<(String, Option<CommitMeta>)> = Vec::new();
    while rest.len() > 0
        invariant
            orig.len() == out@.len() + rest@.len(),
            rest@ == orig.skip(out@.len() as int),
            forall|i: int| 0 <= i < out@.len() ==> #[trigger] out@[i].0 == orig[i],
        decreases rest@.len(),
    {
        let ghost rest0 = rest@;
        let id = rest.remove(0);
        let m = commit_meta(repo, &id);
        out.push((id, m));
        proof {
            assert(rest@ =~= orig.skip(out@.len() as int));
        }
    }
    out
}

/// The relation between an emitted record and the commit it came from, in
/// everything that does not depend on the diff: identifier, parent,
/// normalized author, time and message.
pub open spec fn log_matches(
    log: GitLog,
    id: String,
    m: CommitMeta,
    map: Option<Seq<(Seq<char>, Seq<char>)>>,
) -> bool {
    &&& log.commit_hash == id
    &&& m.first_parent matches Some(p) ==> log.parent_hash == p
    &&& m.first_parent is None ==> log.parent_hash@ == zero_hash_spec()
    &&& log.author_email@ == email_spec(m.author_email.deep_view())
    &&& log.author_name@ == name_spec(
        m.author_name.deep_view(),
        email_spec(m.author_email.deep_view()),
        map,
    )
    &&& log.commit_datetime == m.time_seconds
    &&& m.summary matches Some(s) ==> log.message == s
    &&& m.summary is None ==> log.message@ == "(no commit summary)"@
}

/// A root commit's record always carries the all-zero parent identifier:
/// a commit whose raw data was read (so that its first parent is present
/// exactly when it has parents) and that has no parents is emitted with
/// the zero hash as its parent.
pub proof fn lemma_root_parent_zero(
    log: GitLog,
    id: String,
    m: CommitMeta,
    map: Option<Seq<(Seq<char>, Seq<char>)>>,
)
    requires
        m.parent_count == 0,
        m.first_parent is Some <==> m.parent_count > 0,
        log_matches(log, id, m, map),
    ensures
        log.parent_hash@ == zero_hash_spec(),
{
}

/// Emits one record per selected commit, in order, computing each diff
/// against the first parent; a failed diff degrades to zero stats.
pub fn build_from(
    repo: &git2::Repository,
    selected: Vec<(String, CommitMeta)>,
    map: &Option<AuthorMap>,
) -> (r: Vec<GitLog>)
    ensures
        r@.len() == selected@.len(),
        forall|i: int|
            0 <= i < selected@.len() ==> log_matches(
                #[trigger] r@[i],
                selected@[i].0,
                selected@[i].1,
                map_view(map),
            ),
{
    let ghost orig = selected@;
    let mut rest = selected;
    let mut out: Vec<GitLog> = Vec::new();
    while rest.len() > 0
        invariant
            orig.len() == out@.len() + rest@.len(),
            rest@ == orig.skip(out@.len() as int),
            forall|i: int|
                0 <= i < out@.len() ==> log_matches(
                    #[trigger] out@[i],
                    orig[i].0,
                    orig[i].1,
                    map_view(map),
                ),
        decreases rest@.len(),
    {
        let pair = rest.remove(0);
        let summary = match diff_trees(repo, &pair.0) {
            Some(mut d) => {
                if collapse_renames(&mut d) {
                    let (insertions, deletions) = diff_stats(&d);
                    let changed_files = diff_paths(&d);
                    Some(DiffSummary { insertions, deletions, changed_files })
                } else {
                    None
                }
            },
            None => None,
        };
        let log = build_log(pair.0, pair.1, summary, map);
        out.push(log);
        proof {
            assert(rest@ =~= orig.skip(out@.len() as int));
        }
    }
    out
}

/// Walks the commit graph from `head` and emits the records of all
/// reachable non-merge commits with a resolvable tree, most recent first.
/// Only a failure of the walk itself is an error; per-commit problems
/// degrade as the parts above state.
pub fn extract_logs(repo: &git2::Repository, head: &String, map: &Option<AuthorMap>) -> (r: Result<
    Vec<GitLog>,
    RepoError,
>)
    ensures
        r matches Err(e) ==> e == RepoError::TraversalFailure,
{
    let ids = match revwalk_ids(repo, head) {
        Ok(ids) => ids,
        Err(_) => {
            return Err(RepoError::TraversalFailure);
        },
    };
    let loaded = load_metas(repo, ids);
    let selected = select_commits(loaded);
    Ok(build_from(repo, selected, map))
}

} // verus!

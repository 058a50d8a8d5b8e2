//! The ingestion orchestrator: prepares the store once, drives every
//! candidate directory through construct, open, analyze and persist, and
//! aggregates the outcomes. A failure at any stage ends only that
//! directory's processing; every candidate ends up in exactly one outcome.

use vstd::prelude::*;
use vstd::string::*;

use crate::config::AuthorMap;
use crate::db::{pool_get, pool_open, pooled_conn, sql_query_strings, DbPool};
use crate::error::RepoError;
use crate::paths::{file_name_of, path_file_name};
use crate::repository::GitRepository;
use crate::store::{ensure_schema, store_repository};
use crate::text::{contains_string, contains_text};

verus! {

/// The result of one candidate directory.
pub enum IngestionOutcome {
    /// The directory was analyzed and its history written.
    Stored {
        /// The candidate path as it was handed in.
        path: String,
        /// The repository name the rows were registered under.
        name: String,
        /// How many commit records were written.
        commit_count: usize,
    },
    /// The directory was given up at some stage.
    Skipped {
        /// The candidate path as it was handed in.
        path: String,
        /// The stage the directory failed at.
        reason: RepoError,
    },
}

impl IngestionOutcome {
    /// The candidate path this outcome is about.
    pub open spec fn path_spec(&self) -> Seq<char> {
        match self {
            IngestionOutcome::Stored { path, .. } => path@,
            IngestionOutcome::Skipped { path, .. } => path@,
        }
    }

    /// The candidate path this outcome is about.
    pub fn path(&self) -> (r: &str)
        ensures
            r@ == self.path_spec(),
    {
        match self {
            IngestionOutcome::Stored { path, .. } => path.as_str(),
            IngestionOutcome::Skipped { path, .. } => path.as_str(),
        }
    }
}

/// Drives one candidate directory through the whole pipeline: construct,
/// open, analyze, persist. Every failure becomes a skip outcome with the
/// stage it happened at; a stored outcome carries the repository name,
/// which is always the final component of the candidate path.
pub fn process_directory(path: &String, author_map: &Option<AuthorMap>, pool: &DbPool) -> (r:
    IngestionOutcome)
    ensures
        r.path_spec() == path@,
        r matches IngestionOutcome::Stored { name, commit_count, .. } ==> file_name_of(path@)
            == Some(name@),
{
    let uninitialized = match GitRepository::try_new(path.clone()) {
        Ok(u) => u,
        Err(e) => {
            return IngestionOutcome::Skipped { path: path.clone(), reason: e };
        },
    };
    let opened = match uninitialized.open() {
        Ok(o) => o,
        Err(e) => {
            return IngestionOutcome::Skipped { path: path.clone(), reason: e };
        },
    };
    let analyzed = match opened.analyze(author_map) {
        Ok(a) => a,
        Err(e) => {
            return IngestionOutcome::Skipped { path: path.clone(), reason: e };
        },
    };
    let conn = match pool_get(pool) {
        Ok(c) => c,
        Err(_) => {
            return IngestionOutcome::Skipped {
                path: path.clone(),
                reason: RepoError::PersistenceFailure,
            };
        },
    };
    let stored = store_repository(
        pooled_conn(&conn),
        analyzed.name(),
        analyzed.url(),
        analyzed.logs(),
    );
    match stored {
        Ok(_) => IngestionOutcome::Stored {
            path: path.clone(),
            name: String::from_str(analyzed.name()),
            commit_count: analyzed.logs().len(),
        },
        Err(e) => IngestionOutcome::Skipped { path: path.clone(), reason: e },
    }
}

/// Processes every candidate directory, one after the other: exactly one
/// outcome per candidate, in input order, and no failure touches a
/// sibling's outcome.
pub fn run_batch(directories: &Vec<String>, author_map: &Option<AuthorMap>, pool: &DbPool) -> (r:
    Vec<IngestionOutcome>)
    ensures
        r@.len() == directories@.len(),
        forall|i: int|
            0 <= i < r@.len() ==> (#[trigger] r@[i]).path_spec() == directories@[i]@,
{
    let mut out: Vec<IngestionOutcome> = Vec::new();
    let mut i: usize = 0;
    while i < directories.len()
        invariant
            0 <= i <= directories@.len(),
            out@.len() == i,
            forall|k: int|
                0 <= k < i ==> (#[trigger] out@[k]).path_spec() == directories@[k]@,
        decreases directories@.len() - i,
    {
        let outcome = process_directory(&directories[i], author_map, pool);
        out.push(outcome);
        i += 1;
    }
    out
}

/// The directories whose final path component is not among the stored
/// names; a directory without a final component was never stored and is
/// always listed.
pub open spec fn skipped_spec(dirs: Seq<Seq<char>>, names: Seq<Seq<char>>) -> Seq<Seq<char>>
    decreases dirs.len(),
{
    if dirs.len() == 0 {
        Seq::empty()
    } else {
        let rest = skipped_spec(dirs.drop_first(), names);
        let stored = match file_name_of(dirs[0]) {
            Some(n) => contains_text(names, n),
            None => false,
        };
        if stored {
            rest
        } else {
            seq![dirs[0]] + rest
        }
    }
}

/// Lists the candidate directories that do not appear, by name, among the
/// stored repository names.
pub fn skipped_of(directories: &Vec<String>, names: &Vec<String>) -> (r: Vec<String>)
    ensures
        r.deep_view() == skipped_spec(directories.deep_view(), names.deep_view()),
{
    let ghost dirs = directories.deep_view();
    let mut out: Vec<String> = Vec::new();
    let mut i: usize = 0;
    proof {
        assert(dirs.skip(0) =~= dirs);
        assert(out.deep_view() + skipped_spec(dirs, names.deep_view()) =~= skipped_spec(
            dirs,
            names.deep_view(),
        ));
    }
    while i < directories.len()
        invariant
            0 <= i <= directories@.len(),
            dirs == directories.deep_view(),
            dirs.len() == directories@.len(),
            forall|m: int| 0 <= m < dirs.len() ==> dirs[m] == directories@[m]@,
            skipped_spec(dirs, names.deep_view()) == out.deep_view() + skipped_spec(
                dirs.skip(i as int),
                names.deep_view(),
            ),
        decreases directories@.len() - i,
    {
        let ghost out0 = out.deep_view();
        let ghost tail = dirs.skip(i as int);
        proof {
            assert(tail[0] == dirs[i as int]);
            assert(tail.drop_first() =~= dirs.skip(i + 1));
        }
        let stored = match path_file_name(&directories[i]) {
            Some(n) => contains_string(names, &n),
            None => false,
        };
        if !stored {
            out.push(directories[i].clone());
            proof {
                assert(out.deep_view() =~= out0 + seq![dirs[i as int]]);
                assert(out0 + (seq![tail[0]] + skipped_spec(dirs.skip(i + 1), names.deep_view()))
                    =~= out.deep_view() + skipped_spec(dirs.skip(i + 1), names.deep_view()));
            }
        }
        i += 1;
    }
    proof {
        assert(dirs.skip(i as int) =~= Seq::<Seq<char>>::empty());
        assert(out.deep_view() + skipped_spec(dirs.skip(i as int), names.deep_view())
            =~= out.deep_view());
    }
    out
}

/// What discovery does with one directory entry.
#[derive(Clone, Copy, PartialEq, Eq, Structural, Debug)]
pub enum ScanDecision {
    /// The directory becomes a candidate.
    Keep,
    /// The directory is a repository's own metadata directory.
    SkipGitDir,
    /// The directory's name stands on the ignore list.
    SkipIgnored,
}

/// The entry lists of an optional ignore list.
pub open spec fn ignored_view(ignored: &Option<Vec<String>>) -> Option<Seq<Seq<char>>> {
    match ignored {
        Some(l) => Some(l.deep_view()),
        None => None,
    }
}

/// The decision for a directory name: the metadata directory is never a
/// candidate, a name on the ignore list is recorded as ignored, and
/// everything else is kept.
pub open spec fn scan_decision_spec(name: Seq<char>, ignored: Option<Seq<Seq<char>>>)
    -> ScanDecision {
    if name == ".git"@ {
        ScanDecision::SkipGitDir
    } else {
        match ignored {
            Some(l) => if contains_text(l, name) {
                ScanDecision::SkipIgnored
            } else {
                ScanDecision::Keep
            },
            None => ScanDecision::Keep,
        }
    }
}

/// Decides what discovery does with one directory, by its name.
pub fn scan_decision(name: &String, ignored: &Option<Vec<String>>) -> (r: ScanDecision)
    ensures
        r == scan_decision_spec(name@, ignored_view(ignored)),
{
    if *name == String::from_str(".git") {
        return ScanDecision::SkipGitDir;
    }
    match ignored {
        Some(l) => {
            if contains_string(l, name) {
                ScanDecision::SkipIgnored
            } else {
                ScanDecision::Keep
            }
        },
        None => ScanDecision::Keep,
    }
}

/// The orchestrator in state `S`; the transitions are
/// `Uninitialized -> Prepared`.
pub struct GitRepositoryAnalyzer<S> {
    state: S,
}

/// The run's inputs before the store is prepared: all plain values, as
/// the command line, the configuration and discovery supplied them.
pub struct Uninitialized {
    /// Path of the database file.
    pub database: String,
    /// Whether all rows are deleted before the run.
    pub clear: bool,
    /// The parallelism bound for a concurrent driver.
    pub num_threads: usize,
    /// The candidate directories, in discovery order.
    pub directories: Vec<String>,
    /// The names discovery left out because of the ignore list.
    pub ignored_repositories: Vec<String>,
    /// The author identity map, if one was supplied.
    pub author_map: Option<AuthorMap>,
}

/// The state after the store is prepared: the schema exists (and was
/// cleared, when asked) before any analysis can start.
pub struct Prepared {
    /// The parallelism bound for a concurrent driver.
    pub num_threads: usize,
    /// The connection pool of the store.
    pub pool: DbPool,
    /// The candidate directories, in discovery order.
    pub directories: Vec<String>,
    /// The names discovery left out because of the ignore list.
    pub ignored_repositories: Vec<String>,
    /// The author identity map, if one was supplied.
    pub author_map: Option<AuthorMap>,
}

impl<S> GitRepositoryAnalyzer<S> {
    /// The inner state.
    pub closed spec fn spec_state(&self) -> S {
        self.state
    }

    /// The inner state.
    pub fn state(&self) -> (r: &S)
        ensures
            *r == self.spec_state(),
    {
        &self.state
    }
}

impl GitRepositoryAnalyzer<Uninitialized> {
    /// Wraps the run's inputs; nothing is touched yet.
    pub fn new(state: Uninitialized) -> (r: Self)
        ensures
            r.spec_state() == state,
    {
        GitRepositoryAnalyzer { state }
    }

    /// Ensures the schema over one connection of the pool, clearing the
    /// relations first when the run asks for it.
    pub fn prepare_database(&self, pool: &DbPool) -> (r: Result<(), RepoError>)
        ensures
            r matches Err(e) ==> e == RepoError::PersistenceFailure,
    {
        let conn = match pool_get(pool) {
            Ok(c) => c,
            Err(_) => {
                return Err(RepoError::PersistenceFailure);
            },
        };
        ensure_schema(pooled_conn(&conn), self.state.clear)
    }

    /// Opens the connection pool and ensures the schema, clearing first
    /// when asked; only after this succeeds can directories be processed.
    /// A store that cannot be prepared fails the whole run.
    pub fn try_prepare(self) -> (r: Result<GitRepositoryAnalyzer<Prepared>, RepoError>)
        ensures
            r matches Ok(p) ==> {
                &&& p.spec_state().num_threads == self.spec_state().num_threads
                &&& p.spec_state().directories == self.spec_state().directories
                &&& p.spec_state().ignored_repositories == self.spec_state().ignored_repositories
                &&& p.spec_state().author_map == self.spec_state().author_map
            },
            r matches Err(e) ==> e == RepoError::PersistenceFailure,
    {
        let pool = match pool_open(&self.state.database) {
            Ok(p) => p,
            Err(_) => {
                return Err(RepoError::PersistenceFailure);
            },
        };
        match self.prepare_database(&pool) {
            Ok(_) => {},
            Err(e) => {
                return Err(e);
            },
        }
        Ok(
            GitRepositoryAnalyzer {
                state: Prepared {
                    num_threads: self.state.num_threads,
                    pool,
                    directories: self.state.directories,
                    ignored_repositories: self.state.ignored_repositories,
                    author_map: self.state.author_map,
                },
            },
        )
    }
}

impl GitRepositoryAnalyzer<Prepared> {
    /// Reads back the stored repository names, in name order, and lists
    /// the candidate directories that are not among them by name: every
    /// candidate appears either stored or skipped, never silently lost.
    pub fn summary(&self) -> (r: Result<(Vec<String>, Vec<String>), RepoError>)
        ensures
            r matches Ok(p) ==> p.1.deep_view() == skipped_spec(
                self.spec_state().directories.deep_view(),
                p.0.deep_view(),
            ),
            r matches Err(e) ==> e == RepoError::PersistenceFailure,
    {
        let conn = match pool_get(&self.state.pool) {
            Ok(c) => c,
            Err(_) => {
                return Err(RepoError::PersistenceFailure);
            },
        };
        let stored = match sql_query_strings(
            pooled_conn(&conn),
            "SELECT name FROM repositories ORDER BY name",
        ) {
            Ok(v) => v,
            Err(_) => {
                return Err(RepoError::PersistenceFailure);
            },
        };
        let skipped = skipped_of(&self.state.directories, &stored);
        Ok((stored, skipped))
    }

    /// Processes every candidate directory against the prepared store,
    /// then reads back the stored repository names and lists the
    /// directories that are not among them by name.
    pub fn analyze(&self) -> (r: Result<(Vec<String>, Vec<String>), RepoError>)
        ensures
            r matches Ok(p) ==> p.1.deep_view() == skipped_spec(
                self.spec_state().directories.deep_view(),
                p.0.deep_view(),
            ),
            r matches Err(e) ==> e == RepoError::PersistenceFailure,
    {
        // the batch is run for its effect on the store; the summary is
        // read back from the store rather than from the outcomes
        run_batch(&self.state.directories, &self.state.author_map, &self.state.pool);
        self.summary()
    }
}

} // verus!

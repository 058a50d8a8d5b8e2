//! One repository's lifecycle as a typestate machine. A repository must be
//! constructed, then opened, then analyzed; each transition consumes the
//! previous state and produces a new typed value, so that running analysis
//! before opening, or reading logs before analysis, cannot be written.

use vstd::prelude::*;
use vstd::string::*;

use crate::config::AuthorMap;
use crate::error::RepoError;
use crate::extract::extract_logs;
use crate::gitio::{remote_url, repo_head, repo_open};
use crate::log::GitLog;
use crate::paths::{file_name_of, path_canonicalize, path_file_name, path_is_file};
use crate::text::{chars_string, replace_all, replace_all_spec, string_chars};

verus! {

/// A repository in state `S`; the transitions are
/// `Uninitialized -> Opened -> Analyzed`.
pub struct GitRepository<S> {
    state: S,
}

/// The initial state: a validated directory and its derived name.
pub struct Uninitialized {
    name: String,
    path: String,
}

/// The state after opening: the native handle and the head commit.
pub struct Opened {
    name: String,
    repo: git2::Repository,
    head: String,
}

/// The state after analysis: the extracted history.
pub struct Analyzed {
    name: String,
    url: String,
    logs: Vec<GitLog>,
}

/// The location recorded when no remote named "origin" is configured.
pub open spec fn no_remote_spec() -> Seq<char> {
    "(no remote url)"@
}

/// The recorded remote location: the configured one (or the sentinel when
/// none is configured), with every ssh-style github prefix rewritten to
/// its https equivalent.
pub open spec fn normalized_url_spec(raw: Option<Seq<char>>) -> Seq<char> {
    replace_all_spec(
        match raw {
            Some(u) => u,
            None => no_remote_spec(),
        },
        "git@github.com:"@,
        "https://github.com/"@,
    )
}

/// Rewrites a raw remote location to the form that is recorded.
pub fn normalize_remote(raw: Option<String>) -> (r: String)
    ensures
        r@ == normalized_url_spec(raw.deep_view()),
{
    let base = match raw {
        Some(u) => u,
        None => String::from_str("(no remote url)"),
    };
    let v = string_chars(base.as_str());
    let pat = string_chars("git@github.com:");
    let rep = string_chars("https://github.com/");
    proof {
        reveal_strlit("git@github.com:");
    }
    let out = replace_all(&v, &pat, &rep);
    chars_string(&out)
}

impl GitRepository<Uninitialized> {
    /// The repository's name: the final component of the path it was
    /// created from.
    pub closed spec fn name_spec(&self) -> Seq<char> {
        self.state.name@
    }

    /// The canonical path the repository will be opened at.
    pub closed spec fn path_spec(&self) -> Seq<char> {
        self.state.path@
    }

    /// Validates a candidate directory: rejects a regular file, a path
    /// without a final component, and a path that cannot be resolved.
    pub fn try_new(path: String) -> (r: Result<Self, RepoError>)
        ensures
            r matches Ok(g) ==> file_name_of(path@) == Some(g.name_spec()) && g.name_spec().len()
                > 0,
            r matches Err(e) ==> e == RepoError::InvalidPath,
            file_name_of(path@) is None ==> r is Err,
    {
        if path_is_file(&path) {
            return Err(RepoError::InvalidPath);
        }
        let name = match path_file_name(&path) {
            Some(n) => n,
            None => {
                return Err(RepoError::InvalidPath);
            },
        };
        if name.as_str().is_empty() {
            return Err(RepoError::InvalidPath);
        }
        let canon = match path_canonicalize(&path) {
            Some(c) => c,
            None => {
                return Err(RepoError::InvalidPath);
            },
        };
        Ok(GitRepository { state: Uninitialized { name, path: canon } })
    }

    /// Opens the repository at the canonical path; fails when the
    /// directory is not a repository or its head cannot be resolved.
    pub fn open(self) -> (r: Result<GitRepository<Opened>, RepoError>)
        ensures
            r matches Ok(g) ==> g.name_spec() == self.name_spec(),
            r matches Err(e) ==> e == RepoError::NotARepository || e == RepoError::NoHead,
    {
        let repo = match repo_open(&self.state.path) {
            Ok(repo) => repo,
            Err(_) => {
                return Err(RepoError::NotARepository);
            },
        };
        let head = match repo_head(&repo) {
            Ok(head) => head,
            Err(_) => {
                return Err(RepoError::NoHead);
            },
        };
        Ok(GitRepository { state: Opened { name: self.state.name, repo, head } })
    }
}

impl GitRepository<Opened> {
    /// The repository's name, unchanged by opening.
    pub closed spec fn name_spec(&self) -> Seq<char> {
        self.state.name@
    }

    /// The head commit the analysis starts from, in hex form.
    pub closed spec fn head_spec(&self) -> Seq<char> {
        self.state.head@
    }

    /// Extracts the commit history reachable from the head, applying the
    /// author identity map, and resolves the recorded remote location.
    /// Only a failure of the commit-graph walk itself is an error.
    pub fn analyze(&self, author_map: &Option<AuthorMap>) -> (r: Result<
        GitRepository<Analyzed>,
        RepoError,
    >)
        ensures
            r matches Ok(g) ==> g.name_spec() == self.name_spec(),
            r matches Err(e) ==> e == RepoError::TraversalFailure,
    {
        let logs = match extract_logs(&self.state.repo, &self.state.head, author_map) {
            Ok(logs) => logs,
            Err(e) => {
                return Err(e);
            },
        };
        let url = normalize_remote(remote_url(&self.state.repo));
        Ok(GitRepository { state: Analyzed { name: self.state.name.clone(), url, logs } })
    }
}

impl GitRepository<Analyzed> {
    /// The repository's name, unchanged by analysis.
    pub closed spec fn name_spec(&self) -> Seq<char> {
        self.state.name@
    }

    /// The recorded remote location.
    pub closed spec fn url_spec(&self) -> Seq<char> {
        self.state.url@
    }

    /// The extracted records, in traversal order.
    pub closed spec fn logs_spec(&self) -> Seq<GitLog> {
        self.state.logs@
    }

    /// The repository's name.
    pub fn name(&self) -> (r: &str)
        ensures
            r@ == self.name_spec(),
    {
        self.state.name.as_str()
    }

    /// The recorded remote location.
    pub fn url(&self) -> (r: &str)
        ensures
            r@ == self.url_spec(),
    {
        self.state.url.as_str()
    }

    /// The extracted records, in traversal order.
    pub fn logs(&self) -> (r: &Vec<GitLog>)
        ensures
            r@ == self.logs_spec(),
    {
        &self.state.logs
    }
}

} // verus!

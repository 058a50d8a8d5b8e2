//! Tests of the pure logic: text replacement, author resolution, record
//! building, selection, discovery decisions and statement parameters.

use git_log_to_sqlite::analyzer::{scan_decision, skipped_of, ScanDecision};
use git_log_to_sqlite::config::AuthorMap;
use git_log_to_sqlite::db::SqlArg;
use git_log_to_sqlite::error::RepoError;
use git_log_to_sqlite::extract::{
    build_log, is_emittable, resolve_author, select_commits, CommitMeta, DiffSummary,
};
use git_log_to_sqlite::file::{ChangedFile, ChangedFiles};
use git_log_to_sqlite::log::GitLog;
use git_log_to_sqlite::repository::normalize_remote;
use git_log_to_sqlite::store::{file_args, log_args, repo_args};
use git_log_to_sqlite::text::{chars_string, contains_string, replace_all, string_chars, zero_hash};

fn meta(
    parent_count: usize,
    first_parent: Option<&str>,
    tree_ok: bool,
    name: Option<&str>,
    email: Option<&str>,
    time: i64,
    summary: Option<&str>,
) -> CommitMeta {
    CommitMeta {
        parent_count,
        first_parent: first_parent.map(|s| s.to_string()),
        tree_ok,
        author_name: name.map(|s| s.to_string()),
        author_email: email.map(|s| s.to_string()),
        time_seconds: time,
        summary: summary.map(|s| s.to_string()),
    }
}

fn author_map(pairs: &[(&str, &str)]) -> AuthorMap {
    AuthorMap::new(
        pairs
            .iter()
            .map(|(k, v)| (k.to_string(), v.to_string()))
            .collect(),
    )
}

#[test]
fn zero_hash_is_forty_zeros() {
    assert_eq!(zero_hash(), "0".repeat(40));
}

#[test]
fn replace_all_rewrites_every_occurrence() {
    let v = string_chars("abab");
    let pat = string_chars("ab");
    let rep = string_chars("x");
    assert_eq!(chars_string(&replace_all(&v, &pat, &rep)), "xx");
}

#[test]
fn replace_all_does_not_overlap() {
    let v = string_chars("aaa");
    let pat = string_chars("aa");
    let rep = string_chars("b");
    assert_eq!(chars_string(&replace_all(&v, &pat, &rep)), "ba");
}

#[test]
fn replace_all_without_match_keeps_input() {
    let v = string_chars("hello");
    let pat = string_chars("xyz");
    let rep = string_chars("q");
    assert_eq!(chars_string(&replace_all(&v, &pat, &rep)), "hello");
}

#[test]
fn normalize_remote_rewrites_ssh_github() {
    let url = normalize_remote(Some("git@github.com:user/repo.git".to_string()));
    assert_eq!(url, "https://github.com/user/repo.git");
}

#[test]
fn normalize_remote_keeps_https() {
    let url = normalize_remote(Some("https://example.com/r.git".to_string()));
    assert_eq!(url, "https://example.com/r.git");
}

#[test]
fn normalize_remote_without_remote_is_sentinel() {
    assert_eq!(normalize_remote(None), "(no remote url)");
}

#[test]
fn contains_string_compares_contents() {
    let v = vec!["alpha".to_string(), "beta".to_string()];
    assert!(contains_string(&v, &"beta".to_string()));
    assert!(!contains_string(&v, &"gamma".to_string()));
}

#[test]
fn author_lookup_finds_first_match() {
    let m = author_map(&[("a@x.com", "Alice A."), ("a@x.com", "Second")]);
    assert_eq!(m.lookup(&"a@x.com".to_string()), Some("Alice A.".to_string()));
    assert_eq!(m.lookup(&"b@x.com".to_string()), None);
}

#[test]
fn resolve_author_applies_map_to_name_only() {
    let m = Some(author_map(&[("a@x.com", "Alice A.")]));
    let (name, email) = resolve_author(
        Some("a".to_string()),
        Some("a@x.com".to_string()),
        &m,
    );
    assert_eq!(name, "Alice A.");
    assert_eq!(email, "a@x.com");
}

#[test]
fn resolve_author_without_map_keeps_raw_name() {
    let (name, email) = resolve_author(
        Some("a".to_string()),
        Some("a@x.com".to_string()),
        &None,
    );
    assert_eq!(name, "a");
    assert_eq!(email, "a@x.com");
}

#[test]
fn resolve_author_substitutes_sentinels() {
    let (name, email) = resolve_author(None, None, &None);
    assert_eq!(name, "(no author name)");
    assert_eq!(email, "(no author email)");
}

#[test]
fn resolve_author_map_applies_to_defaulted_email() {
    let m = Some(author_map(&[("(no author email)", "Mapped")]));
    let (name, email) = resolve_author(Some("raw".to_string()), None, &m);
    assert_eq!(name, "Mapped");
    assert_eq!(email, "(no author email)");
}

#[test]
fn build_log_root_commit_has_zero_parent() {
    let log = build_log(
        "c1".to_string(),
        meta(0, None, true, Some("n"), Some("e@x"), 7, Some("root")),
        None,
        &None,
    );
    assert_eq!(log.commit_hash, "c1");
    assert_eq!(log.parent_hash, "0".repeat(40));
    assert_eq!(log.author_name, "n");
    assert_eq!(log.author_email, "e@x");
    assert_eq!(log.commit_datetime, 7);
    assert_eq!(log.message, "root");
    assert_eq!(log.insertions, 0);
    assert_eq!(log.deletions, 0);
    assert!(log.changed_files.is_empty());
}

#[test]
fn build_log_keeps_parent_and_diff() {
    let diff = DiffSummary {
        insertions: 4,
        deletions: 2,
        changed_files: vec!["a.txt".to_string()],
    };
    let log = build_log(
        "c2".to_string(),
        meta(1, Some("c1"), true, None, Some("e@x"), 9, None),
        Some(diff),
        &None,
    );
    assert_eq!(log.parent_hash, "c1");
    assert_eq!(log.author_name, "(no author name)");
    assert_eq!(log.message, "(no commit summary)");
    assert_eq!(log.insertions, 4);
    assert_eq!(log.deletions, 2);
    assert_eq!(log.changed_files, vec!["a.txt".to_string()]);
}

#[test]
fn emittable_excludes_merges_and_unresolved_trees() {
    assert!(is_emittable(&meta(0, None, true, None, None, 0, None)));
    assert!(is_emittable(&meta(1, Some("p"), true, None, None, 0, None)));
    assert!(!is_emittable(&meta(2, Some("p"), true, None, None, 0, None)));
    assert!(!is_emittable(&meta(1, Some("p"), false, None, None, 0, None)));
}

#[test]
fn select_commits_keeps_order_and_filters() {
    let loaded = vec![
        ("c3".to_string(), Some(meta(2, Some("c2"), true, None, None, 3, None))),
        ("c2".to_string(), Some(meta(1, Some("c1"), true, None, None, 2, None))),
        ("cx".to_string(), None),
        ("c1".to_string(), Some(meta(0, None, true, None, None, 1, None))),
    ];
    let selected = select_commits(loaded);
    let ids: Vec<&str> = selected.iter().map(|p| p.0.as_str()).collect();
    assert_eq!(ids, vec!["c2", "c1"]);
}

#[test]
fn scan_decision_skips_git_dir_and_ignored() {
    let ignored = Some(vec!["vendor".to_string()]);
    assert_eq!(scan_decision(&".git".to_string(), &ignored), ScanDecision::SkipGitDir);
    assert_eq!(scan_decision(&"vendor".to_string(), &ignored), ScanDecision::SkipIgnored);
    assert_eq!(scan_decision(&"project".to_string(), &ignored), ScanDecision::Keep);
    assert_eq!(scan_decision(&"vendor".to_string(), &None), ScanDecision::Keep);
}

#[test]
fn skipped_of_compares_by_final_component() {
    let dirs = vec!["/a/r1".to_string(), "/a/r2".to_string()];
    let names = vec!["r1".to_string()];
    assert_eq!(skipped_of(&dirs, &names), vec!["/a/r2".to_string()]);
}

#[test]
fn skipped_of_lists_directory_without_final_component() {
    let dirs = vec!["/".to_string()];
    let names = vec!["r1".to_string()];
    assert_eq!(skipped_of(&dirs, &names), vec!["/".to_string()]);
}

#[test]
fn normalize_remote_rewrites_every_occurrence() {
    let url = normalize_remote(Some("git@github.com:git@github.com:x".to_string()));
    assert_eq!(url, "https://github.com/https://github.com/x");
}

#[test]
fn repo_error_messages_name_the_stage() {
    assert_eq!(RepoError::InvalidPath.message(), "invalid path");
    assert_eq!(RepoError::NotARepository.message(), "not a git repository");
    assert_eq!(RepoError::NoHead.message(), "repository has no head commit");
    assert_eq!(RepoError::TraversalFailure.message(), "commit graph traversal failed");
    assert_eq!(RepoError::PersistenceFailure.message(), "database error");
}

#[test]
fn changed_files_join_in_order() {
    let files = vec![
        ChangedFile::new("c".to_string(), "a.txt".to_string()),
        ChangedFile::new("c".to_string(), "b.txt".to_string()),
    ];
    let set = ChangedFiles::from(files);
    assert_eq!(set.len(), 2);
    assert_eq!(set.get(0).path(), "a.txt");
    assert_eq!(set.joined(), "a.txt, b.txt");
}

#[test]
fn changed_files_join_of_one_has_no_separator() {
    let set = ChangedFiles::from(vec![ChangedFile::new("c".to_string(), "a".to_string())]);
    assert_eq!(set.joined(), "a");
}

#[test]
fn changed_files_join_of_none_is_empty() {
    let set = ChangedFiles::from(Vec::<ChangedFile>::new());
    assert_eq!(set.joined(), "");
}

fn sample_log() -> GitLog {
    GitLog {
        commit_hash: "h".to_string(),
        parent_hash: "p".to_string(),
        author_name: "n".to_string(),
        author_email: "e".to_string(),
        commit_datetime: 42,
        message: "m".to_string(),
        insertions: 3,
        deletions: 1,
        changed_files: vec!["f".to_string()],
    }
}

#[test]
fn log_args_follow_column_order() {
    let log = sample_log();
    let args = log_args(&log, "repo");
    assert_eq!(args.len(), 9);
    assert!(matches!(&args[0], SqlArg::Text(t) if t == "h"));
    assert!(matches!(&args[1], SqlArg::Text(t) if t == "p"));
    assert!(matches!(&args[2], SqlArg::Text(t) if t == "n"));
    assert!(matches!(&args[3], SqlArg::Text(t) if t == "e"));
    assert!(matches!(&args[4], SqlArg::Int(42)));
    assert!(matches!(&args[5], SqlArg::Text(t) if t == "m"));
    assert!(matches!(&args[6], SqlArg::Int(3)));
    assert!(matches!(&args[7], SqlArg::Int(1)));
    assert!(matches!(&args[8], SqlArg::Text(t) if t == "repo"));
}

#[test]
fn repo_and_file_args_are_pairs() {
    let r = repo_args("name", "url");
    assert!(matches!(&r[0], SqlArg::Text(t) if t == "name"));
    assert!(matches!(&r[1], SqlArg::Text(t) if t == "url"));
    let f = file_args(&"h".to_string(), &"f.txt".to_string());
    assert!(matches!(&f[0], SqlArg::Text(t) if t == "h"));
    assert!(matches!(&f[1], SqlArg::Text(t) if t == "f.txt"));
}

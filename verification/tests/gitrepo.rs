//! Tests against real repositories, built in temporary directories
//! through the repository backend's own object API.

use git_log_to_sqlite::config::AuthorMap;
use git_log_to_sqlite::error::RepoError;
use git_log_to_sqlite::repository::GitRepository;

/// Writes a commit whose tree holds exactly `files`, each as one blob.
fn commit_with(
    repo: &git2::Repository,
    files: &[(&str, &str)],
    parents: &[&git2::Commit],
    time: i64,
    name: &str,
    email: &str,
    msg: &str,
    update_head: bool,
) -> git2::Oid {
    let mut tb = repo.treebuilder(None).unwrap();
    for (path, content) in files {
        let blob = repo.blob(content.as_bytes()).unwrap();
        tb.insert(*path, blob, 0o100644).unwrap();
    }
    let tree = repo.find_tree(tb.write().unwrap()).unwrap();
    let sig = git2::Signature::new(name, email, &git2::Time::new(time, 0)).unwrap();
    let head = if update_head { Some("HEAD") } else { None };
    repo.commit(head, &sig, &sig, msg, &tree, parents).unwrap()
}

fn path_string(p: &std::path::Path) -> String {
    p.to_str().unwrap().to_string()
}

fn analyzed_at(
    path: &str,
    map: Option<AuthorMap>,
) -> Result<GitRepository<git_log_to_sqlite::repository::Analyzed>, RepoError> {
    GitRepository::try_new(path.to_string())?.open()?.analyze(&map)
}

#[test]
fn try_new_rejects_missing_path() {
    let dir = tempfile::tempdir().unwrap();
    let missing = path_string(&dir.path().join("absent"));
    assert!(matches!(
        GitRepository::try_new(missing),
        Err(RepoError::InvalidPath)
    ));
}

#[test]
fn try_new_rejects_plain_file() {
    let dir = tempfile::tempdir().unwrap();
    let file = tempfile::NamedTempFile::new_in(dir.path()).unwrap();
    assert!(matches!(
        GitRepository::try_new(path_string(file.path())),
        Err(RepoError::InvalidPath)
    ));
}

#[test]
fn try_new_rejects_path_without_final_component() {
    assert!(matches!(
        GitRepository::try_new(String::new()),
        Err(RepoError::InvalidPath)
    ));
}

#[test]
fn open_rejects_non_repository() {
    let dir = tempfile::tempdir().unwrap();
    let u = GitRepository::try_new(path_string(dir.path())).unwrap();
    assert!(matches!(u.open(), Err(RepoError::NotARepository)));
}

#[test]
fn open_rejects_empty_repository() {
    let dir = tempfile::tempdir().unwrap();
    git2::Repository::init(dir.path()).unwrap();
    let u = GitRepository::try_new(path_string(dir.path())).unwrap();
    assert!(matches!(u.open(), Err(RepoError::NoHead)));
}

#[test]
fn merge_commits_are_not_emitted() {
    let dir = tempfile::tempdir().unwrap();
    let repo = git2::Repository::init(dir.path()).unwrap();
    let c1 = commit_with(&repo, &[("a.txt", "l1\nl2\nl3\n")], &[], 100, "n", "e@x", "one", true);
    let p1 = repo.find_commit(c1).unwrap();
    let c2 = commit_with(&repo, &[("a.txt", "l1\nl2\nl3\nl4\n")], &[&p1], 200, "n", "e@x", "two", true);
    let c3 = commit_with(&repo, &[("a.txt", "l1\nl2\nl3\n"), ("b.txt", "x\n")], &[&p1], 300, "n", "e@x", "side", false);
    let p2 = repo.find_commit(c2).unwrap();
    let p3 = repo.find_commit(c3).unwrap();
    commit_with(&repo, &[("a.txt", "l1\nl2\nl3\nl4\n"), ("b.txt", "x\n")], &[&p2, &p3], 400, "n", "e@x", "merge", true);

    let analyzed = analyzed_at(&path_string(dir.path()), None).unwrap();
    let logs = analyzed.logs();
    assert_eq!(logs.len(), 3);
    let hashes: Vec<&str> = logs.iter().map(|l| l.commit_hash.as_str()).collect();
    assert!(hashes.contains(&c1.to_string().as_str()));
    assert!(hashes.contains(&c2.to_string().as_str()));
    assert!(hashes.contains(&c3.to_string().as_str()));
}

#[test]
fn root_commit_has_zero_parent_and_full_insertions() {
    let dir = tempfile::tempdir().unwrap();
    let repo = git2::Repository::init(dir.path()).unwrap();
    let c1 = commit_with(&repo, &[("a.txt", "l1\nl2\nl3\n")], &[], 100, "n", "e@x", "one", true);

    let analyzed = analyzed_at(&path_string(dir.path()), None).unwrap();
    let logs = analyzed.logs();
    assert_eq!(logs.len(), 1);
    let root = &logs[0];
    assert_eq!(root.commit_hash, c1.to_string());
    assert_eq!(root.parent_hash, "0".repeat(40));
    assert_eq!(root.insertions, 3);
    assert_eq!(root.deletions, 0);
    assert_eq!(root.changed_files, vec!["a.txt".to_string()]);
    assert_eq!(root.commit_datetime, 100);
    assert_eq!(root.message, "one");
}

#[test]
fn traversal_is_most_recent_first_with_parent_links() {
    let dir = tempfile::tempdir().unwrap();
    let repo = git2::Repository::init(dir.path()).unwrap();
    let c1 = commit_with(&repo, &[("a.txt", "1\n")], &[], 100, "n", "e@x", "one", true);
    let p1 = repo.find_commit(c1).unwrap();
    let c2 = commit_with(&repo, &[("a.txt", "1\n2\n")], &[&p1], 200, "n", "e@x", "two", true);

    let analyzed = analyzed_at(&path_string(dir.path()), None).unwrap();
    let logs = analyzed.logs();
    assert_eq!(logs.len(), 2);
    assert_eq!(logs[0].commit_hash, c2.to_string());
    assert_eq!(logs[0].parent_hash, c1.to_string());
    assert_eq!(logs[1].commit_hash, c1.to_string());
}

#[test]
fn identical_rename_is_one_changed_file() {
    let dir = tempfile::tempdir().unwrap();
    let repo = git2::Repository::init(dir.path()).unwrap();
    let content = "same bytes\nin both\n";
    let c1 = commit_with(&repo, &[("old.txt", content)], &[], 100, "n", "e@x", "add", true);
    let p1 = repo.find_commit(c1).unwrap();
    let c2 = commit_with(&repo, &[("new.txt", content)], &[&p1], 200, "n", "e@x", "rename", true);

    let analyzed = analyzed_at(&path_string(dir.path()), None).unwrap();
    let logs = analyzed.logs();
    assert_eq!(logs[0].commit_hash, c2.to_string());
    assert_eq!(logs[0].changed_files, vec!["new.txt".to_string()]);
    assert_eq!(logs[0].insertions, 0);
    assert_eq!(logs[0].deletions, 0);
}

#[test]
fn author_map_rewrites_name_and_keeps_email() {
    let dir = tempfile::tempdir().unwrap();
    let repo = git2::Repository::init(dir.path()).unwrap();
    commit_with(&repo, &[("a.txt", "1\n")], &[], 100, "a", "a@x.com", "one", true);

    let map = AuthorMap::new(vec![("a@x.com".to_string(), "Alice A.".to_string())]);
    let analyzed = analyzed_at(&path_string(dir.path()), Some(map)).unwrap();
    let logs = analyzed.logs();
    assert_eq!(logs[0].author_name, "Alice A.");
    assert_eq!(logs[0].author_email, "a@x.com");
}

#[test]
fn unmapped_author_keeps_raw_name() {
    let dir = tempfile::tempdir().unwrap();
    let repo = git2::Repository::init(dir.path()).unwrap();
    commit_with(&repo, &[("a.txt", "1\n")], &[], 100, "a", "b@x.com", "one", true);

    let map = AuthorMap::new(vec![("a@x.com".to_string(), "Alice A.".to_string())]);
    let analyzed = analyzed_at(&path_string(dir.path()), Some(map)).unwrap();
    assert_eq!(analyzed.logs()[0].author_name, "a");
    assert_eq!(analyzed.logs()[0].author_email, "b@x.com");
}

#[test]
fn repository_name_is_final_component() {
    let dir = tempfile::tempdir().unwrap();
    let repo_dir = dir.path().join("myproject");
    let repo = git2::Repository::init(&repo_dir).unwrap();
    commit_with(&repo, &[("a.txt", "1\n")], &[], 100, "n", "e@x", "one", true);

    let analyzed = analyzed_at(&path_string(&repo_dir), None).unwrap();
    assert_eq!(analyzed.name(), "myproject");
}

#[test]
fn ssh_origin_is_recorded_as_https() {
    let dir = tempfile::tempdir().unwrap();
    let repo = git2::Repository::init(dir.path()).unwrap();
    commit_with(&repo, &[("a.txt", "1\n")], &[], 100, "n", "e@x", "one", true);
    repo.remote("origin", "git@github.com:user/repo.git").unwrap();

    let analyzed = analyzed_at(&path_string(dir.path()), None).unwrap();
    assert_eq!(analyzed.url(), "https://github.com/user/repo.git");
}

#[test]
fn missing_origin_is_recorded_as_sentinel() {
    let dir = tempfile::tempdir().unwrap();
    let repo = git2::Repository::init(dir.path()).unwrap();
    commit_with(&repo, &[("a.txt", "1\n")], &[], 100, "n", "e@x", "one", true);

    let analyzed = analyzed_at(&path_string(dir.path()), None).unwrap();
    assert_eq!(analyzed.url(), "(no remote url)");
}

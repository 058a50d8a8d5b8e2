//! The persistence gateway: idempotent schema ensure and the
//! per-repository transactional writer. The statement parameters are
//! built by verified code with exact contracts; issuing a statement goes
//! through the trusted boundary in `db`.

use vstd::prelude::*;
use vstd::string::*;

use crate::db::{sql_execute, SqlArg};
use crate::error::RepoError;
use crate::log::GitLog;

verus! {

/// Whether a parameter is the text with exactly these characters.
pub open spec fn arg_is_text(a: SqlArg, s: Seq<char>) -> bool {
    a matches SqlArg::Text(t) && t@ == s
}

/// Whether a parameter is exactly this integer.
pub open spec fn arg_is_int(a: SqlArg, v: i64) -> bool {
    a == SqlArg::Int(v)
}

/// The parameters of the repository row: its name and its recorded
/// remote location, in that order.
pub fn repo_args(name: &str, url: &str) -> (r: Vec<SqlArg>)
    ensures
        r@.len() == 2,
        arg_is_text(r@[0], name@),
        arg_is_text(r@[1], url@),
{
    let mut args: Vec<SqlArg> = Vec::new();
    args.push(SqlArg::Text(String::from_str(name)));
    args.push(SqlArg::Text(String::from_str(url)));
    args
}

/// The parameters of one commit's row, in the column order of the insert:
/// commit hash, parent hash, author name, author email, commit time,
/// message, insertions, deletions, and the repository name the foreign
/// key is resolved by.
pub fn log_args(log: &GitLog, repo_name: &str) -> (r: Vec<SqlArg>)
    ensures
        r@.len() == 9,
        arg_is_text(r@[0], log.commit_hash@),
        arg_is_text(r@[1], log.parent_hash@),
        arg_is_text(r@[2], log.author_name@),
        arg_is_text(r@[3], log.author_email@),
        arg_is_int(r@[4], log.commit_datetime),
        arg_is_text(r@[5], log.message@),
        arg_is_int(r@[6], log.insertions as i64),
        arg_is_int(r@[7], log.deletions as i64),
        arg_is_text(r@[8], repo_name@),
{
    let mut args: Vec<SqlArg> = Vec::new();
    args.push(SqlArg::Text(log.commit_hash.clone()));
    args.push(SqlArg::Text(log.parent_hash.clone()));
    args.push(SqlArg::Text(log.author_name.clone()));
    args.push(SqlArg::Text(log.author_email.clone()));
    args.push(SqlArg::Int(log.commit_datetime));
    args.push(SqlArg::Text(log.message.clone()));
    args.push(SqlArg::Int(log.insertions as i64));
    args.push(SqlArg::Int(log.deletions as i64));
    args.push(SqlArg::Text(String::from_str(repo_name)));
    args
}

/// The parameters of one changed-file row: the commit hash and the path.
pub fn file_args(commit_hash: &String, path: &String) -> (r: Vec<SqlArg>)
    ensures
        r@.len() == 2,
        arg_is_text(r@[0], commit_hash@),
        arg_is_text(r@[1], path@),
{
    let mut args: Vec<SqlArg> = Vec::new();
    args.push(SqlArg::Text(commit_hash.clone()));
    args.push(SqlArg::Text(path.clone()));
    args
}

/// Creates the three relations if they are missing and, when `clear` is
/// set, empties all three before returning; runs to completion before any
/// analysis starts.
pub fn ensure_schema(conn: &rusqlite::Connection, clear: bool) -> (r: Result<(), RepoError>)
    ensures
        r matches Err(e) ==> e == RepoError::PersistenceFailure,
{
    let no_args: Vec<SqlArg> = Vec::new();
    let made_repositories = sql_execute(
        conn,
        "CREATE TABLE IF NOT EXISTS repositories (\n            id INTEGER PRIMARY KEY AUTOINCREMENT,\n            name TEXT NOT NULL UNIQUE,\n            url TEXT\n        )",
        &no_args,
    );
    if made_repositories.is_err() {
        return Err(RepoError::PersistenceFailure);
    }
    let made_logs = sql_execute(
        conn,
        "CREATE TABLE IF NOT EXISTS logs (\n            commit_hash TEXT PRIMARY KEY,\n            author_name TEXT NOT NULL,\n            author_email TEXT NOT NULL,\n            message TEXT,\n            commit_datetime DATETIME NOT NULL,\n            insertions INTEGER,\n            deletions INTEGER,\n            repository_id INTEGER,\n            parent_hash TEXT,\n            FOREIGN KEY (repository_id) REFERENCES repositories (id)\n        )",
        &no_args,
    );
    if made_logs.is_err() {
        return Err(RepoError::PersistenceFailure);
    }
    let made_files = sql_execute(
        conn,
        "CREATE TABLE IF NOT EXISTS changed_files (\n            id INTEGER PRIMARY KEY AUTOINCREMENT,\n            commit_hash TEXT NOT NULL,\n            file_path TEXT,\n            FOREIGN KEY (commit_hash) REFERENCES logs (commit_hash)\n        )",
        &no_args,
    );
    if made_files.is_err() {
        return Err(RepoError::PersistenceFailure);
    }
    if clear {
        if sql_execute(conn, "DELETE FROM changed_files", &no_args).is_err() {
            return Err(RepoError::PersistenceFailure);
        }
        if sql_execute(conn, "DELETE FROM logs", &no_args).is_err() {
            return Err(RepoError::PersistenceFailure);
        }
        if sql_execute(conn, "DELETE FROM repositories", &no_args).is_err() {
            return Err(RepoError::PersistenceFailure);
        }
    }
    Ok(())
}

/// Rolls the open transaction back; its own outcome is not consulted,
/// since the write is already being reported as failed.
fn roll_back(conn: &rusqlite::Connection) {
    let no_args: Vec<SqlArg> = Vec::new();
    let _ = sql_execute(conn, "ROLLBACK", &no_args);
}

/// Writes one analyzed repository: registers the repository row by name
/// (first writer wins, duplicates are ignored), then inserts every record
/// and its changed files inside one transaction, in traversal order.
/// Either the whole commit set becomes durable or none of it does.
pub fn store_repository(
    conn: &rusqlite::Connection,
    name: &str,
    url: &str,
    logs: &Vec<GitLog>,
) -> (r: Result<(), RepoError>)
    ensures
        r matches Err(e) ==> e == RepoError::PersistenceFailure,
{
    let no_args: Vec<SqlArg> = Vec::new();
    let repo_row = repo_args(name, url);
    let inserted = sql_execute(
        conn,
        "INSERT OR IGNORE INTO repositories (name, url) VALUES (?1, ?2)",
        &repo_row,
    );
    if inserted.is_err() {
        return Err(RepoError::PersistenceFailure);
    }
    if sql_execute(conn, "BEGIN", &no_args).is_err() {
        return Err(RepoError::PersistenceFailure);
    }
    let mut i: usize = 0;
    while i < logs.len()
        decreases logs@.len() - i,
    {
        let row = log_args(&logs[i], name);
        let stored = sql_execute(
            conn,
            "INSERT INTO logs (\n                commit_hash,\n                parent_hash,\n                author_name,\n                author_email,\n                commit_datetime,\n                message,\n                insertions,\n                deletions,\n                repository_id\n            )\n            VALUES (?, ?, ?, ?, ?, ?, ?, ?, (SELECT id FROM repositories WHERE name = ?))",
            &row,
        );
        if stored.is_err() {
            roll_back(conn);
            return Err(RepoError::PersistenceFailure);
        }
        let hash = &logs[i].commit_hash;
        let files = &logs[i].changed_files;
        let mut j: usize = 0;
        while j < files.len()
            decreases files@.len() - j,
        {
            let file_row = file_args(hash, &files[j]);
            let stored_file = sql_execute(
                conn,
                "INSERT INTO changed_files (commit_hash, file_path) VALUES (?1, ?2)",
                &file_row,
            );
            if stored_file.is_err() {
                roll_back(conn);
                return Err(RepoError::PersistenceFailure);
            }
            j += 1;
        }
        i += 1;
    }
    if sql_execute(conn, "COMMIT", &no_args).is_err() {
        roll_back(conn);
        return Err(RepoError::PersistenceFailure);
    }
    Ok(())
}

} // verus!

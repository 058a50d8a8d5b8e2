//! The trusted boundary to the relational store: the connection pool and
//! the two statement shapes the library issues. Each function makes one
//! operation of the rusqlite or r2d2 crate available to verified code;
//! what the database does with a statement depends on its state on disk,
//! so the results carry no contract beyond their shape.

use vstd::prelude::*;

verus! {

/// Declares rusqlite's connection; opaque to verified code.
#[verifier::external_type_specification]
#[verifier::external_body]
pub struct ExConnection(rusqlite::Connection);

/// Declares rusqlite's error type; opaque to verified code.
#[verifier::external_type_specification]
#[verifier::external_body]
pub struct ExSqlError(rusqlite::Error);

/// Declares r2d2's error type; opaque to verified code.
#[verifier::external_type_specification]
#[verifier::external_body]
pub struct ExPoolError(r2d2::Error);

/// The connection pool of the store. r2d2's pool type carries a trait
/// bound Verus cannot take, so the pool lives behind this opaque holder.
#[verifier::external_body]
pub struct DbPool {
    pool: r2d2::Pool<r2d2_sqlite::SqliteConnectionManager>,
}

/// One connection checked out of the pool, returned to it when dropped.
/// Opaque for the same reason as the pool itself.
#[verifier::external_body]
pub struct DbConn {
    conn: r2d2::PooledConnection<r2d2_sqlite::SqliteConnectionManager>,
}

/// One positional statement parameter.
pub enum SqlArg {
    /// The SQL null value.
    Null,
    /// A signed integer value.
    Int(i64),
    /// A text value.
    Text(String),
}

/// Relies on rusqlite::Connection::execute with rusqlite::params_from_iter:
/// runs one statement with the given positional parameters and yields the
/// number of rows it changed.
#[verifier::external_body]
pub fn sql_execute(conn: &rusqlite::Connection, sql: &str, args: &Vec<SqlArg>) -> (r: Result<
    usize,
    rusqlite::Error,
>) {
    let mut vals: Vec<rusqlite::types::Value> = Vec::new();
    for a in args.iter() {
        vals.push(
            match a {
                SqlArg::Null => rusqlite::types::Value::Null,
                SqlArg::Int(i) => rusqlite::types::Value::Integer(*i),
                SqlArg::Text(s) => rusqlite::types::Value::Text(s.clone()),
            },
        );
    }
    conn.execute(sql, rusqlite::params_from_iter(vals))
}

/// Relies on rusqlite::Connection::prepare and Statement::query_map: the
/// first column of every result row, in row order; a row whose first
/// column is not text is left out.
#[verifier::external_body]
pub fn sql_query_strings(conn: &rusqlite::Connection, sql: &str) -> (r: Result<
    Vec<String>,
    rusqlite::Error,
>) {
    let mut stmt = conn.prepare(sql)?;
    let rows = stmt.query_map([], |row| row.get::<_, String>(0))?;
    Ok(rows.filter_map(|x| x.ok()).collect())
}

/// Relies on r2d2_sqlite::SqliteConnectionManager::file and r2d2::Pool::new:
/// a pool of connections to the database file at `path`, or the pool
/// crate's error when no connection can be established.
#[verifier::external_body]
pub fn pool_open(path: &String) -> (r: Result<DbPool, r2d2::Error>) {
    let manager = r2d2_sqlite::SqliteConnectionManager::file(path.as_str());
    Ok(DbPool { pool: r2d2::Pool::new(manager)? })
}

/// Relies on the Clone impl of r2d2::Pool: another handle to the same
/// pool, sharing its connections and its bound.
#[verifier::external_body]
pub fn pool_clone(pool: &DbPool) -> (r: DbPool) {
    DbPool { pool: pool.pool.clone() }
}

/// Relies on r2d2::Pool::get: one connection checked out of the pool for
/// the caller's scope, or the pool crate's error on timeout.
#[verifier::external_body]
pub fn pool_get(pool: &DbPool) -> (r: Result<DbConn, r2d2::Error>) {
    Ok(DbConn { conn: pool.pool.get()? })
}

/// Relies on the Deref impl of r2d2::PooledConnection: the managed
/// rusqlite connection behind the checkout.
#[verifier::external_body]
pub fn pooled_conn<'a>(pc: &'a DbConn) -> (r: &'a rusqlite::Connection) {
    &pc.conn
}

} // verus!

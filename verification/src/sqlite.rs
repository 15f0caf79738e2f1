//! The trusted boundary to the SQLite driver: declarations of the
//! `rusqlite` types the persistence engine handles, and one thin wrapper
//! around each driver call it makes.
//!
//! Every outcome here depends on the database file on disk, so no wrapper
//! promises more than the shape of its result: the verified code around
//! them states what holds whichever outcome comes back.

use vstd::prelude::*;

verus! {

#[verifier::external_type_specification]
#[verifier::external_body]
pub struct ExConnection(rusqlite::Connection);

#[verifier::external_type_specification]
#[verifier::external_body]
pub struct ExStatement<'a>(rusqlite::Statement<'a>);

#[verifier::external_type_specification]
#[verifier::external_body]
pub struct ExRows<'a>(rusqlite::Rows<'a>);

#[verifier::external_type_specification]
#[verifier::external_body]
pub struct ExRow<'a>(rusqlite::Row<'a>);

/// Relies on `rusqlite::Connection::open`: opens the database file at the
/// given path, creating it when absent, or fails.
#[verifier::external_body]
pub(crate) fn open_connection(db: &str) -> (r: Option<rusqlite::Connection>) {
    match rusqlite::Connection::open(db) {
        Ok(conn) => Some(conn),
        Err(_) => None,
    }
}

/// Relies on `rusqlite::Connection::execute`: runs one parameterless SQL
/// statement; `true` means the statement succeeded.
#[verifier::external_body]
pub(crate) fn execute_sql(conn: &rusqlite::Connection, sql: &str) -> (r: bool) {
    matches!(conn.execute(sql, ()), Ok(_))
}

/// Relies on `rusqlite::Connection::execute`: runs one SQL statement,
/// binding each given string in order; `true` means it succeeded.
#[verifier::external_body]
pub(crate) fn execute_sql_texts(conn: &rusqlite::Connection, sql: &str, params: &Vec<String>) -> (r:
    bool) {
    matches!(conn.execute(sql, rusqlite::params_from_iter(params.iter())), Ok(_))
}

/// Relies on `rusqlite::Connection::execute`: runs one SQL statement with
/// a single integer parameter; `true` means it succeeded.
#[verifier::external_body]
pub(crate) fn execute_sql_id(conn: &rusqlite::Connection, sql: &str, id: i64) -> (r: bool) {
    matches!(conn.execute(sql, (id,)), Ok(_))
}

/// Relies on `rusqlite::Connection::execute`: runs one SQL statement with
/// an integer and a text parameter; `true` means it succeeded.
#[verifier::external_body]
pub(crate) fn execute_sql_id_text(
    conn: &rusqlite::Connection,
    sql: &str,
    id: i64,
    text: &str,
) -> (r: bool) {
    matches!(conn.execute(sql, (id, text)), Ok(_))
}

/// Relies on `rusqlite::Connection::last_insert_rowid`: the rowid of the
/// most recent successful insert on this connection, 0 when none was made.
#[verifier::external_body]
pub(crate) fn last_insert_rowid(conn: &rusqlite::Connection) -> (r: i64) {
    conn.last_insert_rowid()
}

/// Relies on `rusqlite::Connection::prepare`: compiles one SQL statement,
/// or fails.
#[verifier::external_body]
pub(crate) fn prepare_sql<'a>(conn: &'a rusqlite::Connection, sql: &str) -> (r: Option<
    rusqlite::Statement<'a>,
>) {
    match conn.prepare(sql) {
        Ok(stmt) => Some(stmt),
        Err(_) => None,
    }
}

/// Relies on `rusqlite::Statement::query`: starts the query with no
/// parameters bound, or fails.
#[verifier::external_body]
pub(crate) fn query_stmt<'a, 'c>(stmt: &'a mut rusqlite::Statement<'c>) -> (r: Option<
    rusqlite::Rows<'a>,
>) {
    match stmt.query(()) {
        Ok(rows) => Some(rows),
        Err(_) => None,
    }
}

/// Relies on `rusqlite::Statement::query`: starts the query with the
/// named parameters `:id` and `:name` bound, or fails.
#[verifier::external_body]
pub(crate) fn query_stmt_id_name<'a, 'c>(
    stmt: &'a mut rusqlite::Statement<'c>,
    id: i64,
    name: &str,
) -> (r: Option<rusqlite::Rows<'a>>) {
    let params: &[(&str, &dyn rusqlite::ToSql)] = &[(":id", &id), (":name", &name)];
    match stmt.query(params) {
        Ok(rows) => Some(rows),
        Err(_) => None,
    }
}

/// Relies on `rusqlite::Rows::next`: the next result row, `Ok(None)` once
/// the rows are exhausted, `Err` when stepping the query failed.
#[verifier::external_body]
pub(crate) fn rows_next<'a, 's>(rows: &'a mut rusqlite::Rows<'s>) -> (r: Result<
    Option<&'a rusqlite::Row<'s>>,
    (),
>) {
    match rows.next() {
        Ok(row) => Ok(row),
        Err(_) => Err(()),
    }
}

/// Relies on `rusqlite::Row::get`: the value of the given column read as
/// an integer, or a failure when the column cannot be read as one.
#[verifier::external_body]
pub(crate) fn row_get_i32(row: &rusqlite::Row<'_>, idx: usize) -> (r: Result<i32, ()>) {
    match row.get::<usize, i32>(idx) {
        Ok(v) => Ok(v),
        Err(_) => Err(()),
    }
}

/// Relies on `rusqlite::Row::get`: the value of the given column read as
/// text, or a failure when the column cannot be read as text.
#[verifier::external_body]
pub(crate) fn row_get_string(row: &rusqlite::Row<'_>, idx: usize) -> (r: Result<String, ()>) {
    match row.get::<usize, String>(idx) {
        Ok(v) => Ok(v),
        Err(_) => Err(()),
    }
}

/// Relies on `rusqlite::Row::get`: the value of the given column read as
/// text, `None` when the column holds SQL NULL, or a failure when it can
/// be read as neither.
#[verifier::external_body]
pub(crate) fn row_get_opt_string(row: &rusqlite::Row<'_>, idx: usize) -> (r: Result<
    Option<String>,
    (),
>) {
    match row.get::<usize, Option<String>>(idx) {
        Ok(v) => Ok(v),
        Err(_) => Err(()),
    }
}

} // verus!

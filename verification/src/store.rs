//! The doorway to SQLite. The functions marked `external_body` here are taken
//! on trust: each one makes a single kind of call into `rusqlite` and
//! promises nothing about what the database answers.

use vstd::prelude::*;
use rusqlite::types::{Value, ValueRef};

verus! {

/// `rusqlite::Connection`, an open database handle. Opaque to the verifier.
#[verifier::external_type_specification]
#[verifier::external_body]
pub struct ExConnection(rusqlite::Connection);

/// `rusqlite::Error`. Opaque to the verifier; the library only maps it to a
/// [`StoreError`].
#[verifier::external_type_specification]
#[verifier::external_body]
pub struct ExSqlError(rusqlite::Error);

/// What can go wrong with the store, as callers of this library see it.
#[derive(Clone, Copy, Debug, PartialEq, Eq, Structural)]
pub enum StoreError {
    /// The database could not be opened, prepared or read.
    StorageUnavailable,
    /// A single insert, update or delete failed; nothing in memory changed.
    WriteFailed,
    /// The row asked for does not exist.
    NotFound,
}

/// `rusqlite::Row`, the current row of a running query. Opaque to the
/// verifier.
#[verifier::external_type_specification]
#[verifier::external_body]
pub struct ExRow<'a>(rusqlite::Row<'a>);

/// One value bound to a statement.
pub enum Param {
    Integer(i64),
    Text(String),
}

/// One column of a row, as SQLite hands it out. A text comes as its bytes;
/// of a real number only its kind is kept.
pub enum SqlValue {
    Null,
    Integer(i64),
    Real,
    Text(Vec<u8>),
    Blob(Vec<u8>),
}

/// Calls `rusqlite::Connection::open` on `path`. Whether the database opens
/// depends on the file system, so nothing is promised of the result.
#[verifier::external_body]
pub(crate) fn open(path: &str) -> (res: Result<rusqlite::Connection, rusqlite::Error>) {
    rusqlite::Connection::open(path)
}

/// Calls `rusqlite::Connection::execute` with `sql` and the positional
/// parameters `params`, each bound as the SQL value of the same kind. The
/// outcome depends on the database, so nothing is promised of the result.
#[verifier::external_body]
pub(crate) fn execute(db: &rusqlite::Connection, sql: &str, params: &Vec<Param>) -> (res: Result<
    usize,
    rusqlite::Error,
>) {
    db.execute(
        sql,
        rusqlite::params_from_iter(
            params.iter().map(
                |p|
                    match p {
                        Param::Integer(n) => Value::Integer(*n),
                        Param::Text(s) => Value::Text(s.clone()),
                    },
            ),
        ),
    )
}

/// Calls `rusqlite::Connection::last_insert_rowid`. The row id is whatever
/// the database assigned last, so nothing is promised of the result.
#[verifier::external_body]
pub(crate) fn last_insert_rowid(db: &rusqlite::Connection) -> (id: i64) {
    db.last_insert_rowid()
}

/// Calls `rusqlite::Row::get_ref` for column `i` and hands the value back
/// kind for kind, or `None` where the row has no such column. What the column
/// holds depends on the database, so nothing is promised of the result.
#[verifier::external_body]
pub(crate) fn column(row: &rusqlite::Row<'_>, i: usize) -> (value: Option<SqlValue>) {
    row.get_ref(i).ok().map(|v| match v {
        ValueRef::Null => SqlValue::Null,
        ValueRef::Integer(n) => SqlValue::Integer(n),
        ValueRef::Real(_) => SqlValue::Real,
        ValueRef::Text(t) => SqlValue::Text(t.to_vec()),
        ValueRef::Blob(b) => SqlValue::Blob(b.to_vec()),
    })
}

/// Reads the first `width` columns of `row`. A column that the row does
/// not have reads as `Null`.
pub fn read_row(row: &rusqlite::Row<'_>, width: usize) -> (values: Vec<SqlValue>)
    ensures
        values@.len() == width,
{
    let mut values: Vec<SqlValue> = Vec::new();
    let mut i: usize = 0;
    while i < width
        invariant
            i <= width,
            values@.len() == i,
        decreases width - i,
    {
        match column(row, i) {
            Some(value) => values.push(value),
            None => values.push(SqlValue::Null),
        }
        i += 1;
    }
    values
}

/// Prepares `sql` with `rusqlite::Connection::prepare`, runs it with
/// `rusqlite::Statement::query_map` on the positional integer parameters
/// `params`, and hands back what `read_row` made of each row. The rows depend
/// on the database, so nothing is promised of the result.
#[verifier::external_body]
pub(crate) fn query(db: &rusqlite::Connection, sql: &str, params: &Vec<i64>) -> (res: Result<
    Vec<Vec<SqlValue>>,
    rusqlite::Error,
>) {
    let mut stmt = db.prepare(sql)?;
    let width = stmt.column_count();
    let rows = stmt.query_map(
        rusqlite::params_from_iter(params.iter()),
        |row| Ok(read_row(row, width)),
    )?;
    rows.collect()
}

/// Maps the outcome of a write to the library's own error.
pub fn written(res: Result<usize, rusqlite::Error>) -> (out: Result<(), StoreError>)
    ensures
        out.is_ok() == res.is_ok(),
        out.is_err() ==> out == Err::<(), StoreError>(StoreError::WriteFailed),
{
    match res {
        Ok(_) => Ok(()),
        Err(_) => Err(StoreError::WriteFailed),
    }
}

/// Maps the outcome of a step of the set-up to the library's own error: a
/// step that fails leaves no store to work with.
pub fn prepared(res: Result<usize, rusqlite::Error>) -> (out: Result<(), StoreError>)
    ensures
        out.is_ok() == res.is_ok(),
        out.is_err() ==> out == Err::<(), StoreError>(StoreError::StorageUnavailable),
{
    match res {
        Ok(_) => Ok(()),
        Err(_) => Err(StoreError::StorageUnavailable),
    }
}

/// Opens the database at `path` and makes sure that its three tables
/// exist. Any failure on the way means that there is no store to work with.
pub fn init_connection(path: &str) -> (res: Result<rusqlite::Connection, StoreError>)
    ensures
        res matches Err(e) ==> e == StoreError::StorageUnavailable,
{
    let conn = match open(path) {
        Ok(conn) => conn,
        Err(_) => { return Err(StoreError::StorageUnavailable); },
    };
    let none: Vec<Param> = Vec::new();
    let todos = prepared(
        execute(
        &conn,
        "CREATE TABLE IF NOT EXISTS todos (
            id INTEGER PRIMARY KEY,
            position INTEGER,
            day_id INTEGER,
            text TEXT NOT NULL,
            completed INTEGER NOT NULL
        )",
        &none,
        ),
    );
    if todos.is_err() {
        return Err(StoreError::StorageUnavailable);
    }
    let days = prepared(
        execute(
        &conn,
        "CREATE TABLE IF NOT EXISTS days (
            id INTEGER PRIMARY KEY,
            count_todos INTEGER NOT NULL,
            done_todos INTEGER NOT NULL,
            notes TEXT NOT NULL,
            date TEXT NOT NULL
        )",
        &none,
        ),
    );
    if days.is_err() {
        return Err(StoreError::StorageUnavailable);
    }
    let daily_todos = prepared(
        execute(
        &conn,
        "CREATE TABLE IF NOT EXISTS daily_todos (
            id INTEGER PRIMARY KEY,
            position INTEGER,
            text TEXT NOT NULL
        )",
        &none,
        ),
    );
    if daily_todos.is_err() {
        return Err(StoreError::StorageUnavailable);
    }
    Ok(conn)
}

} // verus!

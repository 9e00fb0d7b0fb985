//! The boundary to SQLite. The items of this file are not verified: each
//! one states what the engine assumes of a function of `rusqlite`. What a
//! statement does to the database, and which rows a query answers, is
//! assumed of none of them; what a row holds is read column by column.

use vstd::prelude::*;
use crate::errors::{DbError, ServiceError};
use crate::statements::SqlArg;

verus! {

/// `rusqlite::Connection`, a connection to a database. Nothing is known of
/// what it holds.
#[verifier::external_type_specification]
#[verifier::external_body]
pub struct ExConnection(rusqlite::Connection);

/// `rusqlite::Row`, the current row of a running query.
#[verifier::external_type_specification]
#[verifier::external_body]
pub struct ExRow<'stmt>(rusqlite::Row<'stmt>);

/// `rusqlite::Error`, a failure reported by `rusqlite` or by SQLite.
#[verifier::external_type_specification]
#[verifier::external_body]
pub struct ExError(rusqlite::Error);

/// `rusqlite::types::Value`, a value as SQLite stores it.
#[verifier::external_type_specification]
#[verifier::external_body]
pub struct ExValue(rusqlite::types::Value);

/// What one column of a row holds, as far as the engine reads rows: NULL, an
/// integer, a text, or anything else (a real number, a blob, or bytes that
/// are no valid text).
pub enum Cell {
    Null,
    Integer(i64),
    Text(Seq<char>),
    Other,
}

/// The columns of a row, in the order of the query's result. A row is the
/// collection of its columns; they do not change while the row is at hand.
pub uninterp spec fn cells(row: &rusqlite::Row<'_>) -> Seq<Cell>;

/// The integer in column `index`, where the column exists and holds one.
pub open spec fn integer_at(columns: Seq<Cell>, index: int) -> Option<i64> {
    if 0 <= index < columns.len() {
        match columns[index] {
            Cell::Integer(n) => Some(n),
            _ => None,
        }
    } else {
        None
    }
}

/// The text in column `index`, where the column exists and holds one.
pub open spec fn text_at(columns: Seq<Cell>, index: int) -> Option<Seq<char>> {
    if 0 <= index < columns.len() {
        match columns[index] {
            Cell::Text(text) => Some(text),
            _ => None,
        }
    } else {
        None
    }
}

/// The text in column `index` or `None` for NULL, where the column exists
/// and holds either.
pub open spec fn optional_text_at(columns: Seq<Cell>, index: int) -> Option<Option<Seq<char>>> {
    if 0 <= index < columns.len() {
        match columns[index] {
            Cell::Null => Some(None),
            Cell::Text(text) => Some(Some(text)),
            _ => None,
        }
    } else {
        None
    }
}

/// `ToString::to_string` on `rusqlite::Error`: the text the error displays.
/// Nothing is claimed of the text.
#[verifier::external_body]
pub(crate) fn describe(error: &rusqlite::Error) -> String {
    error.to_string()
}

/// Builds `rusqlite::Error::FromSqlConversionFailure` for the column
/// `index`, the error with which `rusqlite` reports a text column that does
/// not hold what the caller's type expects. Nothing is claimed of the error.
#[verifier::external_body]
pub(crate) fn invalid_column(index: usize, message: &str) -> rusqlite::Error {
    rusqlite::Error::FromSqlConversionFailure(index, rusqlite::types::Type::Text, message.into())
}

/// Builds the `rusqlite::types::Value` that is bound for an argument: the
/// variant of the same name with the same content. Nothing is claimed of the
/// value, which verified code cannot inspect.
#[verifier::external_body]
pub(crate) fn to_value(arg: &SqlArg) -> rusqlite::types::Value {
    match arg {
        SqlArg::Null => rusqlite::types::Value::Null,
        SqlArg::Integer(n) => rusqlite::types::Value::Integer(*n),
        SqlArg::Text(text) => rusqlite::types::Value::Text(text.to_string()),
    }
}

/// `rusqlite::Connection::open`: opens the database at `path`, creating it
/// where there is none. Nothing is claimed of the outcome, which depends on
/// the filesystem.
#[verifier::external_body]
pub(crate) fn open(path: &str) -> (r: Result<rusqlite::Connection, rusqlite::Error>) {
    rusqlite::Connection::open(path)
}

/// `rusqlite::Connection::execute_batch`: runs the statements of `sql` one
/// after the other. Nothing is claimed of the outcome, which depends on the
/// database.
#[verifier::external_body]
pub(crate) fn run_batch(conn: &rusqlite::Connection, sql: &str) -> (r: Result<
    (),
    rusqlite::Error,
>) {
    conn.execute_batch(sql)
}

/// `rusqlite::Connection::pragma_update` on the main database: sets the
/// pragma `name` to `value`. Nothing is claimed of the outcome.
#[verifier::external_body]
pub(crate) fn set_pragma(conn: &rusqlite::Connection, name: &str, value: &str) -> (r: Result<
    (),
    rusqlite::Error,
>) {
    conn.pragma_update(None, name, value)
}

/// `rusqlite::Connection::execute`: runs the single statement `sql` with
/// `args` bound to its placeholders in order, and returns the number of rows
/// it changed, inserted or deleted. Nothing is claimed of the outcome, which
/// depends on the database.
#[verifier::external_body]
pub(crate) fn run(conn: &rusqlite::Connection, sql: &str, args: &Vec<SqlArg>) -> (r: Result<
    usize,
    rusqlite::Error,
>) {
    conn.execute(sql, rusqlite::params_from_iter(args.iter().map(to_value)))
}

/// `rusqlite::Connection::last_insert_rowid`: the row identifier of the most
/// recent successful insertion on this connection. Nothing is claimed of
/// its value.
#[verifier::external_body]
pub(crate) fn last_insert_rowid(conn: &rusqlite::Connection) -> i64 {
    conn.last_insert_rowid()
}

/// `rusqlite::Connection::prepare` and `rusqlite::Statement::query_map`,
/// collected: runs the query `sql` with `args` bound to its placeholders in
/// order and hands each row of the answer to `map`. It returns what `map`
/// made of the rows, in the order of the answer, or the first error of the
/// query or of `map`. Which rows there are depends on the database; the
/// contract says only that every item returned is what `map` returned for
/// some row.
#[verifier::external_body]
pub(crate) fn select<T, F>(
    conn: &rusqlite::Connection,
    sql: &str,
    args: &Vec<SqlArg>,
    map: F,
) -> (r: Result<Vec<T>, rusqlite::Error>) where
    F: Fn(&rusqlite::Row<'_>) -> Result<T, rusqlite::Error>,

    requires
        forall|row: &rusqlite::Row<'_>| map.requires((row,)),
    ensures
        r matches Ok(items) ==> forall|i: int|
            0 <= i < items.len() ==> exists|row: &rusqlite::Row<'_>|
                map.ensures((row,), Ok(#[trigger] items[i])),
{
    let mut statement = conn.prepare(sql)?;
    let rows = statement.query_map(rusqlite::params_from_iter(args.iter().map(to_value)), map)?;
    rows.collect()
}

/// `rusqlite::Row::get` for `i64`: the integer in column `index` of the row.
/// It fails where the index is not below the number of columns
/// (`InvalidColumnIndex`) and where the column holds no integer
/// (`InvalidColumnType`), and only there.
#[verifier::external_body]
pub(crate) fn column_integer(row: &rusqlite::Row<'_>, index: usize) -> (r: Result<
    i64,
    rusqlite::Error,
>)
    ensures
        match r {
            Ok(n) => integer_at(cells(row), index as int) == Some(n),
            Err(_) => integer_at(cells(row), index as int) is None,
        },
{
    row.get::<usize, i64>(index)
}

/// `rusqlite::Row::get` for `String`: the text in column `index` of the row.
/// It fails where the index is not below the number of columns, where the
/// column holds no text and where its bytes are no valid text, and only
/// there.
#[verifier::external_body]
pub(crate) fn column_text(row: &rusqlite::Row<'_>, index: usize) -> (r: Result<
    String,
    rusqlite::Error,
>)
    ensures
        match r {
            Ok(text) => text_at(cells(row), index as int) == Some(text@),
            Err(_) => text_at(cells(row), index as int) is None,
        },
{
    row.get::<usize, String>(index)
}

/// `rusqlite::Row::get` for `Option<String>`: the text in column `index` of
/// the row, or `None` where the column holds NULL. It fails where the index
/// is not below the number of columns and where the column holds neither
/// NULL nor a valid text, and only there.
#[verifier::external_body]
pub(crate) fn column_optional_text(row: &rusqlite::Row<'_>, index: usize) -> (r: Result<
    Option<String>,
    rusqlite::Error,
>)
    ensures
        match r {
            Ok(Some(text)) => optional_text_at(cells(row), index as int) == Some(Some(text@)),
            Ok(None) => optional_text_at(cells(row), index as int) == Some(None::<Seq<char>>),
            Err(_) => optional_text_at(cells(row), index as int) is None,
        },
{
    row.get::<usize, Option<String>>(index)
}

/// The storage error that carries the text of a failure of SQLite.
pub fn sqlite_failure(error: rusqlite::Error) -> (r: DbError)
    ensures
        r is Sqlite,
{
    DbError::Sqlite(describe(&error))
}

/// The service error that reports a failure of SQLite.
pub fn storage_failure(error: rusqlite::Error) -> (r: ServiceError)
    ensures
        r matches ServiceError::Database(cause) && cause is Sqlite,
{
    ServiceError::Database(sqlite_failure(error))
}

} // verus!

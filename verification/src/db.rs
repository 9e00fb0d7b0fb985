//! Connections to the store, ready for use: with foreign keys enforced,
//! write-ahead logging switched on and the schema applied.
//!
//! The database path and the text of the schema are handed in by the
//! caller, who reads them from the configuration and from the schema file.

use vstd::prelude::*;
use vstd::std_specs::convert::FromSpec;
use crate::errors::DbError;
use crate::statements::{connection_pragmas, Pragma};
use crate::storage::{open, run_batch, set_pragma, sqlite_failure};

verus! {

/// Makes one setting of a connection.
fn apply_pragma(connection: &rusqlite::Connection, pragma: Pragma) -> (r: Result<(), DbError>)
    ensures
        r matches Err(error) ==> error is Sqlite,
{
    let (name, value) = pragma.setting();
    match set_pragma(connection, name, value) {
        Ok(()) => Ok(()),
        Err(error) => Err(sqlite_failure(error)),
    }
}

/// Makes the settings of `connection_pragmas`, in their order: it switches on
/// the enforcement of foreign keys, on which the removal of a game's moves
/// with the game rests, and write-ahead logging.
pub fn apply_pragmas(connection: &rusqlite::Connection) -> (r: Result<(), DbError>)
    ensures
        r matches Err(error) ==> error is Sqlite,
{
    let pragmas = connection_pragmas();
    apply_pragma(connection, pragmas[0])?;
    apply_pragma(connection, pragmas[1])
}

/// Applies the schema. The schema is expected to be written so that
/// applying it again neither fails nor destroys data.
pub fn ensure_schema(connection: &rusqlite::Connection, schema_sql: &str) -> (r: Result<
    (),
    DbError,
>)
    ensures
        r matches Err(error) ==> error is Sqlite,
{
    match run_batch(connection, schema_sql) {
        Ok(()) => Ok(()),
        Err(error) => Err(sqlite_failure(error)),
    }
}

/// Opens the database at `database_path`, creating it where there is none.
/// The directory of the database must exist.
pub fn open_database(database_path: &str) -> (r: Result<rusqlite::Connection, DbError>)
    ensures
        r matches Err(error) ==> error is Sqlite,
{
    match open(database_path) {
        Ok(connection) => Ok(connection),
        Err(error) => Err(sqlite_failure(error)),
    }
}

/// Opens the database at `database_path` and makes the connection ready for
/// use: it opens the database, makes the settings of the connection and
/// applies the schema, in this order.
pub fn open_connection(database_path: &str, schema_sql: &str) -> (r: Result<
    rusqlite::Connection,
    DbError,
>)
    ensures
        r matches Err(error) ==> error is Sqlite,
{
    let connection = open_database(database_path)?;
    apply_pragmas(&connection)?;
    ensure_schema(&connection, schema_sql)?;
    Ok(connection)
}

/// Makes sure that the store can be opened and holds the schema.
pub fn init(database_path: &str, schema_sql: &str) -> (r: Result<(), DbError>)
    ensures
        r matches Err(error) ==> error is Sqlite,
{
    match open_connection(database_path, schema_sql) {
        Ok(_) => Ok(()),
        Err(error) => Err(error),
    }
}

/// Whether `failure` is what the conversion to `E` makes of `error`, as far
/// as `E` says what its conversion returns.
pub open spec fn converts<E: From<DbError>>(error: DbError, failure: E) -> bool {
    E::obeys_from_spec() ==> failure == E::from_spec(error)
}

/// Runs `operation` on the connection that opening the store gave. Where
/// opening gave a connection, the result is what the operation returns on
/// it; where opening failed, the result is that failure, converted to the
/// operation's error type.
pub fn run_on<F, R, E>(opened: Result<rusqlite::Connection, DbError>, operation: F) -> (r: Result<
    R,
    E,
>) where F: FnOnce(&rusqlite::Connection) -> Result<R, E>, E: From<DbError>
    requires
        opened matches Ok(connection) ==> operation.requires((&connection,)),
    ensures
        match opened {
            Ok(connection) => operation.ensures((&connection,), r),
            Err(error) => r matches Err(failure) && converts::<E>(error, failure),
        },
{
    match opened {
        Ok(connection) => operation(&connection),
        Err(error) => Err(E::from(error)),
    }
}

/// Whether `result` is what running `operation` gives for some outcome of
/// opening the store: what the operation returns on the connection that
/// opened, or the failure of SQLite to open it, converted.
pub open spec fn ran_on_store<F, R, E>(operation: F, result: Result<R, E>) -> bool where
    F: FnOnce(&rusqlite::Connection) -> Result<R, E>,
    E: From<DbError>,
 {
    exists|opened: Result<rusqlite::Connection, DbError>| #[trigger]
        outcome_of(opened, operation, result)
}

/// Whether `result` is what `run_on` gives for the outcome `opened` of
/// opening the store with SQLite.
pub open spec fn outcome_of<F, R, E>(
    opened: Result<rusqlite::Connection, DbError>,
    operation: F,
    result: Result<R, E>,
) -> bool where F: FnOnce(&rusqlite::Connection) -> Result<R, E>, E: From<DbError> {
    match opened {
        Ok(connection) => operation.ensures((&connection,), result),
        Err(error) => error is Sqlite && (result matches Err(failure) && converts::<E>(
            error,
            failure,
        )),
    }
}

/// Opens the store and runs `operation` on the fresh connection. Where no
/// connection can be had, the operation is not run and the storage error is
/// returned, converted to the operation's error type.
pub fn with_connection<F, R, E>(database_path: &str, schema_sql: &str, operation: F) -> (r: Result<
    R,
    E,
>) where F: FnOnce(&rusqlite::Connection) -> Result<R, E>, E: From<DbError>
    requires
        forall|connection: &rusqlite::Connection| operation.requires((connection,)),
    ensures
        ran_on_store(operation, r),
{
    let opened = open_connection(database_path, schema_sql);
    let r = run_on(opened, operation);
    assert(outcome_of(opened, operation, r));
    r
}

} // verus!

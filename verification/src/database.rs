//! The SQLite file behind the store: one table `todos` with the columns `id`,
//! `item` and `done`. Nothing here is proved about what the file holds; the
//! functions say which error a failure becomes, and hand what was read to the
//! store, which checks it.

use crate::error::{ErrorView, StorageOp, TodoError};
use crate::item::StoredRow;
use crate::store::Store;
use vstd::prelude::*;
use vstd::string::*;

verus! {

/// `rusqlite::Connection`, an open database. Opaque to the verifier.
#[verifier::external_type_specification]
#[verifier::external_body]
pub struct ExConnection(rusqlite::Connection);

/// `rusqlite::Error`, what a failed database call returns. Opaque to the
/// verifier.
#[verifier::external_type_specification]
#[verifier::external_body]
pub struct ExSqlError(rusqlite::Error);

/// Calls `rusqlite::Connection::open`, which opens the database file at
/// `path` and creates it if there is none. Nothing is claimed of the result.
#[verifier::external_body]
fn open_connection(path: &str) -> (result: Result<rusqlite::Connection, rusqlite::Error>) {
    rusqlite::Connection::open(path)
}

/// Calls `rusqlite::Connection::execute_batch`, which runs the statements of
/// `sql`, none of which takes a parameter. Nothing is claimed of the result.
#[verifier::external_body]
fn run_script(connection: &rusqlite::Connection, sql: &str) -> (result: Result<
    (),
    rusqlite::Error,
>) {
    connection.execute_batch(sql)
}

/// Calls `rusqlite::Connection::execute` on a statement whose one parameter
/// is bound to `id`. On success the call returns the number of rows that were
/// changed; nothing is claimed of it.
#[verifier::external_body]
fn execute_for_id(connection: &rusqlite::Connection, sql: &str, id: i32) -> (result: Result<
    usize,
    rusqlite::Error,
>) {
    connection.execute(sql, (id,))
}

/// Calls `rusqlite::Connection::execute` on a statement whose two parameters
/// are bound to `id` and `text`. On success the call returns the number of
/// rows that were changed; nothing is claimed of it.
#[verifier::external_body]
fn execute_for_entry(connection: &rusqlite::Connection, sql: &str, id: i32, text: &str) -> (result:
    Result<usize, rusqlite::Error>) {
    connection.execute(sql, (id, text))
}

/// Calls `rusqlite::Connection::prepare` and `rusqlite::Statement::query_map`
/// on a query without parameters, and reads the first three columns of each
/// row with `rusqlite::Row::get`, as an integer, a text and an integer. The
/// rows come in the order in which the database returns them; the first
/// failure ends the reading. Nothing is claimed of the result.
#[verifier::external_body]
fn query_rows(connection: &rusqlite::Connection, sql: &str) -> (result: Result<
    Vec<StoredRow>,
    rusqlite::Error,
>) {
    let mut statement = connection.prepare(sql)?;
    let rows = statement.query_map(
        (),
        |row| Ok(StoredRow { id: row.get(0)?, item: row.get(1)?, done: row.get(2)? }),
    )?;
    rows.collect()
}

/// Whether `failure` is the storage error for the step `op` that carries the
/// message of `error`, as the `Display` impl of `rusqlite::Error` writes it.
pub(crate) open spec fn reports(failure: TodoError, op: StorageOp, error: rusqlite::Error) -> bool {
    failure matches TodoError::Storage { op: step, detail } && step == op
        && to_string_from_display_ensures::<rusqlite::Error>(&error, detail)
}

/// The storage error for `op` that carries the message of `error`.
pub(crate) fn storage_error(op: StorageOp, error: &rusqlite::Error) -> (failure: TodoError)
    ensures
        reports(failure, op, *error),
{
    TodoError::Storage { op, detail: error.to_string() }
}

/// What a database call during the step `op` comes to: the value that the
/// call gave, or the storage error for `op` with the message of its failure.
pub(crate) fn settle<T>(outcome: Result<T, rusqlite::Error>, op: StorageOp) -> (result: Result<
    T,
    TodoError,
>)
    ensures
        match outcome {
            Ok(value) => result == Ok::<T, TodoError>(value),
            Err(error) => result matches Err(failure) && reports(failure, op, error),
        },
{
    match outcome {
        Ok(value) => Ok(value),
        Err(error) => Err(storage_error(op, &error)),
    }
}

/// What a write during the step `op` comes to: success, whatever the number
/// of rows that it changed, or the storage error for `op` with the message of
/// its failure.
pub(crate) fn written(outcome: Result<usize, rusqlite::Error>, op: StorageOp) -> (result: Result<
    (),
    TodoError,
>)
    ensures
        match outcome {
            Ok(_) => result == Ok::<(), TodoError>(()),
            Err(error) => result matches Err(failure) && reports(failure, op, error),
        },
{
    match settle(outcome, op) {
        Ok(_) => Ok(()),
        Err(failure) => Err(failure),
    }
}

/// The sequence number that the rows of a sequence query stand for: the
/// number in the first row, or 0 where the table has no sequence yet.
pub(crate) open spec fn sequence_of(rows: Seq<StoredRow>) -> int {
    if rows.len() > 0 {
        rows[0].id as int
    } else {
        0
    }
}

/// The sequence number that the rows of a sequence query stand for.
pub(crate) fn sequence_number(rows: &Vec<StoredRow>) -> (sequence: i32)
    ensures
        sequence == sequence_of(rows@),
{
    if rows.len() > 0 {
        rows[0].id
    } else {
        0
    }
}

/// An open database file with the table in it.
pub(crate) struct Database {
    connection: rusqlite::Connection,
}

impl Database {
    /// Opens the file at `path`, creating it if there is none, and makes sure
    /// that the table exists.
    pub(crate) fn open(path: &str) -> (result: Result<Database, TodoError>)
        ensures
            result matches Err(error) ==> error@ matches ErrorView::Storage { op, .. } && op
                == StorageOp::Open,
    {
        let connection = match settle(open_connection(path), StorageOp::Open) {
            Ok(connection) => connection,
            Err(failure) => {
                return Err(failure);
            },
        };
        let created = run_script(
            &connection,
            "CREATE TABLE IF NOT EXISTS todos (\
                id INTEGER PRIMARY KEY AUTOINCREMENT, \
                item TEXT NOT NULL, \
                done INTEGER NOT NULL DEFAULT 0)",
        );
        match settle(created, StorageOp::Open) {
            Ok(()) => Ok(Database { connection }),
            Err(failure) => Err(failure),
        }
    }

    /// Reads the table and the sequence number and builds the store from
    /// them.
    pub(crate) fn load(&self) -> (result: Result<Store, TodoError>)
        ensures
            match result {
                Ok(store) => store.wf(),
                Err(error) => error@ matches ErrorView::Storage { op, .. } && (op
                    == StorageOp::Query || op == StorageOp::Load),
            },
    {
        let table = query_rows(&self.connection, "SELECT id, item, done FROM todos ORDER BY id");
        let rows = match settle(table, StorageOp::Query) {
            Ok(rows) => rows,
            Err(failure) => {
                return Err(failure);
            },
        };
        let sequence = query_rows(
            &self.connection,
            "SELECT seq, name, 0 FROM sqlite_sequence WHERE name = 'todos'",
        );
        let counters = match settle(sequence, StorageOp::Query) {
            Ok(counters) => counters,
            Err(failure) => {
                return Err(failure);
            },
        };
        Store::from_rows(rows, sequence_number(&counters))
    }

    /// Writes the row of a new pending entry.
    pub(crate) fn insert(&self, id: i32, text: &str) -> (result: Result<(), TodoError>)
        ensures
            result matches Err(error) ==> error@ matches ErrorView::Storage { op, .. } && op
                == StorageOp::Insert,
    {
        let outcome = execute_for_entry(
            &self.connection,
            "INSERT INTO todos (id, item, done) VALUES (?1, ?2, 0)",
            id,
            text,
        );
        written(outcome, StorageOp::Insert)
    }

    /// Writes the flag of row `id`.
    pub(crate) fn set_done(&self, id: i32, value: bool) -> (result: Result<(), TodoError>)
        ensures
            result matches Err(error) ==> error@ matches ErrorView::Storage { op, .. } && op == (
            if value {
                StorageOp::MarkDone
            } else {
                StorageOp::MarkNotDone
            }),
    {
        if value {
            let outcome = execute_for_id(
                &self.connection,
                "UPDATE todos SET done = 1 WHERE id = ?1",
                id,
            );
            written(outcome, StorageOp::MarkDone)
        } else {
            let outcome = execute_for_id(
                &self.connection,
                "UPDATE todos SET done = 0 WHERE id = ?1",
                id,
            );
            written(outcome, StorageOp::MarkNotDone)
        }
    }

    /// Deletes row `id`.
    pub(crate) fn delete(&self, id: i32) -> (result: Result<(), TodoError>)
        ensures
            result matches Err(error) ==> error@ matches ErrorView::Storage { op, .. } && op
                == StorageOp::Remove,
    {
        let outcome = execute_for_id(&self.connection, "DELETE FROM todos WHERE id = ?1", id);
        written(outcome, StorageOp::Remove)
    }

    /// Deletes every row. The sequence number stays.
    pub(crate) fn delete_all(&self) -> (result: Result<(), TodoError>)
        ensures
            result matches Err(error) ==> error@ matches ErrorView::Storage { op, .. } && op
                == StorageOp::Clear,
    {
        settle(run_script(&self.connection, "DELETE FROM todos"), StorageOp::Clear)
    }
}

} // verus!

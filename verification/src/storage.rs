//! The calls into SQLite.
//!
//! What a statement does and what a query returns depends on the file behind
//! the connection, so nothing is claimed of either: the store treats every
//! outcome as possible, and decodes what it is handed before it takes it.

use rusqlite::types::{Value, ValueRef};
use rusqlite::Connection;
use vstd::prelude::*;

verus! {

/// `rusqlite::Connection`: a connection to an SQLite database. Nothing of
/// what is behind it is visible to the proofs.
#[verifier::external_type_specification]
#[verifier::external_body]
pub struct ExConnection(rusqlite::Connection);

/// `rusqlite::Error`: why SQLite or the binding refused a call. It is
/// handed on as it comes.
#[verifier::external_type_specification]
#[verifier::external_body]
pub struct ExStorageError(rusqlite::Error);

/// One column of a stored row, or one argument of a statement.
#[derive(Debug, PartialEq, Eq)]
pub enum SqlValue {
    /// No value.
    Null,
    /// An integer.
    Integer(i64),
    /// A text.
    Text(String),
    /// A real number; the catalog stores none, and its value is not kept.
    Real,
    /// A blob; the catalog stores none, and its bytes are not kept.
    Blob,
}

/// Whether a value can be bound as an argument: its content is kept.
pub open spec fn bindable(value: SqlValue) -> bool {
    value is Null || value is Integer || value is Text
}

/// Opens the database file `filename`, creating it where there is none, by
/// `rusqlite::Connection::open`. Nothing is claimed of the outcome: it
/// depends on the disk.
#[verifier::external_body]
pub(crate) fn open_connection(filename: &str) -> (r: Result<Connection, rusqlite::Error>) {
    Connection::open(filename)
}

/// Prepares and runs one statement with its arguments, by
/// `rusqlite::Connection::execute`, which returns how many rows the statement
/// changed. Nothing is claimed of the outcome. The arguments are bound as
/// they are, which is why a value whose content is not kept is no argument.
#[verifier::external_body]
pub(crate) fn run_statement(conn: &Connection, sql: &str, args: &Vec<SqlValue>) -> (r: Result<
    usize,
    rusqlite::Error,
>)
    requires
        forall|i: int| 0 <= i < args.len() ==> bindable(#[trigger] args[i]),
{
    let bound = args.iter().map(|arg| match arg {
        SqlValue::Integer(i) => Value::Integer(*i),
        SqlValue::Text(s) => Value::Text(s.clone()),
        SqlValue::Null | SqlValue::Real | SqlValue::Blob => Value::Null,
    });
    conn.execute(sql, rusqlite::params_from_iter(bound))
}

/// Runs a query without arguments and hands out every row that it returns,
/// column by column: `rusqlite::Connection::prepare`, then
/// `rusqlite::Statement::query_map` with `rusqlite::Row::get_ref` on each
/// column, and `rusqlite::Row::get` for the text of a column that holds
/// one, which fails where the stored text is no UTF-8. Nothing is claimed of
/// the outcome.
#[verifier::external_body]
pub(crate) fn fetch_rows(conn: &Connection, sql: &str) -> (r: Result<
    Vec<Vec<SqlValue>>,
    rusqlite::Error,
>) {
    let mut statement = conn.prepare(sql)?;
    let width = statement.column_count();
    let rows = statement.query_map([], |row| {
        (0..width).map(|column| Ok(match row.get_ref(column)? {
            ValueRef::Null => SqlValue::Null,
            ValueRef::Integer(i) => SqlValue::Integer(i),
            ValueRef::Real(_) => SqlValue::Real,
            ValueRef::Text(_) => SqlValue::Text(row.get(column)?),
            ValueRef::Blob(_) => SqlValue::Blob,
        })).collect()
    })?;
    rows.collect()
}

/// The message of a storage error, by the `Display` of `rusqlite::Error`.
/// Nothing is claimed of the text.
#[verifier::external_body]
pub(crate) fn storage_message(error: &rusqlite::Error) -> (r: String) {
    error.to_string()
}

} // verus!

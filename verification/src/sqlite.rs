//! The calls into SQLite. Nothing in this file is proved: each function says
//! what the library takes on trust from `rusqlite`, and for the path of the
//! database file from `std`.

use vstd::prelude::*;
use crate::value::SqlValue;

verus! {

/// An open connection to one SQLite database.
#[verifier::external_type_specification]
#[verifier::external_body]
pub struct ExConnection(rusqlite::Connection);

/// The failure that a SQLite call reports.
#[verifier::external_type_specification]
#[verifier::external_body]
pub struct ExSqliteError(rusqlite::Error);

/// A value in the form in which `rusqlite` binds and reads it.
#[verifier::external_type_specification]
#[verifier::external_body]
pub struct ExSqliteValue(rusqlite::types::Value);

/// A path in the file system.
#[verifier::external_type_specification]
#[verifier::external_body]
pub struct ExPathBuf(std::path::PathBuf);

/// `PathBuf::join`: the path of the named file within the directory.
#[verifier::external_body]
pub(crate) fn file_within(directory: &std::path::PathBuf, name: &str) -> std::path::PathBuf {
    directory.join(name)
}

/// `rusqlite::Connection::open`: a connection to the database in the file at
/// `path`, which SQLite creates if it is missing, or the failure that SQLite
/// reports. Nothing is claimed of either.
#[verifier::external_body]
pub(crate) fn connect(path: &std::path::PathBuf) -> Result<rusqlite::Connection, rusqlite::Error> {
    rusqlite::Connection::open(path)
}

/// `rusqlite::Connection::open_in_memory`: a connection to a fresh database
/// that lives in memory, or the failure that SQLite reports.
#[verifier::external_body]
pub(crate) fn connect_in_memory() -> Result<rusqlite::Connection, rusqlite::Error> {
    rusqlite::Connection::open_in_memory()
}

/// `rusqlite::Connection::execute_batch`: runs the statements of `sql` one
/// after another and stops at the first that fails. Nothing is claimed of
/// what they do.
#[verifier::external_body]
pub(crate) fn run_batch(connection: &rusqlite::Connection, sql: &str) -> Result<
    (),
    rusqlite::Error,
> {
    connection.execute_batch(sql)
}

/// The `rusqlite::types::Value` that holds what `value` holds. `Other` holds
/// nothing that could be bound, so it is left out.
#[verifier::external_body]
pub(crate) fn outgoing(value: &SqlValue) -> rusqlite::types::Value
    requires
        value.bindable(),
{
    match value {
        SqlValue::Integer(i) => rusqlite::types::Value::Integer(*i),
        SqlValue::Text(s) => rusqlite::types::Value::Text(s.clone()),
        SqlValue::Null | SqlValue::Other => rusqlite::types::Value::Null,
    }
}

/// The value of this library that holds what a `rusqlite::types::Value`
/// holds: a real number or a blob becomes `Other`.
#[verifier::external_body]
pub(crate) fn incoming(value: rusqlite::types::Value) -> SqlValue {
    match value {
        rusqlite::types::Value::Null => SqlValue::Null,
        rusqlite::types::Value::Integer(i) => SqlValue::Integer(i),
        rusqlite::types::Value::Text(s) => SqlValue::Text(s),
        rusqlite::types::Value::Real(_) => SqlValue::Other,
        rusqlite::types::Value::Blob(_) => SqlValue::Other,
    }
}

/// `rusqlite::Connection::execute`: prepares `sql`, binds the parameters in
/// order and runs the statement. On success the number is that of the rows
/// that the statement changed, inserted or deleted. Nothing is claimed of
/// when it succeeds.
#[verifier::external_body]
pub(crate) fn execute(connection: &rusqlite::Connection, sql: &str, parameters: &Vec<SqlValue>) -> Result<
    usize,
    rusqlite::Error,
>
    requires
        forall|i: int| 0 <= i < parameters@.len() ==> (#[trigger] parameters@[i]).bindable(),
{
    connection.execute(sql, rusqlite::params_from_iter(parameters.iter().map(outgoing)))
}

/// `rusqlite::Connection::prepare` and `rusqlite::Statement::query_map`:
/// prepares `sql`, binds the parameters in order, runs the query and reads
/// the first `width` columns of every row with `rusqlite::Row::get`. A row
/// with fewer columns fails the call, so each row that comes back holds
/// `width` values. Nothing is claimed of which rows come back, nor of what
/// they hold.
#[verifier::external_body]
pub(crate) fn fetch(
    connection: &rusqlite::Connection,
    sql: &str,
    parameters: &Vec<SqlValue>,
    width: usize,
) -> (r: Result<Vec<Vec<SqlValue>>, rusqlite::Error>)
    requires
        forall|i: int| 0 <= i < parameters@.len() ==> (#[trigger] parameters@[i]).bindable(),
    ensures
        r matches Ok(rows) ==> forall|i: int|
            0 <= i < rows@.len() ==> (#[trigger] rows@[i])@.len() == width,
{
    let mut statement = connection.prepare(sql)?;
    let bound = rusqlite::params_from_iter(parameters.iter().map(outgoing));
    let rows = statement.query_map(bound, |row| {
        (0..width).map(|i| row.get::<usize, rusqlite::types::Value>(i)).collect()
    })?;
    let read: Vec<Vec<rusqlite::types::Value>> = rows.collect::<Result<_, _>>()?;
    Ok(read.into_iter().map(|cells| cells.into_iter().map(incoming).collect()).collect())
}

/// `rusqlite::Error::sqlite_extended_error_code`: the extended result code
/// that SQLite gave, where the failure came from SQLite itself.
#[verifier::external_body]
pub(crate) fn code_of(failure: &rusqlite::Error) -> Option<i32> {
    failure.sqlite_extended_error_code()
}

/// The `Display` text of a `rusqlite::Error`.
#[verifier::external_body]
pub(crate) fn text_of(failure: &rusqlite::Error) -> String {
    failure.to_string()
}

} // verus!

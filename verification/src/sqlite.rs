//! The calls into the embedded database. What the database answers depends
//! on the file it works on, so none of these calls promises anything of its
//! result: the callers hold for every answer.

use vstd::prelude::*;
use rusqlite::{Connection, Error, Statement, Transaction};
use crate::storage::Row;

verus! {

/// `rusqlite::Connection`, held as it is.
#[verifier::external_type_specification]
#[verifier::external_body]
pub struct ExConnection(Connection);

/// `rusqlite::Error`, held as it is; its text is read with
/// [`db_error_text`].
#[verifier::external_type_specification]
#[verifier::external_body]
pub struct ExError(Error);

/// `rusqlite::Transaction`, held as it is.
#[verifier::external_type_specification]
#[verifier::external_body]
pub struct ExTransaction<'conn>(Transaction<'conn>);

/// `rusqlite::Statement`, held as it is.
#[verifier::external_type_specification]
#[verifier::external_body]
pub struct ExStatement<'conn>(Statement<'conn>);

/// `Connection::open`: opens, or creates, the database at `path`.
#[verifier::external_body]
pub(crate) fn db_open(path: &str) -> (opened: Result<Connection, Error>) {
    Connection::open(path)
}

/// `Connection::query_row` without parameters: the first column of the
/// first row that `sql` yields, as text.
#[verifier::external_body]
pub(crate) fn db_query_text(conn: &Connection, sql: &str) -> (value: Result<String, Error>) {
    conn.query_row(sql, [], |row| row.get(0))
}

/// `Connection::execute_batch`: runs the statements of `sql`.
#[verifier::external_body]
pub(crate) fn db_execute_batch(conn: &Connection, sql: &str) -> (done: Result<(), Error>) {
    conn.execute_batch(sql)
}

/// `Connection::execute`, with the given integers bound to the statement's
/// parameters in order: runs one statement and gives the number of rows it
/// changed.
#[verifier::external_body]
pub(crate) fn db_execute(conn: &Connection, sql: &str, values: &Vec<i64>) -> (changed: Result<
    usize,
    Error,
>) {
    conn.execute(sql, rusqlite::params_from_iter(values.iter()))
}

/// `Connection::transaction`: begins a transaction, which rolls back when
/// dropped without a commit.
#[verifier::external_body]
pub(crate) fn db_begin<'conn>(conn: &'conn mut Connection) -> (tx: Result<
    Transaction<'conn>,
    Error,
>) {
    conn.transaction()
}

/// `Transaction::deref`: the connection that the transaction runs on.
#[verifier::external_body]
pub(crate) fn db_connection<'tx>(tx: &'tx Transaction<'_>) -> (conn: &'tx Connection) {
    tx
}

/// `Connection::prepare`: compiles `sql`.
#[verifier::external_body]
pub(crate) fn db_prepare<'conn>(conn: &'conn Connection, sql: &str) -> (stmt: Result<
    Statement<'conn>,
    Error,
>) {
    conn.prepare(sql)
}

/// `Statement::execute` with the nine columns of a row bound in order.
#[verifier::external_body]
pub(crate) fn db_insert(stmt: &mut Statement<'_>, row: &Row) -> (changed: Result<usize, Error>) {
    stmt.execute(
        (
            row.timestamp,
            &row.src_ip,
            &row.dst_ip,
            row.src_port,
            row.dst_port,
            &row.protocol,
            row.length,
            &row.src_hostname,
            &row.dst_hostname,
        ),
    )
}

/// `Transaction::commit`: makes the transaction's changes durable.
#[verifier::external_body]
pub(crate) fn db_commit(tx: Transaction<'_>) -> (done: Result<(), Error>) {
    tx.commit()
}

/// `Statement::query_map` with one integer parameter, and the rows
/// collected: each row's nine columns, in order, as the fields of one
/// [`Row`].
#[verifier::external_body]
pub(crate) fn db_rows(stmt: &mut Statement<'_>, limit: i64) -> (rows: Result<Vec<Row>, Error>) {
    let rows = stmt.query_map([limit], |row| {
        Ok(Row {
            timestamp: row.get(0)?,
            src_ip: row.get(1)?,
            dst_ip: row.get(2)?,
            src_port: row.get(3)?,
            dst_port: row.get(4)?,
            protocol: row.get(5)?,
            length: row.get(6)?,
            src_hostname: row.get(7)?,
            dst_hostname: row.get(8)?,
        })
    })?;
    rows.collect()
}

/// The error's own description, as its `Display` gives it.
#[verifier::external_body]
pub(crate) fn db_error_text(error: &Error) -> (text: String) {
    error.to_string()
}

} // verus!

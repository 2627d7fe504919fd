//! The boundary to the SQLite client: the client's types, which pass through
//! the repository unopened, and one thin function per client call. The
//! contracts of those functions are not proved: they are taken on trust from
//! the client.

use crate::statements::{SqlStatementView, SqlValue};
use vstd::prelude::*;

verus! {

/// `rusqlite::Connection`: an open connection to a store.
#[verifier::external_type_specification]
#[verifier::external_body]
pub struct ExConnection(rusqlite::Connection);

/// `rusqlite::Error`: the cause of a failure of the store or of the client.
#[verifier::external_type_specification]
#[verifier::external_body]
pub struct ExError(rusqlite::Error);

/// `rusqlite::Statement`: a statement that the store has compiled.
#[verifier::external_type_specification]
#[verifier::external_body]
pub struct ExStatement<'conn>(rusqlite::Statement<'conn>);

/// `rusqlite::Rows`: the rows that a running statement has yet to yield.
#[verifier::external_type_specification]
#[verifier::external_body]
pub struct ExRows<'stmt>(rusqlite::Rows<'stmt>);

/// `rusqlite::Row`: the row that a running statement stands on.
#[verifier::external_type_specification]
#[verifier::external_body]
pub struct ExRow<'stmt>(rusqlite::Row<'stmt>);

/// `rusqlite::types::Value`: a value in the client's own form.
#[verifier::external_type_specification]
pub struct ExValue(rusqlite::types::Value);

/// The text that `statement` was compiled from: the text that was handed to
/// the store for compiling. The store itself keeps the first statement of
/// such a text only; every text of [`crate::statements`] is one statement, so
/// there the two are the same.
pub uninterp spec fn statement_text(statement: &rusqlite::Statement) -> Seq<char>;

/// The statement that yields `rows`: the text that it was compiled from and
/// the values that were bound to its placeholders when it was started.
pub uninterp spec fn rows_source(rows: &rusqlite::Rows) -> SqlStatementView;

/// The statement that yielded `row`: the text that it was compiled from and
/// the values that were bound to its placeholders when it was started.
pub uninterp spec fn row_source(row: &rusqlite::Row) -> SqlStatementView;

/// The columns of `row` that can be read as text, by their index, each with
/// the text that it holds.
pub uninterp spec fn row_texts(row: &rusqlite::Row) -> Map<usize, Seq<char>>;

/// The columns of `row` that can be read as an optional integer, by their
/// index, each with the integer that it holds, or `None` for a NULL.
pub uninterp spec fn row_integers(row: &rusqlite::Row) -> Map<usize, Option<i64>>;

/// Reads column `idx` of `row` as text: calls `rusqlite::Row::get_ref` for
/// the column's value and `rusqlite::types::ValueRef::as_str` for its text,
/// of which a copy is returned. The read succeeds exactly on the columns that
/// can be read as text, and then returns the column's text. A value that is
/// no text is reported through the client's conversion of its
/// `FromSqlError`, which does not look up the column's name.
#[verifier::external_body]
pub(crate) fn column_text(row: &rusqlite::Row, idx: usize) -> (r: Result<String, rusqlite::Error>)
    ensures
        r is Ok <==> row_texts(row).contains_key(idx),
        r is Ok ==> r->Ok_0@ == row_texts(row)[idx],
{
    let value = row.get_ref(idx)?;
    value.as_str().map(str::to_owned).map_err(rusqlite::Error::from)
}

/// Reads column `idx` of `row` as an optional integer: calls
/// `rusqlite::Row::get_ref` for the column's value and
/// `rusqlite::types::ValueRef::as_i64_or_null` for its integer. The read
/// succeeds exactly on the columns that can be read as an optional integer,
/// and then returns the column's integer, or `None` for a NULL. A value that
/// is neither is reported through the client's conversion of its
/// `FromSqlError`, which does not look up the column's name.
#[verifier::external_body]
pub(crate) fn column_integer(row: &rusqlite::Row, idx: usize) -> (r: Result<
    Option<i64>,
    rusqlite::Error,
>)
    ensures
        r is Ok <==> row_integers(row).contains_key(idx),
        r is Ok ==> r->Ok_0 == row_integers(row)[idx],
{
    let value = row.get_ref(idx)?;
    value.as_i64_or_null().map_err(rusqlite::Error::from)
}

/// The client's value that stands for `value`, variant for variant.
pub open spec fn spec_bound_value(value: SqlValue) -> rusqlite::types::Value {
    match value {
        SqlValue::Null => rusqlite::types::Value::Null,
        SqlValue::Integer(i) => rusqlite::types::Value::Integer(i),
        SqlValue::Text(s) => rusqlite::types::Value::Text(s),
    }
}

/// The client's value for `value`, variant for variant.
pub(crate) fn bound_value(value: &SqlValue) -> (bound: rusqlite::types::Value)
    ensures
        bound == spec_bound_value(*value),
{
    match value {
        SqlValue::Null => rusqlite::types::Value::Null,
        SqlValue::Integer(i) => rusqlite::types::Value::Integer(*i),
        SqlValue::Text(s) => rusqlite::types::Value::Text(s.clone()),
    }
}

/// Calls `rusqlite::Connection::open_with_flags` with the flag bits `flags`.
#[verifier::external_body]
pub(crate) fn open_with_flags(path: &str, flags: i32) -> Result<
    rusqlite::Connection,
    rusqlite::Error,
> {
    rusqlite::Connection::open_with_flags(path, rusqlite::OpenFlags::from_bits_truncate(flags))
}

/// Calls `rusqlite::Connection::prepare`: has the store compile `sql`. The
/// statement that comes back is the one compiled from `sql`.
#[verifier::external_body]
pub(crate) fn prepare<'c>(conn: &'c rusqlite::Connection, sql: &str) -> (r: Result<
    rusqlite::Statement<'c>,
    rusqlite::Error,
>)
    ensures
        r is Ok ==> statement_text(&r->Ok_0) == sql@,
{
    conn.prepare(sql)
}

/// Calls `rusqlite::Statement::query`, binding `params` to the placeholders
/// in order. The rows that come back are those of this statement, started
/// with these values.
#[verifier::external_body]
pub(crate) fn query<'s, 'c>(
    stmt: &'s mut rusqlite::Statement<'c>,
    params: &Vec<SqlValue>,
) -> (r: Result<rusqlite::Rows<'s>, rusqlite::Error>)
    ensures
        r is Ok ==> rows_source(&r->Ok_0) == (SqlStatementView {
            text: statement_text(&*old(stmt)),
            params: params@.map_values(|v: SqlValue| v@),
        }),
{
    stmt.query(rusqlite::params_from_iter(params.iter().map(bound_value)))
}

/// Calls `rusqlite::Rows::next`: the next row, or `None` once the statement has
/// yielded all of its rows. A row that comes back is one of the statement
/// that yields `rows`, and `rows` goes on being yielded by that statement.
#[verifier::external_body]
pub(crate) fn next_row<'r, 's>(rows: &'r mut rusqlite::Rows<'s>) -> (r: Result<
    Option<&'r rusqlite::Row<'s>>,
    rusqlite::Error,
>)
    ensures
        rows_source(&*final(rows)) == rows_source(&*old(rows)),
        r matches Ok(Some(row)) ==> row_source(row) == rows_source(&*old(rows)),
{
    rows.next()
}

/// Calls `rusqlite::Connection::execute`, binding `params` to the
/// placeholders in order. On success the number is the count of rows that the
/// statement changed, inserted or deleted.
#[verifier::external_body]
pub(crate) fn execute(conn: &rusqlite::Connection, sql: &str, params: &Vec<SqlValue>) -> Result<
    usize,
    rusqlite::Error,
> {
    conn.execute(sql, rusqlite::params_from_iter(params.iter().map(bound_value)))
}

/// Calls `rusqlite::Connection::last_insert_rowid`: the key of the row that
/// the latest successful insertion on `conn` stored.
#[verifier::external_body]
pub(crate) fn last_insert_rowid(conn: &rusqlite::Connection) -> i64 {
    conn.last_insert_rowid()
}

/// The line of text that `error` gives of itself.
pub uninterp spec fn error_display(error: &rusqlite::Error) -> Seq<char>;

/// Renders a client error through its `Display` impl, which reads the error
/// and nothing else: the text is the line that the error gives of itself.
#[verifier::external_body]
pub(crate) fn error_text(error: &rusqlite::Error) -> (text: String)
    ensures
        text@ == error_display(error),
{
    format!("{}", error)
}

} // verus!

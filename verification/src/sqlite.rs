//! The boundary to SQLite (through `rusqlite`) and to the system clock
//! (through `std` and `chrono`).
//!
//! Every function in this module is trusted: Verus believes the contracts
//! below without reading the bodies. What a statement returns depends on
//! what the database holds, so no wrapper says which rows, ids or counts
//! come back. What they say is where each answer came from:
//! - a prepared statement remembers its SQL text, and a cursor the
//!   statement and parameters it was opened with, how many rows it has
//!   handed out and whether it stands on a row;
//! - a connection (or transaction) remembers the statements that were sent
//!   to it to change the database (`requests`, `requests_in`); the reading
//!   path only takes SELECT statements;
//! - every value read, end of rows, insertion, execution, failure and clock
//!   reading is recorded against what produced it. Those records are
//!   relations: they say what SQLite (or the clock) handed back once, not
//!   what it would hand back again.

use vstd::prelude::*;
use chrono::{DateTime, Utc};
use rusqlite::fallible_streaming_iterator::FallibleStreamingIterator;
use rusqlite::types::Value;
use rusqlite::{Connection, Rows, Statement, ToSql, Transaction};
use crate::entities::SqlParam;

verus! {

/// An open SQLite database (`rusqlite::Connection`), opaque to Verus.
#[verifier::external_type_specification]
#[verifier::external_body]
pub struct ExConnection(Connection);

/// A transaction on a connection (`rusqlite::Transaction`), opaque to Verus.
#[verifier::external_type_specification]
#[verifier::external_body]
pub struct ExTransaction<'conn>(Transaction<'conn>);

/// A prepared statement (`rusqlite::Statement`), opaque to Verus.
#[verifier::external_type_specification]
#[verifier::external_body]
pub struct ExStatement<'conn>(Statement<'conn>);

/// The cursor over the rows of a query (`rusqlite::Rows`), opaque to Verus.
#[verifier::external_type_specification]
#[verifier::external_body]
pub struct ExRows<'stmt>(Rows<'stmt>);

/// The error type of every `rusqlite` call, opaque to Verus.
#[verifier::external_type_specification]
#[verifier::external_body]
pub struct ExSqliteError(rusqlite::Error);

/// A dynamically typed SQLite value (`rusqlite::types::Value`), opaque to
/// Verus; the library only carries such values between the caller and the
/// database.
#[verifier::external_type_specification]
#[verifier::external_body]
pub struct ExValue(Value);

/// A UTC time as `chrono` represents it (`DateTime<Utc>`), carried whole
/// from the clock to the statements that store it; only `utc_timestamp`
/// makes one.
#[verifier::external_body]
pub struct Timestamp {
    at: DateTime<Utc>,
}

impl Clone for Timestamp {
    /// Copies the time (`DateTime<Utc>` is `Copy`).
    #[verifier::external_body]
    fn clone(&self) -> (t: Timestamp) {
        Timestamp { at: self.at }
    }
}

impl Copy for Timestamp {}

/// `sql` is a SELECT statement (its text starts with `SELECT`).
pub open spec fn is_select(sql: Seq<char>) -> bool {
    &&& sql.len() >= 6
    &&& sql.take(6) =~= seq!['S', 'E', 'L', 'E', 'C', 'T']
}

/// The SQL text that `stmt` was prepared from.
pub uninterp spec fn statement_sql(stmt: Statement) -> Seq<char>;

/// The SQL text of the statement that the cursor `rows` runs.
pub uninterp spec fn cursor_sql(rows: Rows) -> Seq<char>;

/// The parameters bound when the cursor `rows` was opened.
pub uninterp spec fn cursor_params(rows: Rows) -> Seq<SqlParam>;

/// How many rows the cursor `rows` has moved onto.
pub uninterp spec fn cursor_position(rows: Rows) -> nat;

/// Whether the cursor `rows` stands on a row (the last one it moved onto).
pub uninterp spec fn cursor_on_row(rows: Rows) -> bool;

/// The statements, with their parameters and in order, sent to `conn`
/// through `execute_on` and `insert_on`, whatever their outcome.
pub uninterp spec fn requests(conn: Connection) -> Seq<(Seq<char>, Seq<SqlParam>)>;

/// The statements, with their parameters and in order, sent to `tx` through
/// `execute_in` and `insert_in`, whatever their outcome.
pub uninterp spec fn requests_in(tx: Transaction) -> Seq<(Seq<char>, Seq<SqlParam>)>;

/// SQLite handed out, in the row at `index` (from 0) of `sql` run with
/// `params`, the INTEGER `value` in the column named `column`.
pub uninterp spec fn yielded_integer(sql: Seq<char>, params: Seq<SqlParam>, index: nat, column: Seq<char>, value: i64) -> bool;

/// As `yielded_integer`, for a TEXT column that may be NULL (`None`).
pub uninterp spec fn yielded_optional_text(sql: Seq<char>, params: Seq<SqlParam>, index: nat, column: Seq<char>, value: Option<String>) -> bool;

/// As `yielded_integer`, for a boolean column that may be NULL (`None`).
pub uninterp spec fn yielded_optional_bool(sql: Seq<char>, params: Seq<SqlParam>, index: nat, column: Seq<char>, value: Option<bool>) -> bool;

/// As `yielded_integer`, for a REAL column that may be NULL (`None`), the
/// number held as the `Value::Real` that carries it.
pub uninterp spec fn yielded_optional_real(sql: Seq<char>, params: Seq<SqlParam>, index: nat, column: Seq<char>, value: Option<Value>) -> bool;

/// As `yielded_integer`, for the TEXT column at position `column`.
pub uninterp spec fn yielded_text_at(sql: Seq<char>, params: Seq<SqlParam>, index: nat, column: nat, text: Seq<char>) -> bool;

/// SQLite reported that `sql` run with `params` has no row after the first
/// `count`.
pub uninterp spec fn answer_ended(sql: Seq<char>, params: Seq<SqlParam>, count: nat) -> bool;

/// SQLite ran `sql` with `params` and reported `changed` rows changed.
pub uninterp spec fn executed(sql: Seq<char>, params: Seq<SqlParam>, changed: nat) -> bool;

/// SQLite ran the insertion `sql` with `params`, which inserted exactly one
/// row, the row `rowid`.
pub uninterp spec fn inserted(sql: Seq<char>, params: Seq<SqlParam>, rowid: i64) -> bool;

/// Preparing `sql` failed with `e`.
pub uninterp spec fn prepare_failed(sql: Seq<char>, e: rusqlite::Error) -> bool;

/// Preparing, running or reading `sql` with `params` failed with `e`.
pub uninterp spec fn sqlite_failed(sql: Seq<char>, params: Seq<SqlParam>, e: rusqlite::Error) -> bool;

/// The system clock was read, at `since` from the Unix epoch: after it
/// (`Ok`) or before it (`Err`), in whole seconds and nanoseconds.
pub uninterp spec fn clock_read(since: Result<(u64, u32), (u64, u32)>) -> bool;

/// The UTC time `seconds` seconds and `nanos` nanoseconds after the Unix
/// epoch, as `DateTime::from_timestamp` makes it.
pub uninterp spec fn utc_at(seconds: i64, nanos: u32) -> Timestamp;

/// Calls `Connection::prepare` for a SELECT statement; a statement it hands
/// back was prepared from `sql`. Whether it succeeds depends on the schema
/// of the database.
#[verifier::external_body]
pub(crate) fn prepare<'conn>(conn: &'conn Connection, sql: &str) -> (r: Result<Statement<'conn>, rusqlite::Error>)
    requires
        is_select(sql@),
    ensures
        r matches Ok(stmt) ==> statement_sql(stmt) == sql@,
        r matches Err(e) ==> prepare_failed(sql@, e),
{
    conn.prepare(sql)
}

/// Calls `Deref::deref` on a `Transaction`, which hands out the connection
/// that the transaction runs on, so that statements prepared on it take
/// part in the transaction. Nothing is stated of the result.
#[verifier::external_body]
pub(crate) fn transaction_connection<'a, 'conn>(tx: &'a Transaction<'conn>) -> (c: &'a Connection) {
    std::ops::Deref::deref(tx)
}

/// Calls `Statement::query` with `params` bound in order to the `?`
/// placeholders, each parameter converted one for one to the value it
/// carries. The cursor it hands back runs the statement's SQL with those
/// parameters and has moved onto no row yet.
#[verifier::external_body]
pub(crate) fn query<'a, 'conn>(stmt: &'a mut Statement<'conn>, params: &[SqlParam]) -> (r: Result<Rows<'a>, rusqlite::Error>)
    ensures
        r matches Ok(rows) ==> cursor_sql(rows) == statement_sql(*old(stmt)) && cursor_params(rows)
            == params@ && cursor_position(rows) == 0 && !cursor_on_row(rows),
        r matches Err(e) ==> sqlite_failed(statement_sql(*old(stmt)), params@, e),
{
    stmt.query(rusqlite::params_from_iter(params.iter().map(|p| match p {
        SqlParam::Integer(i) => i as &dyn ToSql,
        SqlParam::Text(s) => s as &dyn ToSql,
        SqlParam::Raw(v) => v as &dyn ToSql,
        SqlParam::Timestamp(t) => &t.at as &dyn ToSql,
    })))
}

/// Calls `Rows::next`: `true` when the cursor moved onto a further row,
/// `false` when the statement has no further row.
#[verifier::external_body]
pub(crate) fn advance(rows: &mut Rows) -> (r: Result<bool, rusqlite::Error>)
    ensures
        r is Ok ==> cursor_sql(*final(rows)) == cursor_sql(*old(rows)) && cursor_params(*final(rows))
            == cursor_params(*old(rows)),
        r == Ok::<bool, rusqlite::Error>(true) ==> cursor_on_row(*final(rows)) && cursor_position(*final(rows))
            == cursor_position(*old(rows)) + 1,
        r == Ok::<bool, rusqlite::Error>(false) ==> answer_ended(cursor_sql(*old(rows)), cursor_params(*old(rows)), cursor_position(*old(rows))),
        r matches Err(e) ==> sqlite_failed(cursor_sql(*old(rows)), cursor_params(*old(rows)), e),
{
    rows.next().map(|row| row.is_some())
}

/// Calls `Row::get` on the row the cursor stands on, for the INTEGER column
/// named `column` (NULL is an error); `None` when it stands on no row.
#[verifier::external_body]
pub(crate) fn column_integer(rows: &Rows, column: &str) -> (r: Option<Result<i64, rusqlite::Error>>)
    ensures
        cursor_on_row(*rows) ==> r is Some,
        r matches Some(Ok(v)) ==> cursor_on_row(*rows) && yielded_integer(cursor_sql(*rows), cursor_params(*rows), (cursor_position(*rows) - 1) as nat, column@, v),
        r matches Some(Err(e)) ==> sqlite_failed(cursor_sql(*rows), cursor_params(*rows), e),
{
    rows.get().map(|row| row.get(column))
}

/// Calls `Row::get` on the row the cursor stands on, for the TEXT column
/// named `column` (NULL reads as `None`); `None` when it stands on no row.
#[verifier::external_body]
pub(crate) fn column_optional_text(rows: &Rows, column: &str) -> (r: Option<Result<Option<String>, rusqlite::Error>>)
    ensures
        cursor_on_row(*rows) ==> r is Some,
        r matches Some(Ok(v)) ==> cursor_on_row(*rows) && yielded_optional_text(cursor_sql(*rows), cursor_params(*rows), (cursor_position(*rows) - 1) as nat, column@, v),
        r matches Some(Err(e)) ==> sqlite_failed(cursor_sql(*rows), cursor_params(*rows), e),
{
    rows.get().map(|row| row.get(column))
}

/// Calls `Row::get` on the row the cursor stands on, for the boolean column
/// named `column` (NULL reads as `None`); `None` when it stands on no row.
#[verifier::external_body]
pub(crate) fn column_optional_bool(rows: &Rows, column: &str) -> (r: Option<Result<Option<bool>, rusqlite::Error>>)
    ensures
        cursor_on_row(*rows) ==> r is Some,
        r matches Some(Ok(v)) ==> cursor_on_row(*rows) && yielded_optional_bool(cursor_sql(*rows), cursor_params(*rows), (cursor_position(*rows) - 1) as nat, column@, v),
        r matches Some(Err(e)) ==> sqlite_failed(cursor_sql(*rows), cursor_params(*rows), e),
{
    rows.get().map(|row| row.get(column))
}

/// Calls `Row::get` on the row the cursor stands on, for the REAL column
/// named `column` (an INTEGER is widened, NULL reads as `None`, other types
/// are an error, as `Row::get` does for a real number); the number is
/// handed back as the `Value::Real` that carries it. `None` when the cursor
/// stands on no row.
#[verifier::external_body]
pub(crate) fn column_optional_real(rows: &Rows, column: &str) -> (r: Option<Result<Option<Value>, rusqlite::Error>>)
    ensures
        cursor_on_row(*rows) ==> r is Some,
        r matches Some(Ok(v)) ==> cursor_on_row(*rows) && yielded_optional_real(cursor_sql(*rows), cursor_params(*rows), (cursor_position(*rows) - 1) as nat, column@, v),
        r matches Some(Err(e)) ==> sqlite_failed(cursor_sql(*rows), cursor_params(*rows), e),
{
    rows.get().map(|row| row.get(column).map(|d: Option<_>| d.map(Value::Real)))
}

/// Calls `Row::get` on the row the cursor stands on, for the TEXT column at
/// position `column` (NULL is an error); `None` when it stands on no row.
#[verifier::external_body]
pub(crate) fn column_text_at(rows: &Rows, column: usize) -> (r: Option<Result<String, rusqlite::Error>>)
    ensures
        cursor_on_row(*rows) ==> r is Some,
        r matches Some(Ok(v)) ==> cursor_on_row(*rows) && yielded_text_at(cursor_sql(*rows), cursor_params(*rows), (cursor_position(*rows) - 1) as nat, column as nat, v@),
        r matches Some(Err(e)) ==> sqlite_failed(cursor_sql(*rows), cursor_params(*rows), e),
{
    rows.get().map(|row| row.get(column))
}

/// Calls `Connection::execute`, which prepares `sql` and runs it with
/// `params` bound as in `query`; the request is recorded whatever its
/// outcome.
#[verifier::external_body]
pub(crate) fn execute_on(conn: &mut Connection, sql: &str, params: &[SqlParam]) -> (r: Result<usize, rusqlite::Error>)
    ensures
        requests(*final(conn)) == requests(*old(conn)).push((sql@, params@)),
        r matches Ok(changed) ==> executed(sql@, params@, changed as nat),
        r matches Err(e) ==> sqlite_failed(sql@, params@, e),
{
    conn.execute(sql, rusqlite::params_from_iter(params.iter().map(|p| match p {
        SqlParam::Integer(i) => i as &dyn ToSql,
        SqlParam::Text(s) => s as &dyn ToSql,
        SqlParam::Raw(v) => v as &dyn ToSql,
        SqlParam::Timestamp(t) => &t.at as &dyn ToSql,
    })))
}

/// Calls `Connection::prepare` for `sql`, then `Statement::insert` with
/// `params` bound as in `query`; `Ok` only when exactly one row was
/// inserted, with the rowid SQLite chose. The request is recorded whatever
/// its outcome.
#[verifier::external_body]
pub(crate) fn insert_on(conn: &mut Connection, sql: &str, params: &[SqlParam]) -> (r: Result<i64, rusqlite::Error>)
    ensures
        requests(*final(conn)) == requests(*old(conn)).push((sql@, params@)),
        r matches Ok(rowid) ==> inserted(sql@, params@, rowid),
        r matches Err(e) ==> sqlite_failed(sql@, params@, e),
{
    conn.prepare(sql)?.insert(rusqlite::params_from_iter(params.iter().map(|p| match p {
        SqlParam::Integer(i) => i as &dyn ToSql,
        SqlParam::Text(s) => s as &dyn ToSql,
        SqlParam::Raw(v) => v as &dyn ToSql,
        SqlParam::Timestamp(t) => &t.at as &dyn ToSql,
    })))
}

/// `execute_on` inside the transaction `tx` (`Connection::execute` on the
/// transaction's connection).
#[verifier::external_body]
pub(crate) fn execute_in(tx: &mut Transaction, sql: &str, params: &[SqlParam]) -> (r: Result<usize, rusqlite::Error>)
    ensures
        requests_in(*final(tx)) == requests_in(*old(tx)).push((sql@, params@)),
        r matches Ok(changed) ==> executed(sql@, params@, changed as nat),
        r matches Err(e) ==> sqlite_failed(sql@, params@, e),
{
    tx.execute(sql, rusqlite::params_from_iter(params.iter().map(|p| match p {
        SqlParam::Integer(i) => i as &dyn ToSql,
        SqlParam::Text(s) => s as &dyn ToSql,
        SqlParam::Raw(v) => v as &dyn ToSql,
        SqlParam::Timestamp(t) => &t.at as &dyn ToSql,
    })))
}

/// `insert_on` inside the transaction `tx`.
#[verifier::external_body]
pub(crate) fn insert_in(tx: &mut Transaction, sql: &str, params: &[SqlParam]) -> (r: Result<i64, rusqlite::Error>)
    ensures
        requests_in(*final(tx)) == requests_in(*old(tx)).push((sql@, params@)),
        r matches Ok(rowid) ==> inserted(sql@, params@, rowid),
        r matches Err(e) ==> sqlite_failed(sql@, params@, e),
{
    tx.prepare(sql)?.insert(rusqlite::params_from_iter(params.iter().map(|p| match p {
        SqlParam::Integer(i) => i as &dyn ToSql,
        SqlParam::Text(s) => s as &dyn ToSql,
        SqlParam::Raw(v) => v as &dyn ToSql,
        SqlParam::Timestamp(t) => &t.at as &dyn ToSql,
    })))
}

/// Reads the system clock with `SystemTime::now` and converts the reading
/// to its distance from the Unix epoch with `SystemTime::duration_since`:
/// `Ok` with the whole seconds and nanoseconds after the epoch, or `Err`
/// with those before it. The nanoseconds are below one billion, as
/// `Duration::subsec_nanos` documents. The reading is recorded.
#[verifier::external_body]
pub(crate) fn read_clock() -> (r: Result<(u64, u32), (u64, u32)>)
    ensures
        clock_read(r),
        r matches Ok((_, nanos)) ==> nanos < 1_000_000_000,
        r matches Err((_, nanos)) ==> nanos < 1_000_000_000,
{
    match std::time::SystemTime::now().duration_since(std::time::SystemTime::UNIX_EPOCH) {
        Ok(d) => Ok((d.as_secs(), d.subsec_nanos())),
        Err(e) => Err((e.duration().as_secs(), e.duration().subsec_nanos())),
    }
}

/// Calls `DateTime::from_timestamp`: the UTC time `seconds` seconds and
/// `nanos` nanoseconds after the Unix epoch, `None` where the seconds lie
/// outside the dates `chrono` represents (the years -262142 to 262142) or
/// the nanoseconds are invalid. Within eight trillion seconds of the epoch
/// (about 253,000 years) and with fewer than a billion nanoseconds the
/// time is always representable.
#[verifier::external_body]
pub(crate) fn utc_timestamp(seconds: i64, nanos: u32) -> (t: Option<Timestamp>)
    ensures
        t matches Some(at) ==> at == utc_at(seconds, nanos),
        -8_000_000_000_000 <= seconds <= 8_000_000_000_000 && nanos < 1_000_000_000 ==> t is Some,
{
    DateTime::from_timestamp(seconds, nanos).map(|at| Timestamp { at })
}

}

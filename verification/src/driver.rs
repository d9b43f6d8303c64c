//! What this crate takes on trust from the SQLite driver and from `std`.
//!
//! Nothing here is proved. Each item names the outside function it speaks of
//! and says what is claimed of it; the rest of the crate is verified against
//! these claims alone.

use vstd::prelude::*;
use vstd::utf8::{encode_utf8, valid_utf8};

use crate::value::{RawValue, Scalar};

verus! {

/// `rusqlite::Connection`: one open database. Nothing inside it is visible.
#[verifier::external_type_specification]
#[verifier::external_body]
pub struct ExConnection(rusqlite::Connection);

/// `rusqlite::Error`: the driver's diagnostic. Never looked into.
#[verifier::external_type_specification]
#[verifier::external_body]
pub struct ExDriverError(rusqlite::Error);

/// `rusqlite::Statement`: a compiled statement, bound to its connection.
#[verifier::external_type_specification]
#[verifier::external_body]
pub struct ExStatement<'conn>(rusqlite::Statement<'conn>);

/// `rusqlite::Rows`: the cursor over a running statement's result rows.
#[verifier::external_type_specification]
#[verifier::external_body]
pub struct ExRows<'stmt>(rusqlite::Rows<'stmt>);

/// `rusqlite::Row`: the row a cursor stands on.
#[verifier::external_type_specification]
#[verifier::external_body]
pub struct ExRow<'stmt>(rusqlite::Row<'stmt>);

/// `std::path::PathBuf`: carried to the driver untouched.
#[verifier::external_type_specification]
#[verifier::external_body]
pub struct ExPathBuf(std::path::PathBuf);

/// `std::string::FromUtf8Error`: why bytes were no UTF-8. Never looked into.
#[verifier::external_type_specification]
#[verifier::external_body]
pub struct ExFromUtf8Error(std::string::FromUtf8Error);

/// The columns of the row that a cursor stands on, first column first.
pub uninterp spec fn row_cells(row: rusqlite::Row<'_>) -> Seq<Scalar>;

/// The rows that a cursor has handed out so far, oldest first.
pub uninterp spec fn yielded(rows: rusqlite::Rows<'_>) -> Seq<Seq<Scalar>>;

/// Whether a cursor has let go of its statement, after which it hands out
/// nothing more.
pub uninterp spec fn drained(rows: rusqlite::Rows<'_>) -> bool;

/// Whether a step of this cursor has failed since the cursor was made.
pub uninterp spec fn failed(rows: rusqlite::Rows<'_>) -> bool;

/// `String::from_utf8`. Its documentation: the bytes become the string
/// without a copy when they are valid UTF-8, and an error comes back when
/// they are not.
pub assume_specification[ String::from_utf8 ](vec: Vec<u8>) -> (r: Result<
    String,
    std::string::FromUtf8Error,
>)
    ensures
        r is Ok <==> valid_utf8(vec@),
        r matches Ok(s) ==> encode_utf8(s@) == vec@,
;

/// `Connection::open`: opens the database file at `path`, creating it when it
/// is missing. Whether that works is the file system's matter, so nothing is
/// claimed of the result.
#[verifier::external_body]
pub(crate) fn connect(path: std::path::PathBuf) -> (r: Result<
    rusqlite::Connection,
    rusqlite::Error,
>) {
    rusqlite::Connection::open(path)
}

/// `Connection::execute` with no bound parameters: compiles and runs one
/// statement and reports how many rows it changed. The count is the engine's;
/// nothing is claimed of it.
#[verifier::external_body]
pub(crate) fn run(conn: &rusqlite::Connection, sql: &str) -> (r: Result<usize, rusqlite::Error>) {
    conn.execute(sql, rusqlite::NO_PARAMS)
}

/// `Connection::last_insert_rowid`: the row id of the latest insert that
/// succeeded on this connection. Nothing is claimed of it.
#[verifier::external_body]
pub(crate) fn last_rowid(conn: &rusqlite::Connection) -> (id: i64) {
    conn.last_insert_rowid()
}

/// `Connection::flush_prepared_statement_cache`: drops the compiled
/// statements that the connection has cached. It returns nothing.
#[verifier::external_body]
pub(crate) fn drop_cached(conn: &rusqlite::Connection) {
    conn.flush_prepared_statement_cache()
}

/// `Connection::close`: releases the connection. On failure the driver hands
/// the connection back, still open, beside its error. Whether the release
/// works is the engine's matter, so nothing is claimed of the result.
#[verifier::external_body]
pub(crate) fn shut(conn: rusqlite::Connection) -> (r: Result<
    (),
    (rusqlite::Connection, rusqlite::Error),
>) {
    conn.close()
}

/// `std::mem::forget`: gives a connection up without running its destructor.
/// The destructor of a connection tries the release again and panics when
/// that fails, so a connection whose release has failed is given up this way.
/// It returns nothing.
#[verifier::external_body]
pub(crate) fn abandon(conn: rusqlite::Connection) {
    std::mem::forget(conn)
}

/// `Connection::prepare`: compiles one statement. Nothing is claimed of the
/// result.
#[verifier::external_body]
pub(crate) fn compile<'conn>(conn: &'conn rusqlite::Connection, sql: &str) -> (r: Result<
    rusqlite::Statement<'conn>,
    rusqlite::Error,
>) {
    conn.prepare(sql)
}

/// `Statement::query` with no bound parameters: starts the statement and
/// gives the cursor over its rows.
///
/// Claimed, as the driver's source has it: the cursor is new, so it has
/// handed out no row yet and no step of it has failed. Whether the call
/// succeeds is not claimed.
#[verifier::external_body]
pub(crate) fn start<'stmt>(stmt: &'stmt mut rusqlite::Statement<'_>) -> (r: Result<
    rusqlite::Rows<'stmt>,
    rusqlite::Error,
>)
    ensures
        match r {
            Ok(rows) => yielded(rows).len() == 0 && !failed(rows),
            Err(_) => true,
        },
{
    stmt.query(rusqlite::NO_PARAMS)
}

/// `Rows::next`: moves the cursor one row on.
///
/// Claimed, as the driver's source has it: a row that comes back is the next
/// one handed out; at the end of the rows, and on a failure, none is handed
/// out; at the end the cursor lets go of its statement, and once it has, every
/// later call reports the end. A call that returns an error is a step that
/// failed; any other call leaves that record as it was.
#[verifier::external_body]
pub(crate) fn step<'a, 'stmt>(rows: &'a mut rusqlite::Rows<'stmt>) -> (r: Result<
    Option<&'a rusqlite::Row<'stmt>>,
    rusqlite::Error,
>)
    ensures
        match r {
            Ok(Some(row)) => {
                &&& yielded(*final(rows)) == yielded(*old(rows)).push(row_cells(*row))
                &&& failed(*final(rows)) == failed(*old(rows))
            },
            Ok(None) => {
                &&& yielded(*final(rows)) == yielded(*old(rows))
                &&& failed(*final(rows)) == failed(*old(rows))
                &&& drained(*final(rows))
            },
            Err(_) => {
                &&& yielded(*final(rows)) == yielded(*old(rows))
                &&& failed(*final(rows))
            },
        },
        drained(*old(rows)) ==> r matches Ok(None),
{
    rows.next()
}

/// `Row::column_count`: how many columns the row has.
#[verifier::external_body]
pub(crate) fn width(row: &rusqlite::Row<'_>) -> (n: usize)
    ensures
        n == row_cells(*row).len(),
{
    row.column_count()
}

/// `Row::get_raw_checked`: the column at `index`, as the engine holds it.
///
/// Claimed, as the driver's source has it: an index below the column count
/// gives that column, any other index an error. The borrowed scalar is copied
/// into an owned one, variant by variant; a real by `f64::to_bits`.
///
/// Not covered: the driver aborts with a panic if the engine itself breaks
/// its interface (a text or blob without data, a type code it does not know).
#[verifier::external_body]
pub(crate) fn cell(row: &rusqlite::Row<'_>, index: usize) -> (r: Result<RawValue, rusqlite::Error>)
    ensures
        match r {
            Ok(v) => index < row_cells(*row).len() && v@ == row_cells(*row)[index as int],
            Err(_) => index >= row_cells(*row).len(),
        },
{
    Ok(match row.get_raw_checked(index)? {
        rusqlite::types::ValueRef::Null => RawValue::Null,
        rusqlite::types::ValueRef::Integer(i) => RawValue::Integer(i),
        rusqlite::types::ValueRef::Real(x) => RawValue::Real(x.to_bits()),
        rusqlite::types::ValueRef::Text(bytes) => RawValue::Text(bytes.to_vec()),
        rusqlite::types::ValueRef::Blob(bytes) => RawValue::Blob(bytes.to_vec()),
    })
}

} // verus!

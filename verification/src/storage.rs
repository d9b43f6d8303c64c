//! The adapter: one connection, and raw SQL passed through it.

use vstd::prelude::*;

use crate::driver::{abandon, cell, compile, connect, drop_cached, last_rowid, run, shut};
use crate::driver::{start, step, width};
use crate::driver::{drained, failed, row_cells, yielded};
use crate::error::{settle, DsError};
use crate::value::{DsValue, Scalar};

verus! {

/// The scalars that a row of values stands for, column by column.
pub open spec fn row_model(row: Seq<DsValue>) -> Seq<Scalar> {
    row.map_values(|v: DsValue| v@)
}

/// The scalars that a table of values stands for, row by row.
pub open spec fn table_model(table: Seq<Vec<DsValue>>) -> Seq<Seq<Scalar>> {
    table.map_values(|row: Vec<DsValue>| row_model(row@))
}

/// Whether every column of a row can be read.
pub open spec fn row_readable(cells: Seq<Scalar>) -> bool {
    forall|i: int| 0 <= i < cells.len() ==> (#[trigger] cells[i]).readable()
}

/// Whether every row of a table can be read.
pub open spec fn all_readable(rows: Seq<Seq<Scalar>>) -> bool {
    forall|i: int| 0 <= i < rows.len() ==> row_readable(#[trigger] rows[i])
}

/// Reads the row that a cursor stands on into owned values, in column order.
///
/// A row whose columns can all be read gives exactly those columns; any other
/// row gives `QueryRow`.
pub fn read_row(row: &rusqlite::Row<'_>) -> (r: Result<Vec<DsValue>, DsError>)
    ensures
        row_readable(row_cells(*row)) ==> (r matches Ok(values) && row_model(values@) == row_cells(
            *row,
        )),
        !row_readable(row_cells(*row)) ==> r == Err::<Vec<DsValue>, DsError>(DsError::QueryRow),
{
    let count = width(row);
    let mut values: Vec<DsValue> = Vec::new();
    let mut i: usize = 0;
    while i < count
        invariant
            count == row_cells(*row).len(),
            i <= count,
            values@.len() == i,
            forall|j: int| 0 <= j < i ==> (#[trigger] values@[j])@ == row_cells(*row)[j],
            forall|j: int| 0 <= j < i ==> (#[trigger] row_cells(*row)[j]).readable(),
        decreases count - i,
    {
        let raw = settle(cell(row, i), DsError::QueryRow)?;
        let value = DsValue::decode(raw)?;
        values.push(value);
        i = i + 1;
    }
    assert(row_model(values@) =~= row_cells(*row));
    Ok(values)
}

/// What a walk may return that took a cursor from the state `before` to the
/// state `after`.
///
/// The cursor handed out its rows one after the other. On success it is
/// drained, no step failed, and the table holds exactly the rows handed out
/// on the way, in their order, fewer than `usize::MAX` of them. `QueryRow`
/// comes when the row handed out last could not be read, all rows before it
/// having been read and no step having failed. `Query` comes when a step
/// failed, or when the table already held `usize::MAX` rows and could not
/// take another; the rows handed out till then were all read. No other error
/// comes.
pub open spec fn walked(
    before: rusqlite::Rows<'_>,
    after: rusqlite::Rows<'_>,
    r: Result<Vec<Vec<DsValue>>, DsError>,
) -> bool {
    let fresh = yielded(after).skip(yielded(before).len() as int);
    &&& yielded(before).is_prefix_of(yielded(after))
    &&& match r {
        Ok(table) => {
            &&& drained(after)
            &&& failed(after) == failed(before)
            &&& fresh == table_model(table@)
            &&& table@.len() < usize::MAX
        },
        Err(DsError::Query) => {
            &&& all_readable(fresh)
            &&& failed(after) || fresh.len() == usize::MAX
        },
        Err(DsError::QueryRow) => {
            &&& failed(after) == failed(before)
            &&& fresh.len() > 0
            &&& all_readable(fresh.drop_last())
            &&& !row_readable(fresh.last())
        },
        Err(_) => false,
    }
}

/// Whether a cursor is as `Statement::query` makes it: no row handed out, no
/// step failed.
pub open spec fn started_fresh(cursor: rusqlite::Rows<'_>) -> bool {
    yielded(cursor).len() == 0 && !failed(cursor)
}

/// Settles what one step of a cursor gave: a failure of the step is `Query`,
/// the end of the rows is `None`, and a row is read as `read_row` reads it.
pub fn row_of_step(outcome: Result<Option<&rusqlite::Row<'_>>, rusqlite::Error>) -> (r: Result<
    Option<Vec<DsValue>>,
    DsError,
>)
    ensures
        match outcome {
            Err(_) => r == Err::<Option<Vec<DsValue>>, DsError>(DsError::Query),
            Ok(None) => r == Ok::<Option<Vec<DsValue>>, DsError>(None),
            Ok(Some(row)) => if row_readable(row_cells(*row)) {
                r matches Ok(Some(values)) && row_model(values@) == row_cells(*row)
            } else {
                r == Err::<Option<Vec<DsValue>>, DsError>(DsError::QueryRow)
            },
        },
{
    match settle(outcome, DsError::Query)? {
        None => Ok(None),
        Some(row) => Ok(Some(read_row(row)?)),
    }
}

/// Walks a cursor to its end and gathers every row it hands out, in the order
/// in which they come. The first failure ends the walk and is the result: no
/// part of the rows is returned then. A cursor that was drained before gives
/// an empty table.
pub fn collect_rows(rows: &mut rusqlite::Rows<'_>) -> (r: Result<Vec<Vec<DsValue>>, DsError>)
    ensures
        walked(*old(rows), *final(rows), r),
        drained(*old(rows)) ==> (r matches Ok(table) && table@.len() == 0),
{
    let mut table: Vec<Vec<DsValue>> = Vec::new();
    loop
        invariant
            yielded(*rows) =~= yielded(*old(rows)) + table_model(table@),
            failed(*rows) == failed(*old(rows)),
            all_readable(table_model(table@)),
            drained(*old(rows)) ==> table@.len() == 0 && *rows == *old(rows),
        decreases usize::MAX - table.len(),
    {
        let ghost fresh = yielded(*rows).skip(yielded(*old(rows)).len() as int);
        assert(fresh =~= table_model(table@));
        if table.len() == usize::MAX {
            return Err(DsError::Query);
        }
        let ghost before = table@;
        match row_of_step(step(rows)) {
            Err(kind) => {
                proof {
                    let now = yielded(*rows).skip(yielded(*old(rows)).len() as int);
                    if kind == DsError::QueryRow {
                        assert(now.drop_last() =~= table_model(before));
                    } else {
                        assert(now =~= table_model(before));
                    }
                }
                return Err(kind);
            },
            Ok(None) => {
                assert(yielded(*rows).skip(yielded(*old(rows)).len() as int) =~= table_model(
                    table@,
                ));
                return Ok(table);
            },
            Ok(Some(values)) => {
                table.push(values);
                proof {
                    assert(table_model(table@) =~= table_model(before).push(
                        row_model(values@),
                    ));
                    assert forall|i: int| 0 <= i < table@.len() implies row_readable(
                        #[trigger] table_model(table@)[i],
                    ) by {
                        if i < before.len() {
                            assert(table_model(table@)[i] == table_model(before)[i]);
                        }
                    }
                }
            },
        }
    }
}

/// Settles what starting a statement gave: a failure to start is `Query`, and
/// a cursor is walked to its end as `collect_rows` walks it.
pub fn rows_of_started(started: Result<rusqlite::Rows<'_>, rusqlite::Error>) -> (r: Result<
    Vec<Vec<DsValue>>,
    DsError,
>)
    ensures
        match started {
            Err(_) => r == Err::<Vec<Vec<DsValue>>, DsError>(DsError::Query),
            Ok(rows) => exists|after: rusqlite::Rows<'_>| #[trigger] walked(rows, after, r),
        },
{
    let mut rows = settle(started, DsError::Query)?;
    let ghost before = rows;
    let gathered = collect_rows(&mut rows);
    assert(walked(before, rows, gathered));
    gathered
}

/// Settles what compiling a statement gave: a failure to compile is
/// `Prepare`, and nothing else is. A compiled statement is started, and its
/// cursor walked from its fresh state to its end; a failure to start is
/// `Query`.
pub fn rows_of_compiled(compiled: Result<rusqlite::Statement<'_>, rusqlite::Error>) -> (r: Result<
    Vec<Vec<DsValue>>,
    DsError,
>)
    ensures
        match compiled {
            Err(_) => r == Err::<Vec<Vec<DsValue>>, DsError>(DsError::Prepare),
            Ok(_) => {
                ||| r == Err::<Vec<Vec<DsValue>>, DsError>(DsError::Query)
                ||| exists|before: rusqlite::Rows<'_>, after: rusqlite::Rows<'_>|
                    started_fresh(before) && #[trigger] walked(before, after, r)
            },
        },
        compiled is Ok ==> !(r matches Err(DsError::Prepare)),
{
    let mut stmt = settle(compiled, DsError::Prepare)?;
    let started = start(&mut stmt);
    let ghost begun = started;
    let gathered = rows_of_started(started);
    proof {
        if let Ok(before) = begun {
            let after = choose|after: rusqlite::Rows<'_>| #[trigger] walked(before, after, gathered);
            assert(started_fresh(before) && walked(before, after, gathered));
        }
    }
    gathered
}

/// Settles what releasing a connection gave. A release that failed is
/// `Close`; the connection that the driver handed back, still open, is given
/// up as it is, because releasing it once more would fail the same way.
pub fn after_close(outcome: Result<(), (rusqlite::Connection, rusqlite::Error)>) -> (r: Result<
    (),
    DsError,
>)
    ensures
        r == match outcome {
            Ok(_) => Ok::<(), DsError>(()),
            Err(_) => Err::<(), DsError>(DsError::Close),
        },
{
    match outcome {
        Ok(()) => Ok(()),
        Err(back) => {
            abandon(back.0);
            Err(DsError::Close)
        },
    }
}

/// Order is kept, of rows and of columns: after a successful `collect_rows`
/// the value in row `i`, column `j` of the table stands for column `j` of the
/// `i`-th row that the cursor handed out during the call, and the table has a
/// row for each of them.
pub proof fn lemma_table_keeps_order(
    before: Seq<Seq<Scalar>>,
    after: Seq<Seq<Scalar>>,
    table: Seq<Vec<DsValue>>,
    i: int,
    j: int,
)
    requires
        after == before + table_model(table),
        0 <= i < table.len(),
        0 <= j < table[i]@.len(),
    ensures
        after.len() == before.len() + table.len(),
        after[before.len() + i].len() == table[i]@.len(),
        table[i]@[j]@ == after[before.len() + i][j],
{
}

/// Settles what an `INSERT` gave, from the outcome of running it and the row
/// id that the connection reported afterwards: a success gives that row id,
/// not the count of changed rows, and a failure is handed on as it is.
pub fn id_of(ran: Result<usize, DsError>, rowid: i64) -> (r: Result<i64, DsError>)
    ensures
        r == match ran {
            Ok(_) => Ok::<i64, DsError>(rowid),
            Err(kind) => Err::<i64, DsError>(kind),
        },
{
    match ran {
        Ok(_) => Ok(rowid),
        Err(kind) => Err(kind),
    }
}

/// Rows and columns keep their order through `query`. Where a cursor was
/// walked from its fresh state and gave a table, the table has one row for
/// each row that the cursor handed out, none left out, repeated or moved, and
/// the value in row `k`, column `j` stands for column `j` of the `k`-th row
/// handed out.
pub proof fn lemma_query_keeps_order(
    before: rusqlite::Rows<'_>,
    after: rusqlite::Rows<'_>,
    table: Vec<Vec<DsValue>>,
    k: int,
    j: int,
)
    requires
        started_fresh(before),
        walked(before, after, Ok(table)),
        0 <= k < table@.len(),
        0 <= j < table@[k]@.len(),
    ensures
        yielded(after).len() == table@.len(),
        yielded(after)[k].len() == table@[k]@.len(),
        table@[k]@[j]@ == yielded(after)[k][j],
{
    assert(yielded(after).skip(0) =~= yielded(after));
}

/// One open connection to a database file.
///
/// The adapter owns its connection from `open` to `close`; `close` takes the
/// adapter by value, so nothing can be asked of a closed one.
pub struct DStorage {
    connect: rusqlite::Connection,
}

impl DStorage {
    /// Opens the database file at `path`, creating it when it is missing.
    pub fn open(path: std::path::PathBuf) -> (r: Result<Self, DsError>)
        ensures
            r matches Err(e) ==> e == DsError::Open,
    {
        let connect = settle(connect(path), DsError::Open)?;
        Ok(DStorage { connect })
    }

    /// Runs one statement that gives no rows and returns how many rows it
    /// changed, as the engine counts them.
    pub fn execute(&self, sql: &str) -> (r: Result<usize, DsError>)
        ensures
            r matches Err(e) ==> e == DsError::Execute,
    {
        settle(run(&self.connect, sql), DsError::Execute)
    }

    /// Runs one statement and returns all its rows at once, each row in
    /// column order, the rows in the order in which the engine gives them.
    ///
    /// `Prepare` comes when the statement does not compile, `Query` when it
    /// does not start or a step of its cursor fails. In every other case the
    /// result is that of walking the statement's fresh cursor to its end: a
    /// table is, row for row and column for column, what a cursor handed out
    /// from its start until it was drained, no step having failed.
    pub fn query(&self, sql: &str) -> (r: Result<Vec<Vec<DsValue>>, DsError>)
        ensures
            r == Err::<Vec<Vec<DsValue>>, DsError>(DsError::Prepare) || r == Err::<
                Vec<Vec<DsValue>>,
                DsError,
            >(DsError::Query) || exists|before: rusqlite::Rows<'_>, after: rusqlite::Rows<'_>|
                started_fresh(before) && #[trigger] walked(before, after, r),
            r matches Ok(table) ==> exists|cursor: rusqlite::Rows<'_>|
                drained(cursor) && !failed(cursor) && #[trigger] yielded(cursor) == table_model(
                    table@,
                ),
    {
        let r = rows_of_compiled(compile(&self.connect, sql));
        proof {
            if r is Ok {
                let (before, after) = choose|
                    before: rusqlite::Rows<'_>,
                    after: rusqlite::Rows<'_>,
                |
                    started_fresh(before) && #[trigger] walked(before, after, r);
                assert(yielded(after).skip(0) =~= yielded(after));
            }
        }
        r
    }

    /// Settles what running an `INSERT` gave: a failure is handed on as it
    /// is, and a success gives the row id that the connection reports for its
    /// latest insert, as `id_of` settles it.
    pub fn id_after(&self, ran: Result<usize, DsError>) -> (r: Result<i64, DsError>)
        ensures
            ran matches Err(kind) ==> r == Err::<i64, DsError>(kind),
            ran is Ok ==> r is Ok,
    {
        id_of(ran, last_rowid(&self.connect))
    }

    /// Runs one `INSERT` and returns the row id that the engine gave the new
    /// row.
    pub fn insert(&self, sql: &str) -> (r: Result<i64, DsError>)
        ensures
            r matches Err(e) ==> e == DsError::Execute,
    {
        self.id_after(self.execute(sql))
    }

    /// `execute` under the name that an `UPDATE` reads best with.
    pub fn update(&self, sql: &str) -> (r: Result<usize, DsError>)
        ensures
            r matches Err(e) ==> e == DsError::Execute,
    {
        self.execute(sql)
    }

    /// `execute` under the name that a `DELETE` reads best with.
    pub fn delete(&self, sql: &str) -> (r: Result<usize, DsError>)
        ensures
            r matches Err(e) ==> e == DsError::Execute,
    {
        self.execute(sql)
    }

    /// Drops the compiled statements that the connection has cached. Data
    /// that was committed is not touched. Never fails.
    pub fn flush(&self) -> (r: Result<(), DsError>)
        ensures
            r is Ok,
    {
        drop_cached(&self.connect);
        Ok(())
    }

    /// Flushes, then releases the connection. The adapter is gone either
    /// way: where the release fails, `Close` comes back and the connection is
    /// given up unreleased.
    pub fn close(self) -> (r: Result<(), DsError>)
        ensures
            r matches Err(e) ==> e == DsError::Close,
    {
        self.flush()?;
        after_close(shut(self.connect))
    }
}

} // verus!

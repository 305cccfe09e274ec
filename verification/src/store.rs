//! The row store: one relational table `urls` held in an in-memory SQLite
//! database, reached through `rusqlite`.
//!
//! The table's contents are modelled as a sequence of stored rows in
//! insertion order; every operation's contract speaks of that sequence.

use vstd::prelude::*;
use crate::date::date_text;
use crate::record::Row;
use crate::record::RowV;

verus! {

#[verifier::external_type_specification]
#[verifier::external_body]
pub struct ExConnection(rusqlite::Connection);

#[verifier::external_type_specification]
#[verifier::external_body]
pub struct ExSqlError(rusqlite::Error);

/// One stored row: date text, canonical URL, host, description.
pub type StoredRow = (String, String, String, String);

/// The value of one stored row.
pub type StoredRowV = (Seq<char>, Seq<char>, Seq<char>, Seq<char>);

/// The rows of the `urls` table of a connection, in insertion order.
pub uninterp spec fn db_rows(conn: rusqlite::Connection) -> Seq<StoredRowV>;

/// A storage operation that failed; each is fatal to a run.
#[derive(Clone, Copy, Debug, PartialEq, Eq, Structural)]
pub enum StoreError {
    /// The database could not be opened or its table created.
    Open,
    /// A row could not be written.
    Insert,
    /// The table could not be read back.
    Read,
}

/// The textual form under which a row is stored: its date rendered as
/// `YYYY-MM-DDTHH:MM:SS`, and the other three fields as they are.
pub open spec fn stored_row(r: RowV) -> StoredRowV {
    (date_text(r.date), r.url, r.host, r.description)
}

/// Relies on `rusqlite::Connection::open_in_memory` and
/// `Connection::execute`: a fresh in-memory database in which the one
/// created table, `urls`, holds no rows.
#[verifier::external_body]
fn open_db() -> (r: Result<rusqlite::Connection, rusqlite::Error>)
    ensures
        r matches Ok(conn) ==> db_rows(conn) == Seq::<StoredRowV>::empty(),
{
    let conn = rusqlite::Connection::open_in_memory()?;
    conn.execute(
        "CREATE TABLE urls (
            id   INTEGER PRIMARY KEY AUTOINCREMENT,
            date DATETIME NOT NULL,
            url  TEXT NOT NULL,
            host TEXT NOT NULL,
            description TEXT
        )",
        (),
    )?;
    Ok(conn)
}

/// Relies on `Connection::execute` with a four-parameter INSERT: on success
/// exactly one row is appended to `urls`; on failure SQLite backs out the
/// failed statement, leaving the table as it was.
#[verifier::external_body]
fn exec_insert(
    conn: &mut rusqlite::Connection,
    date: &str,
    url: &str,
    host: &str,
    description: &str,
) -> (r: Result<(), rusqlite::Error>)
    ensures
        r is Ok ==> db_rows(*final(conn)) == db_rows(*old(conn)).push(
            (date@, url@, host@, description@),
        ),
        r is Err ==> db_rows(*final(conn)) == db_rows(*old(conn)),
{
    match conn.execute(
        "INSERT INTO urls (date, url, host, description) VALUES (?1, ?2, ?3, ?4)",
        (date, url, host, description),
    ) {
        Ok(_) => Ok(()),
        Err(e) => Err(e),
    }
}

/// Relies on `Connection::prepare` and `Statement::query_map` with
/// `SELECT ... ORDER BY id`: every row comes back once, and autoincrement
/// keys grow with insertion, so the order is insertion order.
#[verifier::external_body]
fn exec_read(conn: &rusqlite::Connection) -> (r: Result<Vec<StoredRow>, rusqlite::Error>)
    ensures
        r matches Ok(v) ==> v@.len() == db_rows(*conn).len() && forall|i: int|
            0 <= i < v@.len() ==> ((#[trigger] v@[i]).0@, v@[i].1@, v@[i].2@, v@[i].3@)
                == db_rows(*conn)[i],
{
    let mut stmt = conn.prepare("SELECT date, url, host, description FROM urls ORDER BY id")?;
    let rows = stmt.query_map((), |row| {
        Ok((row.get(0)?, row.get(1)?, row.get(2)?, row.get(3)?))
    })?;
    rows.collect()
}

/// Open the store: an empty `urls` table in a fresh in-memory database.
pub fn open_store() -> (r: Result<rusqlite::Connection, StoreError>)
    ensures
        r matches Ok(conn) ==> db_rows(conn) == Seq::<StoredRowV>::empty(),
        r is Err ==> r == Err::<rusqlite::Connection, StoreError>(StoreError::Open),
{
    match open_db() {
        Ok(conn) => Ok(conn),
        Err(_) => Err(StoreError::Open),
    }
}

/// Append one validated row to the table. On success the table holds
/// exactly the old rows followed by this one; on failure it is unchanged.
pub fn insert_row(conn: &mut rusqlite::Connection, row: &Row) -> (r: Result<(), StoreError>)
    requires
        row.date.wf(),
    ensures
        r is Ok ==> db_rows(*final(conn)) == db_rows(*old(conn)).push(stored_row(row@)),
        r is Err ==> db_rows(*final(conn)) == db_rows(*old(conn)) && r == Err::<(), StoreError>(
            StoreError::Insert,
        ),
{
    let date = row.date.to_text();
    match exec_insert(conn, date.as_str(), row.url.as_str(), row.host.as_str(),
        row.description.as_str()) {
        Ok(()) => Ok(()),
        Err(_) => Err(StoreError::Insert),
    }
}

/// Read the whole table back, in insertion order.
pub fn read_store(conn: &rusqlite::Connection) -> (r: Result<Vec<StoredRow>, StoreError>)
    ensures
        r matches Ok(v) ==> v@.len() == db_rows(*conn).len() && forall|i: int|
            0 <= i < v@.len() ==> ((#[trigger] v@[i]).0@, v@[i].1@, v@[i].2@, v@[i].3@)
                == db_rows(*conn)[i],
        r is Err ==> r == Err::<Vec<StoredRow>, StoreError>(StoreError::Read),
{
    match exec_read(conn) {
        Ok(v) => Ok(v),
        Err(_) => Err(StoreError::Read),
    }
}

} // verus!

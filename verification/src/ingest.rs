//! The tolerant ingestion loop: validate every record of every file, store
//! the valid rows, and collect one skip note per invalid record, never
//! aborting on a bad record. Only a storage failure is fatal.

use vstd::prelude::*;
use vstd::pervasive::cloned;
use vstd::string::StrSliceExecFns;
use crate::record::ParseError;
use crate::record::fields_of;
use crate::record::fields_ok;
use crate::record::parse_record;
use crate::record::spec_error;
use crate::record::spec_row;
use crate::store::StoreError;
use crate::store::StoredRowV;
use crate::store::db_rows;
use crate::store::insert_row;
use crate::store::stored_row;

verus! {

/// One record as the CSV layer hands it over: the decoded fields, or the
/// message of the decode failure.
pub type RecordItem = Result<Vec<String>, String>;

/// Why one record was skipped.
pub enum Skip {
    /// The CSV layer could not decode the record; its error message.
    Decode(String),
    /// The record decoded but failed validation; the error and the record.
    Invalid(ParseError, Vec<String>),
}

/// The value of a `Skip`.
pub enum SkipV {
    Decode(Seq<char>),
    Invalid(ParseError, Seq<Seq<char>>),
}

impl View for Skip {
    type V = SkipV;

    open spec fn view(&self) -> SkipV {
        match self {
            Skip::Decode(msg) => SkipV::Decode(msg@),
            Skip::Invalid(e, rec) => SkipV::Invalid(*e, fields_of(rec@)),
        }
    }
}

/// A record that the run stores: decoded, and valid.
pub open spec fn item_ok(it: RecordItem) -> bool {
    it is Ok && fields_ok(fields_of(it->Ok_0@))
}

/// The stored form of a valid record.
pub open spec fn item_row(it: RecordItem) -> StoredRowV {
    stored_row(spec_row(fields_of(it->Ok_0@)))
}

/// The skip note an invalid record draws.
pub open spec fn item_skip(it: RecordItem) -> SkipV {
    match it {
        Ok(rec) => SkipV::Invalid(spec_error(fields_of(rec@)), fields_of(rec@)),
        Err(msg) => SkipV::Decode(msg@),
    }
}

/// The rows that a run over `items` stores, in order.
pub open spec fn stored_rows(items: Seq<RecordItem>) -> Seq<StoredRowV>
    decreases items.len(),
{
    if items.len() == 0 {
        Seq::empty()
    } else if item_ok(items.last()) {
        stored_rows(items.drop_last()).push(item_row(items.last()))
    } else {
        stored_rows(items.drop_last())
    }
}

/// The skip notes that a run over `items` collects, in order.
pub open spec fn skips_of(items: Seq<RecordItem>) -> Seq<SkipV>
    decreases items.len(),
{
    if items.len() == 0 {
        Seq::empty()
    } else if item_ok(items.last()) {
        skips_of(items.drop_last())
    } else {
        skips_of(items.drop_last()).push(item_skip(items.last()))
    }
}

/// Every record is accounted for exactly once: over any sequence of records,
/// the rows stored and the records skipped add up to the records seen.
pub proof fn lemma_record_conservation(items: Seq<RecordItem>)
    ensures
        stored_rows(items).len() + skips_of(items).len() == items.len(),
    decreases items.len(),
{
    if items.len() > 0 {
        lemma_record_conservation(items.drop_last());
    }
}

fn clone_record(rec: &Vec<String>) -> (r: Vec<String>)
    ensures
        r@ == rec@,
{
    let r = rec.clone();
    proof {
        assert forall|i: int| 0 <= i < rec@.len() implies r@[i] == rec@[i] by {
            assert(cloned::<String>(rec@[i], r@[i]));
        }
        assert(r@ =~= rec@);
    }
    r
}

/// A subdirectory name the enumerator must not descend into: one that
/// starts with `.`.
pub open spec fn hidden_name(s: Seq<char>) -> bool {
    s.len() > 0 && s[0] == '.'
}

/// Whether a subdirectory of the root is scanned for CSV files: exactly
/// those whose name does not start with `.`.
pub fn scanned_dir_name(name: &str) -> (r: bool)
    ensures
        r == !hidden_name(name@),
{
    if name.is_empty() {
        true
    } else {
        name.get_char(0) != '.'
    }
}

/// Ingest the records of one file: store every valid record, collect one
/// skip note for each invalid one, in order. Invalid records never end the
/// run: only the failed insert of a valid record is fatal, so a run over
/// records none of which is valid always completes. On a fatal failure the
/// table still holds exactly the rows of the records before the failing one.
pub fn ingest_records(conn: &mut rusqlite::Connection, items: &Vec<RecordItem>) -> (r: Result<
    Vec<Skip>,
    StoreError,
>)
    ensures
        r matches Ok(skips) ==> db_rows(*final(conn)) == db_rows(*old(conn)) + stored_rows(items@)
            && skips@.map_values(|s: Skip| s@) == skips_of(items@),
        r is Err ==> exists|k: int|
            0 <= k < items@.len() && item_ok(items@[k]) && db_rows(*final(conn)) == db_rows(
                *old(conn),
            ) + stored_rows(#[trigger] items@.take(k)),
{
    let mut skips: Vec<Skip> = Vec::new();
    let mut i: usize = 0;
    while i < items.len()
        invariant
            i <= items.len(),
            db_rows(*conn) == db_rows(*old(conn)) + stored_rows(items@.take(i as int)),
            skips@.map_values(|s: Skip| s@) == skips_of(items@.take(i as int)),
        decreases items.len() - i,
    {
        proof {
            assert(items@.take(i + 1).drop_last() =~= items@.take(i as int));
            assert(items@.take(i + 1).last() == items@[i as int]);
        }
        match &items[i] {
            Ok(rec) => match parse_record(rec) {
                Ok(row) => match insert_row(conn, &row) {
                    Ok(()) => {
                        proof {
                            assert(db_rows(*conn) == db_rows(*old(conn)) + stored_rows(
                                items@.take(i + 1),
                            ));
                        }
                    },
                    Err(e) => {
                        proof {
                            let k = i as int;
                            assert(item_ok(items@[k]));
                            assert(0 <= k < items@.len() && item_ok(items@[k]) && db_rows(*conn)
                                == db_rows(*old(conn)) + stored_rows(items@.take(k)));
                        }
                        return Err(e);
                    },
                },
                Err(pe) => {
                    skips.push(Skip::Invalid(pe, clone_record(rec)));
                    proof {
                        assert(skips@.map_values(|s: Skip| s@) =~= skips_of(items@.take(i + 1)));
                    }
                },
            },
            Err(msg) => {
                skips.push(Skip::Decode(msg.clone()));
                proof {
                    assert(skips@.map_values(|s: Skip| s@) =~= skips_of(items@.take(i + 1)));
                }
            },
        }
        i += 1;
    }
    proof {
        assert(items@.take(items@.len() as int) =~= items@);
    }
    Ok(skips)
}

/// One CSV file of the run: its path and the records read from it.
pub struct FileRecords {
    pub path: String,
    pub records: Vec<RecordItem>,
}

/// The skip notes of one file.
pub struct FileSkips {
    pub path: String,
    pub skips: Vec<Skip>,
}

/// The rows a whole run stores: those of each file's records, file by file.
pub open spec fn all_rows(files: Seq<FileRecords>) -> Seq<StoredRowV>
    decreases files.len(),
{
    if files.len() == 0 {
        Seq::empty()
    } else {
        all_rows(files.drop_last()) + stored_rows(files.last().records@)
    }
}

/// How many records a whole run sees.
pub open spec fn total_records(files: Seq<FileRecords>) -> int
    decreases files.len(),
{
    if files.len() == 0 {
        0
    } else {
        total_records(files.drop_last()) + files.last().records@.len()
    }
}

/// How many records a whole run skips.
pub open spec fn total_skipped(files: Seq<FileRecords>) -> int
    decreases files.len(),
{
    if files.len() == 0 {
        0
    } else {
        total_skipped(files.drop_last()) + skips_of(files.last().records@).len()
    }
}

/// Over a run of any number of files with any number of invalid records
/// among them, the table gains exactly one row per record that is not
/// skipped: rows stored = records seen - records skipped.
pub proof fn lemma_run_conservation(files: Seq<FileRecords>)
    ensures
        all_rows(files).len() + total_skipped(files) == total_records(files),
    decreases files.len(),
{
    if files.len() > 0 {
        lemma_run_conservation(files.drop_last());
        lemma_record_conservation(files.last().records@);
    }
}

/// Ingest a whole run's files, in order: store every valid record of every
/// file, and collect each file's skip notes under its path. Invalid records
/// never end the run: only the failed insert of a valid record is fatal, so
/// a run whose records are all invalid always completes. On a fatal failure
/// the table holds the rows of the files before the one at hand and of its
/// records before the failing one.
pub fn ingest_files(conn: &mut rusqlite::Connection, files: &Vec<FileRecords>) -> (r: Result<
    Vec<FileSkips>,
    StoreError,
>)
    ensures
        r matches Ok(report) ==> {
            &&& db_rows(*final(conn)) == db_rows(*old(conn)) + all_rows(files@)
            &&& report@.len() == files@.len()
            &&& forall|j: int|
                0 <= j < files@.len() ==> (#[trigger] report@[j]).path@ == files@[j].path@
                    && report@[j].skips@.map_values(|s: Skip| s@) == skips_of(files@[j].records@)
        },
        r is Err ==> exists|j: int, k: int|
            0 <= j < files@.len() && 0 <= k < files@[j].records@.len() && item_ok(
                files@[j].records@[k],
            ) && db_rows(*final(conn)) == db_rows(*old(conn)) + (all_rows(files@.take(j))
                + stored_rows(#[trigger] files@[j].records@.take(k))),
{
    let mut report: Vec<FileSkips> = Vec::new();
    let mut j: usize = 0;
    while j < files.len()
        invariant
            j <= files.len(),
            db_rows(*conn) == db_rows(*old(conn)) + all_rows(files@.take(j as int)),
            report@.len() == j,
            forall|m: int|
                0 <= m < j ==> (#[trigger] report@[m]).path@ == files@[m].path@
                    && report@[m].skips@.map_values(|s: Skip| s@) == skips_of(files@[m].records@),
        decreases files.len() - j,
    {
        proof {
            assert(files@.take(j + 1).drop_last() =~= files@.take(j as int));
            assert(files@.take(j + 1).last() == files@[j as int]);
        }
        let file = &files[j];
        match ingest_records(conn, &file.records) {
            Ok(skips) => {
                report.push(FileSkips { path: file.path.clone(), skips });
            },
            Err(e) => {
                proof {
                    let k = choose|k: int|
                        0 <= k < file.records@.len() && item_ok(file.records@[k]) && db_rows(
                            *conn,
                        ) == (db_rows(*old(conn)) + all_rows(files@.take(j as int)))
                            + stored_rows(file.records@.take(k));
                    assert(0 <= j < files@.len() && 0 <= k < files@[j as int].records@.len()
                        && item_ok(files@[j as int].records@[k]) && db_rows(*conn) == db_rows(
                        *old(conn),
                    ) + (all_rows(files@.take(j as int)) + stored_rows(
                        files@[j as int].records@.take(k),
                    )));
                }
                return Err(e);
            },
        }
        j += 1;
    }
    proof {
        assert(files@.take(files@.len() as int) =~= files@);
    }
    Ok(report)
}

} // verus!

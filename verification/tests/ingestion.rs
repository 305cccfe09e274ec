//! The store and the tolerant ingestion loop.

use phishurl::ingest::{
    ingest_files, ingest_records, scanned_dir_name, FileRecords, Skip,
};
use phishurl::record::{parse_record, ParseError};
use phishurl::store::{insert_row, open_store, read_store};

fn rec(fields: &[&str]) -> Result<Vec<String>, String> {
    Ok(fields.iter().map(|s| s.to_string()).collect())
}

#[test]
fn fresh_store_is_empty() {
    let conn = open_store().unwrap();
    assert_eq!(read_store(&conn).unwrap().len(), 0);
}

#[test]
fn inserted_rows_come_back_in_order() {
    let mut conn = open_store().unwrap();
    let a = parse_record(&vec![
        "2021/05/01 12:00:00".to_string(),
        "http://EXAMPLE.com/a".to_string(),
        "first".to_string(),
    ])
    .unwrap();
    let b = parse_record(&vec![
        "2022/06/02 01:02:03".to_string(),
        "https://example.net".to_string(),
        "second".to_string(),
    ])
    .unwrap();
    insert_row(&mut conn, &a).unwrap();
    insert_row(&mut conn, &b).unwrap();
    let rows = read_store(&conn).unwrap();
    assert_eq!(rows.len(), 2);
    assert_eq!(
        rows[0],
        (
            "2021-05-01T12:00:00".to_string(),
            "http://example.com/a".to_string(),
            "example.com".to_string(),
            "first".to_string()
        )
    );
    assert_eq!(
        rows[1],
        (
            "2022-06-02T01:02:03".to_string(),
            "https://example.net/".to_string(),
            "example.net".to_string(),
            "second".to_string()
        )
    );
}

#[test]
fn run_stores_valid_records_and_skips_the_rest() {
    let mut conn = open_store().unwrap();
    let items = vec![
        rec(&["2021/05/01 12:00:00", "http://EXAMPLE.com/a", "phish site"]),
        rec(&["2021/05/01 12:00:00", "not-a-url", "desc"]),
        Err("malformed line".to_string()),
        rec(&["2021/13/01 12:00:00", "http://example.com/b", "bad month"]),
        rec(&["2021/05/02 00:00:00", "http://example.org/c", "another"]),
        rec(&["2021/05/01 12:00:00", "mailto:a@b.com", "hostless"]),
        rec(&["2021/05/01 12:00:00"]),
    ];
    let skips = ingest_records(&mut conn, &items).unwrap();
    // 7 records, 5 invalid: the table gains exactly 2 rows, one note each.
    assert_eq!(skips.len(), 5);
    let rows = read_store(&conn).unwrap();
    assert_eq!(rows.len(), 2);
    assert_eq!(rows[0].1, "http://example.com/a");
    assert_eq!(rows[1].1, "http://example.org/c");
    match &skips[0] {
        Skip::Invalid(e, r) => {
            assert_eq!(*e, ParseError::BadUrl);
            assert_eq!(r[1], "not-a-url");
        }
        other => panic!("wrong skip: {:?}", skip_kind(other)),
    }
    match &skips[1] {
        Skip::Decode(msg) => assert_eq!(msg, "malformed line"),
        other => panic!("wrong skip: {:?}", skip_kind(other)),
    }
    match &skips[2] {
        Skip::Invalid(e, _) => assert_eq!(*e, ParseError::BadDate),
        other => panic!("wrong skip: {:?}", skip_kind(other)),
    }
    match &skips[3] {
        Skip::Invalid(e, _) => assert_eq!(*e, ParseError::NoHost),
        other => panic!("wrong skip: {:?}", skip_kind(other)),
    }
    match &skips[4] {
        Skip::Invalid(e, _) => assert_eq!(*e, ParseError::MissingField),
        other => panic!("wrong skip: {:?}", skip_kind(other)),
    }
}

fn skip_kind(s: &Skip) -> &'static str {
    match s {
        Skip::Decode(_) => "decode",
        Skip::Invalid(_, _) => "invalid",
    }
}

#[test]
fn run_of_only_invalid_records_completes() {
    // No record is valid, so no insert is attempted and completion is owed.
    let mut conn = open_store().unwrap();
    let items = vec![
        rec(&["bad date", "http://example.com/", "x"]),
        Err("broken line".to_string()),
        rec(&["2021/05/01 12:00:00"]),
    ];
    let skips = ingest_records(&mut conn, &items).unwrap();
    assert_eq!(skips.len(), 3);
    assert_eq!(read_store(&conn).unwrap().len(), 0);
}

#[test]
fn empty_run_completes() {
    let mut conn = open_store().unwrap();
    let skips = ingest_records(&mut conn, &vec![]).unwrap();
    assert!(skips.is_empty());
    let report = ingest_files(&mut conn, &vec![]).unwrap();
    assert!(report.is_empty());
    assert_eq!(read_store(&conn).unwrap().len(), 0);
}

#[test]
fn run_over_files_counts_every_record_once() {
    let mut conn = open_store().unwrap();
    let files = vec![
        FileRecords {
            path: "2021/a.csv".to_string(),
            records: vec![
                rec(&["2021/01/01 00:00:00", "http://one.example/", "x"]),
                rec(&["2021/01/02 00:00:00", "bad", "x"]),
            ],
        },
        FileRecords {
            path: "2021/b.csv".to_string(),
            records: vec![],
        },
        FileRecords {
            path: "2022/c.csv".to_string(),
            records: vec![
                Err("oops".to_string()),
                rec(&["2022/02/02 02:02:02", "http://two.example/", "y"]),
                rec(&["2022/02/30 02:02:02", "http://three.example/", "z"]),
            ],
        },
    ];
    let report = ingest_files(&mut conn, &files).unwrap();
    assert_eq!(report.len(), 3);
    assert_eq!(report[0].path, "2021/a.csv");
    assert_eq!(report[0].skips.len(), 1);
    assert_eq!(report[1].skips.len(), 0);
    assert_eq!(report[2].path, "2022/c.csv");
    assert_eq!(report[2].skips.len(), 2);
    // 5 records, 3 invalid across the run: exactly 2 rows remain.
    let rows = read_store(&conn).unwrap();
    assert_eq!(rows.len(), 2);
    assert_eq!(rows[0].2, "one.example");
    assert_eq!(rows[1].2, "two.example");
}

#[test]
fn hidden_directories_are_not_scanned() {
    assert!(!scanned_dir_name(".git"));
    assert!(!scanned_dir_name("."));
    assert!(!scanned_dir_name(".2021"));
    assert!(scanned_dir_name("2021"));
    assert!(scanned_dir_name("year.2021"));
    assert!(scanned_dir_name(""));
}

//! Ingestion library for a directory tree of CSV files recording reported
//! phishing URLs: each record is validated into a typed row (fixed-format
//! date, absolute URL with a host, free-text description) and loaded into a
//! single relational table, tolerating per-record failures.

pub mod date;
pub mod ingest;
pub mod record;
pub mod store;
pub mod urls;

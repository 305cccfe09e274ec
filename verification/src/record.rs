//! Validation of one raw CSV record into a typed row.

use vstd::prelude::*;
use crate::date::DateTime;
use crate::date::date_of_str;
use crate::date::date_str_ok;
use crate::date::parse_date;
use crate::urls::url_canon;
use crate::urls::url_host;
use crate::urls::url_ok;
use crate::urls::url_parse;

verus! {

/// One validated record, ready for storage.
#[derive(Debug, PartialEq)]
pub struct Row {
    pub date: DateTime,
    /// The canonical re-serialization of the record's URL, not its raw text.
    pub url: String,
    /// The host component of the URL.
    pub host: String,
    /// Free text, copied verbatim.
    pub description: String,
}

/// The mathematical value of a `Row`.
pub struct RowV {
    pub date: DateTime,
    pub url: Seq<char>,
    pub host: Seq<char>,
    pub description: Seq<char>,
}

impl View for Row {
    type V = RowV;

    open spec fn view(&self) -> RowV {
        RowV {
            date: self.date,
            url: self.url@,
            host: self.host@,
            description: self.description@,
        }
    }
}

/// Why a record was rejected.
#[derive(Clone, Copy, Debug, PartialEq, Eq, Structural)]
pub enum ParseError {
    /// Fewer than three fields.
    MissingField,
    /// The first field does not match `YYYY/MM/DD HH:MM:SS`.
    BadDate,
    /// The second field is not a syntactically valid absolute URL.
    BadUrl,
    /// The URL parses but has no host component.
    NoHost,
}

/// The fields of a record, as sequences of characters.
pub open spec fn fields_of(rec: Seq<String>) -> Seq<Seq<char>> {
    rec.map_values(|s: String| s@)
}

/// A record that `parse_record` accepts: three fields present, a date in the
/// fixed format, and an absolute URL with a host.
pub open spec fn fields_ok(fields: Seq<Seq<char>>) -> bool {
    &&& fields.len() >= 3
    &&& date_str_ok(fields[0])
    &&& url_ok(fields[1])
    &&& url_host(fields[1]) is Some
}

/// The error a rejected record draws, checking in the same order as
/// `parse_record`: field count, then date, then URL syntax, then host.
pub open spec fn spec_error(fields: Seq<Seq<char>>) -> ParseError {
    if fields.len() < 3 {
        ParseError::MissingField
    } else if !date_str_ok(fields[0]) {
        ParseError::BadDate
    } else if !url_ok(fields[1]) {
        ParseError::BadUrl
    } else {
        ParseError::NoHost
    }
}

/// The row an accepted record yields.
pub open spec fn spec_row(fields: Seq<Seq<char>>) -> RowV {
    RowV {
        date: date_of_str(fields[0]),
        url: url_canon(fields[1]),
        host: url_host(fields[1])->0,
        description: fields[2],
    }
}

/// The same record with its URL field replaced by its canonical form.
pub open spec fn canon_fields(fields: Seq<Seq<char>>) -> Seq<Seq<char>> {
    seq![fields[0], url_canon(fields[1]), fields[2]]
}

/// Any record with fewer than three fields is rejected, always with
/// `MissingField`.
pub proof fn lemma_short_record_missing_field(fields: Seq<Seq<char>>)
    requires
        fields.len() < 3,
    ensures
        !fields_ok(fields),
        spec_error(fields) == ParseError::MissingField,
{
}

/// Any record whose date field deviates from `YYYY/MM/DD HH:MM:SS` is
/// rejected, always with `BadDate`.
pub proof fn lemma_bad_date_field(fields: Seq<Seq<char>>)
    requires
        fields.len() >= 3,
        !date_str_ok(fields[0]),
    ensures
        !fields_ok(fields),
        spec_error(fields) == ParseError::BadDate,
{
}

/// With three fields and a well-formed date, a URL field that does not
/// parse is rejected with `BadUrl`, and one that parses without a host
/// with `NoHost`.
pub proof fn lemma_bad_url_field(fields: Seq<Seq<char>>)
    requires
        fields.len() >= 3,
        date_str_ok(fields[0]),
    ensures
        !url_ok(fields[1]) ==> !fields_ok(fields) && spec_error(fields) == ParseError::BadUrl,
        url_ok(fields[1]) && url_host(fields[1]) is None ==> !fields_ok(fields) && spec_error(
            fields,
        ) == ParseError::NoHost,
{
}

/// Validate one record: field 0 a date in strict `YYYY/MM/DD HH:MM:SS`
/// format, field 1 an absolute URL with a host, field 2 free text. On
/// success the row carries the URL's canonical re-serialization, and
/// re-validating the record with that canonical URL gives the same row.
pub fn parse_record(record: &Vec<String>) -> (r: Result<Row, ParseError>)
    ensures
        r is Ok <==> fields_ok(fields_of(record@)),
        r matches Ok(row) ==> row@ == spec_row(fields_of(record@)) && row.date.wf(),
        r matches Err(e) ==> e == spec_error(fields_of(record@)),
        r matches Ok(row) ==> fields_ok(canon_fields(fields_of(record@))) && spec_row(
            canon_fields(fields_of(record@)),
        ) == row@,
{
    let ghost fields = fields_of(record@);
    if record.len() < 3 {
        return Err(ParseError::MissingField);
    }
    assert(fields[0] == record@[0]@ && fields[1] == record@[1]@ && fields[2] == record@[2]@);
    let date = match parse_date(record[0].as_str()) {
        Some(d) => d,
        None => { return Err(ParseError::BadDate) },
    };
    let parsed = match url_parse(record[1].as_str()) {
        Some(p) => p,
        None => { return Err(ParseError::BadUrl) },
    };
    let host = match parsed.1 {
        Some(h) => h,
        None => { return Err(ParseError::NoHost) },
    };
    let row = Row { date, url: parsed.0, host, description: record[2].clone() };
    proof {
        assert(canon_fields(fields)[0] == fields[0]);
        assert(canon_fields(fields)[1] == url_canon(fields[1]));
        assert(canon_fields(fields)[2] == fields[2]);
        assert(spec_row(canon_fields(fields)) == row@);
    }
    Ok(row)
}

} // verus!

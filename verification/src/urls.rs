//! Absolute-URL parsing and canonicalization, through the `url` crate's
//! WHATWG parser.
//!
//! What the parser accepts, the canonical serialization it produces and the
//! host it extracts are functions of the input text alone; they are given
//! names here, and the wrapper's contract ties the call's result to those
//! names.

use vstd::prelude::*;

verus! {

/// Whether the text parses as an absolute URL.
pub uninterp spec fn url_ok(s: Seq<char>) -> bool;

/// The canonical re-serialization of the parsed URL.
pub uninterp spec fn url_canon(s: Seq<char>) -> Seq<char>;

/// The host component of the parsed URL, if it has one.
pub uninterp spec fn url_host(s: Seq<char>) -> Option<Seq<char>>;

/// Relies on `url::Url::parse` (the WHATWG URL parser), `Url::as_str` (the
/// stored canonical serialization) and `Url::host_str` (the host slice of
/// that serialization). All three depend on the input text alone. The
/// re-parse clauses rely on the crate's own invariant that parsing a `Url`'s
/// serialization succeeds, returns the identical serialization, and keeps a
/// present host unchanged.
#[verifier::external_body]
pub(crate) fn url_parse(s: &str) -> (r: Option<(String, Option<String>)>)
    ensures
        r is Some <==> url_ok(s@),
        r matches Some(p) ==> p.0@ == url_canon(s@),
        r matches Some(p) ==> (p.1 is Some <==> url_host(s@) is Some),
        r matches Some(p) ==> (p.1 matches Some(h) ==> url_host(s@) == Some(h@)),
        r is Some ==> url_ok(url_canon(s@)) && url_canon(url_canon(s@)) == url_canon(s@),
        r matches Some(p) ==> (p.1 is Some ==> url_host(url_canon(s@)) == url_host(s@)),
{
    match url::Url::parse(s) {
        Ok(u) => {
            let host = u.host_str().map(|h| h.to_owned());
            Some((u.as_str().to_owned(), host))
        },
        Err(_) => None,
    }
}

} // verus!

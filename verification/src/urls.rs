//! The boundary to the `url` crate, which supplies URL parsing and
//! normalization per the standard URL grammar.
//!
//! A parsed URL is read back immediately as plain strings (its serialization
//! and its path component), so the rest of the library works on values it can
//! reason about. The outcomes are named by uninterpreted functions: parsing
//! a URL is deterministic, a function of the input string alone.

use vstd::prelude::*;

verus! {

/// Whether the URL parser accepts `s` as an absolute URL.
pub uninterp spec fn url_parse_ok(s: Seq<char>) -> bool;

/// The serialization (`Url::as_str`) of the URL parsed from `s`.
pub uninterp spec fn url_serialization(s: Seq<char>) -> Seq<char>;

/// The path component (`Url::path`) of the URL parsed from `s`.
pub uninterp spec fn url_path(s: Seq<char>) -> Seq<char>;

/// The rendered message of the parse error the URL parser reports for `s`.
pub uninterp spec fn url_error(s: Seq<char>) -> Seq<char>;

/// Relies on `url::Url::parse`, reading the parsed value back through
/// `Url::as_str` and `Url::path`, and rendering a rejection through
/// `ParseError`'s display. All are functions of the input string alone.
#[verifier::external_body]
pub(crate) fn parse_url(s: &str) -> (r: Result<(String, String), String>)
    ensures
        r is Ok <==> url_parse_ok(s@),
        r matches Ok(q) ==> q.0@ == url_serialization(s@) && q.1@ == url_path(s@),
        r matches Err(e) ==> e@ == url_error(s@),
{
    match url::Url::parse(s) {
        Ok(u) => {
            let path = u.path().to_string();
            Ok((u.as_str().to_string(), path))
        },
        Err(e) => Err(format!("{}", e)),
    }
}

} // verus!

//! Turning a query text into a URI.
use vstd::prelude::*;

use crate::error::Error;
use crate::model::SearchBy;
use crate::query::{
    info_query, info_query_of, opt_view, search_by_query, search_by_query_of, search_query,
    search_query_of, texts,
};

verus! {

/// Whether `http` accepts a text as a URI.
pub uninterp spec fn uri_accepts(s: Seq<char>) -> bool;

/// Relies on `http::Uri::from_str`: whether a text parses depends on the
/// text alone, and an empty text does not parse.
#[verifier::external_body]
fn parse_uri(s: &str) -> (r: Result<http::Uri, http::uri::InvalidUri>)
    ensures
        r.is_ok() == uri_accepts(s@),
        s@.len() == 0 ==> r.is_err(),
{
    <http::Uri as std::str::FromStr>::from_str(s)
}

/// What resolving `s` gives: a URI exactly when `http` accepts the text,
/// else a URI error.
pub open spec fn resolves_as(s: Seq<char>, r: Result<http::Uri, Error>) -> bool {
    match r {
        Ok(_) => uri_accepts(s),
        Err(e) => !uri_accepts(s) && e is Uri,
    }
}

/// Parses an assembled query text as a URI.
pub fn resolve_uri(url: &str) -> (r: Result<http::Uri, Error>)
    ensures
        resolves_as(url@, r),
        url@.len() == 0 ==> r.is_err(),
{
    match parse_uri(url) {
        Ok(uri) => Ok(uri),
        Err(e) => Err(Error::Uri(e)),
    }
}

/// The URI of an `info` request for `packages`.
pub fn info_uri(base: &str, packages: &[String]) -> (r: Result<http::Uri, Error>)
    ensures
        resolves_as(info_query_of(base@, texts(packages@)), r),
{
    let url = info_query(base, packages);
    resolve_uri(url.as_str())
}

/// The URI of a `search` request with an optional text and maintainer.
pub fn search_uri(base: &str, query: Option<&str>, maintainer: Option<&str>) -> (r: Result<
    http::Uri,
    Error,
>)
    ensures
        resolves_as(search_query_of(base@, opt_view(query), opt_view(maintainer)), r),
{
    let url = search_query(base, query, maintainer);
    resolve_uri(url.as_str())
}

/// The URI of a `search` request on the field that `by` names.
pub fn search_by_uri(base: &str, query: &str, by: SearchBy) -> (r: Result<http::Uri, Error>)
    ensures
        resolves_as(search_by_query_of(base@, query@, by), r),
{
    let url = search_by_query(base, query, by);
    resolve_uri(url.as_str())
}

/// The URI of a search with only a query text: no maintainer and no field,
/// so the service's default matching applies.
pub fn search_text_uri(base: &str, query: &str) -> (r: Result<http::Uri, Error>)
    ensures
        resolves_as(search_query_of(base@, Some(query@), None), r),
{
    search_uri(base, Some(query), None)
}

/// The URI of a search for packages without a maintainer: an empty
/// maintainer search.
pub fn orphans_uri(base: &str) -> (r: Result<http::Uri, Error>)
    ensures
        resolves_as(search_by_query_of(base@, Seq::empty(), SearchBy::Maintainer), r),
{
    let empty = "";
    proof {
        reveal_strlit("");
    }
    search_by_uri(base, empty, SearchBy::Maintainer)
}

/// Resolving the query text of one package list twice gives one outcome:
/// both give a URI, or both fail, and with a URI error.
pub proof fn lemma_info_uri_consistent(
    base: Seq<char>,
    names: Seq<Seq<char>>,
    r1: Result<http::Uri, Error>,
    r2: Result<http::Uri, Error>,
)
    requires
        resolves_as(info_query_of(base, names), r1),
        resolves_as(info_query_of(base, names), r2),
    ensures
        r1.is_ok() == r2.is_ok(),
        r1 matches Err(e) ==> e is Uri,
        r2 matches Err(e) ==> e is Uri,
{
}

} // verus!

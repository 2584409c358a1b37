//! Building the query text of a request.
use vstd::prelude::*;

use crate::model::SearchBy;
use crate::percent::{encode_value, encoded_text};

verus! {

/// The service's fixed endpoint; every request appends its parameters.
pub const API_URI: &'static str = "https://aur.archlinux.org/rpc/?v=5";

/// The character sequences of a list of strings.
pub open spec fn texts(v: Seq<String>) -> Seq<Seq<char>> {
    v.map_values(|s: String| s@)
}

/// One `arg[]` parameter for each name, in order, each value encoded.
pub open spec fn arg_list(names: Seq<Seq<char>>) -> Seq<char>
    decreases names.len(),
{
    if names.len() == 0 {
        Seq::empty()
    } else {
        arg_list(names.drop_last()) + "&arg[]="@ + encoded_text(names.last())
    }
}

/// The query text of an `info` request for `names`.
pub open spec fn info_query_of(base: Seq<char>, names: Seq<Seq<char>>) -> Seq<char> {
    base + "&type=info"@ + arg_list(names)
}

/// A parameter that is written, its value encoded, only where a value is
/// given.
pub open spec fn optional_param(prefix: Seq<char>, value: Option<Seq<char>>) -> Seq<char> {
    match value {
        Some(v) => prefix + encoded_text(v),
        None => Seq::empty(),
    }
}

/// The query text of a `search` request with an optional text and an
/// optional maintainer filter.
pub open spec fn search_query_of(
    base: Seq<char>,
    query: Option<Seq<char>>,
    maintainer: Option<Seq<char>>,
) -> Seq<char> {
    base + "&type=search"@ + optional_param("&arg="@, query) + optional_param(
        "&maintainer="@,
        maintainer,
    )
}

/// The query text of a `search` request that names the field searched.
pub open spec fn search_by_query_of(base: Seq<char>, query: Seq<char>, by: SearchBy) -> Seq<
    char,
> {
    base + "&type=search&arg="@ + encoded_text(query) + "&by="@ + by.token()
}

/// The view of an optional string slice.
pub open spec fn opt_view(o: Option<&str>) -> Option<Seq<char>> {
    match o {
        Some(s) => Some(s@),
        None => None,
    }
}

/// Builds the query text of an `info` request: one `arg[]` parameter for
/// each package name, in the order given, each name percent-encoded.
pub fn info_query(base: &str, packages: &[String]) -> (r: String)
    ensures
        r@ == info_query_of(base@, texts(packages@)),
{
    let mut url = String::from_str(base);
    url.append("&type=info");
    let mut i: usize = 0;
    while i < packages.len()
        invariant
            i <= packages@.len(),
            url@ == info_query_of(base@, texts(packages@.subrange(0, i as int))),
        decreases packages.len() - i,
    {
        url.append("&arg[]=");
        let value = encode_value(packages[i].as_str());
        url.append(value.as_str());
        proof {
            let prev = texts(packages@.subrange(0, i as int));
            let next = texts(packages@.subrange(0, i + 1));
            assert(next.drop_last() =~= prev);
            assert(next.last() == packages@[i as int]@);
        }
        i = i + 1;
    }
    assert(packages@.subrange(0, packages@.len() as int) =~= packages@);
    url
}

/// Builds the query text of a `search` request; an absent text or
/// maintainer leaves its parameter out, a given one is percent-encoded.
pub fn search_query(base: &str, query: Option<&str>, maintainer: Option<&str>) -> (r: String)
    ensures
        r@ == search_query_of(base@, opt_view(query), opt_view(maintainer)),
{
    let mut url = String::from_str(base);
    url.append("&type=search");
    if let Some(q) = query {
        url.append("&arg=");
        let value = encode_value(q);
        url.append(value.as_str());
    }
    if let Some(m) = maintainer {
        url.append("&maintainer=");
        let value = encode_value(m);
        url.append(value.as_str());
    }
    url
}

/// Builds the query text of a `search` request on the field that `by` names;
/// the text is percent-encoded.
pub fn search_by_query(base: &str, query: &str, by: SearchBy) -> (r: String)
    ensures
        r@ == search_by_query_of(base@, query@, by),
{
    let mut url = String::from_str(base);
    url.append("&type=search&arg=");
    let value = encode_value(query);
    url.append(value.as_str());
    url.append("&by=");
    url.append(by.as_str());
    url
}

} // verus!

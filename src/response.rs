//! Sorting responses by their status code.
use vstd::prelude::*;

use crate::decode::{FromJson, decode_envelope, envelope_error, result_items};
use crate::error::{Error, RawResponse};
use crate::json::{Json, JsonNumber, lookup};
use crate::model::{InfoResult, Search, SearchResult};

verus! {

/// The status code of a successful call.
pub const STATUS_OK: u16 = 200;

/// The status code of a request that the service refused as malformed.
pub const STATUS_BAD_REQUEST: u16 = 400;

/// What a response with a given status leads to: its body, for a 200; a
/// bad-request error, for a 400; an invalid-request error, for any other.
pub open spec fn classified(response: RawResponse) -> Result<Vec<u8>, Error> {
    if response.status == STATUS_OK {
        Ok(response.body)
    } else if response.status == STATUS_BAD_REQUEST {
        Err(Error::BadRequest(response))
    } else {
        Err(Error::InvalidRequest(response))
    }
}

/// Sorts a response by its status code; only the body of a 200 goes on to
/// be decoded.
pub fn check_status(response: RawResponse) -> (r: Result<Vec<u8>, Error>)
    ensures
        r == classified(response),
{
    if response.status == STATUS_OK {
        Ok(response.body)
    } else if response.status == STATUS_BAD_REQUEST {
        Err(Error::BadRequest(response))
    } else {
        Err(Error::InvalidRequest(response))
    }
}

/// Whether `serde_json` reads the bytes as one JSON text.
pub uninterp spec fn json_well_formed(b: Seq<u8>) -> bool;

/// Relies on `serde_json::from_slice`: whether the bytes are one JSON text
/// depends on the bytes alone, and no bytes are none.
#[verifier::external_body]
fn parse_json(b: &[u8]) -> (r: Result<serde_json::Value, serde_json::Error>)
    ensures
        r.is_ok() == json_well_formed(b@),
        b@.len() == 0 ==> r.is_err(),
{
    serde_json::from_slice::<serde_json::Value>(b)
}

/// What reading a response gives: the classification's error for any status
/// but 200; for a 200, a JSON value where the body is well-formed, else a
/// JSON error.
pub open spec fn read_as(response: RawResponse, r: Result<serde_json::Value, Error>) -> bool {
    if response.status == STATUS_OK {
        match r {
            Ok(_) => json_well_formed(response.body@),
            Err(e) => !json_well_formed(response.body@) && e is Json,
        }
    } else {
        r matches Err(e) && classified(response) == Err::<Vec<u8>, Error>(e)
    }
}

/// Reads a response: sorts it by its status first, and parses the body as
/// JSON only for a 200.
pub fn read_response(response: RawResponse) -> (r: Result<serde_json::Value, Error>)
    ensures
        read_as(response, r),
{
    let body = match check_status(response) {
        Ok(body) => body,
        Err(e) => {
            return Err(e);
        },
    };
    match parse_json(body.as_slice()) {
        Ok(v) => Ok(v),
        Err(e) => Err(Error::Json(e)),
    }
}

/// What decoding a document gives: the results where it has the shape of
/// an envelope of `T`, else the first reason why it has not.
pub open spec fn decodes_as<T: FromJson>(doc: Json, r: Result<Search<T>, Error>) -> bool {
    match r {
        Ok(s) => envelope_error::<T>(doc) is None && s.decoded_from(doc),
        Err(e) => match envelope_error::<T>(doc) {
            Some(d) => e == Error::Decode(d),
            None => false,
        },
    }
}

/// Decodes the document of an `info` answer.
pub fn decode_info(doc: &Json) -> (r: Result<Search<InfoResult>, Error>)
    ensures
        decodes_as(*doc, r),
{
    match decode_envelope::<InfoResult>(doc) {
        Ok(s) => Ok(s),
        Err(d) => Err(Error::Decode(d)),
    }
}

/// Decodes the document of a `search` answer.
pub fn decode_search(doc: &Json) -> (r: Result<Search<SearchResult>, Error>)
    ensures
        decodes_as(*doc, r),
{
    match decode_envelope::<SearchResult>(doc) {
        Ok(s) => Ok(s),
        Err(d) => Err(Error::Decode(d)),
    }
}

/// A decoded answer keeps the count that the service sent, exactly, and
/// whatever the number of results it holds.
pub proof fn lemma_count_verbatim<T: FromJson>(doc: Json, s: Search<T>)
    requires
        decodes_as(doc, Ok::<Search<T>, Error>(s)),
    ensures
        doc matches Json::Object(f) && lookup(f@, "resultcount"@) == Some(
            Json::Number(JsonNumber::PosInt(s.result_count)),
        ),
        s.results@.len() == result_items(doc).len(),
{
}

} // verus!

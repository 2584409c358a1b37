//! Client library for the Arch User Repository RPC interface.
//!
//! The library builds request URIs for the `info` and `search` operations,
//! sorts the service's responses by status code, and decodes response
//! documents into typed results. Sending requests is left to an HTTP client
//! that the host application supplies; both a blocking and a suspending
//! client go through the same functions here, so they build the same URIs
//! and report the same errors.
pub mod decode;
pub mod error;
pub mod json;
pub mod model;
pub mod outside;
pub mod params;
pub mod percent;
pub mod query;
pub mod resolve;
pub mod response;

pub use decode::FromJson;
pub use error::{DecodeError, Error, RawResponse};
pub use json::{Json, JsonNumber};
pub use model::{InfoResult, Search, SearchBy, SearchResult};
pub use query::{API_URI, info_query, search_by_query, search_query};
pub use resolve::{
    info_uri, orphans_uri, resolve_uri, search_by_uri, search_text_uri, search_uri,
};
pub use response::{check_status, decode_info, decode_search, read_response};

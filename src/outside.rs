//! Declarations of the outside types that the library carries.
use http::Error as HttpError;
use std::fmt::Error as FmtError;
use serde_json::Error as JsonError;
use vstd::prelude::*;

verus! {

/// A parsed URI of the `http` crate.
#[verifier::external_type_specification]
#[verifier::external_body]
pub struct ExUri(http::Uri);

/// The error that `http` gives for a text that is not a URI.
#[verifier::external_type_specification]
#[verifier::external_body]
pub struct ExInvalidUri(http::uri::InvalidUri);

/// The error that `http` gives when a request cannot be built.
#[verifier::external_type_specification]
#[verifier::external_body]
pub struct ExHttpError(HttpError);

/// A parsed JSON value of the `serde_json` crate.
#[verifier::external_type_specification]
#[verifier::external_body]
pub struct ExValue(serde_json::Value);

/// The error that `serde_json` gives for a body that is not JSON.
#[verifier::external_type_specification]
#[verifier::external_body]
pub struct ExJsonError(JsonError);

/// The error that a `Display` impl reports when it cannot write.
#[verifier::external_type_specification]
#[verifier::external_body]
pub struct ExFmtError(FmtError);

} // verus!

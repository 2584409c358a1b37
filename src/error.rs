//! The ways a call can fail.
use vstd::prelude::*;
use vstd::string::to_string_from_display_ensures;

verus! {

/// A response as the service sent it: its status code, its headers and its
/// body.
#[derive(Debug)]
pub struct RawResponse {
    /// The HTTP status code.
    pub status: u16,
    /// The headers, by name, in the order received.
    pub headers: Vec<(String, Vec<u8>)>,
    /// The bytes of the body.
    pub body: Vec<u8>,
}

/// Why a JSON document does not have the shape of a result.
#[derive(Clone, Copy, Debug, PartialEq, Eq)]
pub enum DecodeError {
    /// The document, or an item of its results, is not an object.
    NotAnObject,
    /// A required field is absent.
    MissingField(&'static str),
    /// A field holds a value of the wrong kind.
    WrongType(&'static str),
}

/// The errors that the library's calls return.
#[derive(Debug)]
pub enum Error {
    /// Writing a value into the query text failed.
    Fmt(std::fmt::Error),
    /// The assembled text is not a valid URI.
    Uri(http::uri::InvalidUri),
    /// The request could not be built.
    Http(http::Error),
    /// The HTTP client could not complete the exchange.
    Transport(String),
    /// The service answered 400; the response is kept for inspection.
    BadRequest(RawResponse),
    /// The service answered with a status other than 200 or 400.
    InvalidRequest(RawResponse),
    /// The body is not well-formed JSON.
    Json(serde_json::Error),
    /// The body is JSON but does not have the expected shape.
    Decode(DecodeError),
}

impl Error {
    /// The text of the errors that the library itself raises; the others
    /// carry the text of the error they wrap.
    pub open spec fn own_text(&self) -> Option<Seq<char>> {
        match self {
            Error::Transport(_) => Some("HTTP exchange failed"@),
            Error::BadRequest(_) => Some("Request bad"@),
            Error::InvalidRequest(_) => Some("Request invalid"@),
            Error::Decode(_) => Some("body does not match the expected schema"@),
            _ => None,
        }
    }

    /// A text that describes the error: the wrapped error's own text, where
    /// there is one.
    pub fn description(&self) -> (r: String)
        ensures
            self.own_text() matches Some(t) ==> r@ == t,
            self matches Error::Fmt(i) ==> to_string_from_display_ensures::<std::fmt::Error>(&i, r),
            self matches Error::Uri(i) ==> to_string_from_display_ensures::<http::uri::InvalidUri>(&i, r),
            self matches Error::Http(i) ==> to_string_from_display_ensures::<http::Error>(&i, r),
            self matches Error::Json(i) ==> to_string_from_display_ensures::<serde_json::Error>(&i, r),
    {
        match self {
            Error::Fmt(inner) => inner.to_string(),
            Error::Uri(inner) => inner.to_string(),
            Error::Http(inner) => inner.to_string(),
            Error::Json(inner) => inner.to_string(),
            Error::Transport(_) => String::from_str("HTTP exchange failed"),
            Error::BadRequest(_) => String::from_str("Request bad"),
            Error::InvalidRequest(_) => String::from_str("Request invalid"),
            Error::Decode(_) => String::from_str("body does not match the expected schema"),
        }
    }
}

impl From<std::fmt::Error> for Error {
    fn from(e: std::fmt::Error) -> (r: Error)
        ensures
            r == Error::Fmt(e),
    {
        Error::Fmt(e)
    }
}

impl vstd::std_specs::convert::FromSpecImpl<std::fmt::Error> for Error {
    open spec fn obeys_from_spec() -> bool {
        true
    }

    open spec fn from_spec(e: std::fmt::Error) -> Error {
        Error::Fmt(e)
    }
}

impl From<http::uri::InvalidUri> for Error {
    fn from(e: http::uri::InvalidUri) -> (r: Error)
        ensures
            r == Error::Uri(e),
    {
        Error::Uri(e)
    }
}

impl vstd::std_specs::convert::FromSpecImpl<http::uri::InvalidUri> for Error {
    open spec fn obeys_from_spec() -> bool {
        true
    }

    open spec fn from_spec(e: http::uri::InvalidUri) -> Error {
        Error::Uri(e)
    }
}

impl From<http::Error> for Error {
    fn from(e: http::Error) -> (r: Error)
        ensures
            r == Error::Http(e),
    {
        Error::Http(e)
    }
}

impl vstd::std_specs::convert::FromSpecImpl<http::Error> for Error {
    open spec fn obeys_from_spec() -> bool {
        true
    }

    open spec fn from_spec(e: http::Error) -> Error {
        Error::Http(e)
    }
}

impl From<serde_json::Error> for Error {
    fn from(e: serde_json::Error) -> (r: Error)
        ensures
            r == Error::Json(e),
    {
        Error::Json(e)
    }
}

impl vstd::std_specs::convert::FromSpecImpl<serde_json::Error> for Error {
    open spec fn obeys_from_spec() -> bool {
        true
    }

    open spec fn from_spec(e: serde_json::Error) -> Error {
        Error::Json(e)
    }
}

impl From<DecodeError> for Error {
    fn from(e: DecodeError) -> (r: Error)
        ensures
            r == Error::Decode(e),
    {
        Error::Decode(e)
    }
}

impl vstd::std_specs::convert::FromSpecImpl<DecodeError> for Error {
    open spec fn obeys_from_spec() -> bool {
        true
    }

    open spec fn from_spec(e: DecodeError) -> Error {
        Error::Decode(e)
    }
}

} // verus!

//! The closed set of ways a call can fail.

use vstd::prelude::*;
use crate::codec::DecodeError;
use crate::query::UnsupportedQuery;

verus! {

#[verifier::external_type_specification]
#[verifier::external_body]
pub struct ExHttpError(reqwest::Error);

#[verifier::external_type_specification]
#[verifier::external_body]
pub struct ExUrlParseError(url::ParseError);

#[derive(Debug)]
pub enum OpenstreetmapError {
    /// The transport failed: DNS, connection, timeout.
    Http(reqwest::Error),
    /// The URL of the call does not parse.
    Url(url::ParseError),
    /// The response body does not decode to the expected shape.
    Serde(DecodeError),
    /// The query string or form body could not be encoded.
    UrlEncode(serde_urlencoded::ser::Error),
    /// The search cannot be expressed as a query string.
    Query(UnsupportedQuery),
    /// Any other 4xx status, with the response body as sent.
    Client { code: u16, error: String },
    /// Status 401.
    Unauthorized,
    /// Status 405.
    MethodNotAllowed,
    /// Status 404.
    NotFound,
    /// The call needs credentials and the client has none.
    CredentialsNeeded,
}

} // verus!

//! The request pipeline: from a call's method, endpoint, body and options
//! to the request to send, and from the response status and text to the
//! call's outcome. Sending is left to the transport.

use vstd::prelude::*;
use crate::errors::OpenstreetmapError;
use crate::query::{form_urlencoded, pairs_view, urlencode};
use crate::text::push_char;
use crate::types::Credentials;
use crate::xml::{XmlElement, to_xml_bytes, utf8, xml_text};

verus! {

/// The API version that a client speaks unless told otherwise.
pub const DEFAULT_VERSION: &'static str = "0.6";

/// The URL that `reference` names when read relative to `base`.
pub uninterp spec fn resolved_url(base: Seq<char>, reference: Seq<char>) -> Option<Seq<char>>;

/// Relies on `url::Url::parse` of the base and `url::Url::join`: the
/// reference resolved against the base, serialized; an error when either
/// does not parse.
#[verifier::external_body]
fn join_url(base: &str, reference: &str) -> (r: Result<String, url::ParseError>)
    ensures
        r is Ok <==> resolved_url(base@, reference@) is Some,
        r matches Ok(s) ==> resolved_url(base@, reference@) == Some(s@),
{
    url::Url::parse(base).and_then(|b| b.join(reference)).map(String::from)
}

#[derive(Debug, Clone, Copy, PartialEq, Eq)]
pub enum Method {
    Get,
    Put,
    Post,
    Delete,
}

/// Whether a call puts the API version in its path, and whether it
/// authenticates.
#[derive(Debug, Clone, Copy, PartialEq, Eq)]
pub struct RequestOptions {
    pub use_version: bool,
    pub use_auth: bool,
}

impl RequestOptions {
    pub fn new() -> (r: RequestOptions)
        ensures
            !r.use_version,
            !r.use_auth,
    {
        RequestOptions { use_version: false, use_auth: false }
    }

    pub fn with_version(self) -> (r: RequestOptions)
        ensures
            r.use_version,
            r.use_auth == self.use_auth,
    {
        RequestOptions { use_version: true, use_auth: self.use_auth }
    }

    pub fn with_auth(self) -> (r: RequestOptions)
        ensures
            r.use_version == self.use_version,
            r.use_auth,
    {
        RequestOptions { use_version: self.use_version, use_auth: true }
    }
}

/// The body of a call: an XML document, form fields, form text already
/// encoded, or nothing.
#[derive(Debug)]
pub enum RequestBody {
    Xml(XmlElement),
    Form(Vec<(String, String)>),
    RawForm(Vec<u8>),
    Empty,
}

#[derive(Debug, PartialEq, Eq)]
pub enum Payload {
    Text(String),
    Bytes(Vec<u8>),
}

/// A request ready for the transport.
#[derive(Debug)]
pub struct PreparedRequest {
    pub method: Method,
    pub url: String,
    /// Username and password for HTTP Basic authentication.
    pub basic_auth: Option<(String, String)>,
    pub content_type: Option<String>,
    pub body: Option<Payload>,
}

/// A client's host, API version and credentials.
#[derive(Debug, Clone)]
pub struct Openstreetmap {
    pub host: String,
    pub api_version: String,
    pub credentials: Credentials,
}

pub open spec fn api_root() -> Seq<char> {
    seq!['a', 'p', 'i', '/']
}

/// The URL of an endpoint: the host, then `api/`, then `<version>/` when
/// the call asks for it, then the endpoint.
pub open spec fn endpoint_url(
    host: Seq<char>,
    version: Seq<char>,
    endpoint: Seq<char>,
    use_version: bool,
) -> Option<Seq<char>> {
    match resolved_url(host, api_root()) {
        None => None,
        Some(a) => {
            let b = if use_version {
                resolved_url(a, version + seq!['/'])
            } else {
                Some(a)
            };
            match b {
                None => None,
                Some(b) => resolved_url(b, endpoint),
            }
        },
    }
}

pub open spec fn xml_content_type() -> Seq<char> {
    seq!['t', 'e', 'x', 't', '/', 'x', 'm', 'l']
}

pub open spec fn form_content_type() -> Seq<char> {
    "application/x-www-form-urlencoded"@
}

/// The credentials a request carries: the client's, when the call
/// authenticates; none otherwise.
pub open spec fn auth_sent(
    credentials: Credentials,
    use_auth: bool,
    basic_auth: Option<(String, String)>,
) -> bool {
    if use_auth {
        match (credentials, basic_auth) {
            (Credentials::Basic(u, w), Some((pu, pw))) => pu@ == u@ && pw@ == w@,
            _ => false,
        }
    } else {
        basic_auth is None
    }
}

/// What a body is sent as: its content type and payload.
pub open spec fn body_sent(body: RequestBody, r: PreparedRequest) -> bool {
    match body {
        RequestBody::Xml(doc) => {
            &&& r.content_type matches Some(c) && c@ == xml_content_type()
            &&& r.body matches Some(Payload::Bytes(b)) && b@ == utf8(xml_text(doc))
        },
        RequestBody::Form(fields) => {
            &&& r.content_type matches Some(c) && c@ == form_content_type()
            &&& r.body matches Some(Payload::Text(t)) && t@ == form_urlencoded(
                pairs_view(fields@),
            )
        },
        RequestBody::RawForm(bytes) => {
            &&& r.content_type matches Some(c) && c@ == form_content_type()
            &&& r.body matches Some(Payload::Bytes(b)) && b@ == bytes@
        },
        RequestBody::Empty => r.content_type is None && r.body is None,
    }
}

/// The status classes of a response: 401, 405 and 404 by name, any other
/// 4xx as a client error with its body, anything else as success.
pub open spec fn classified(status: u16, text: Seq<char>, r: Result<String, OpenstreetmapError>) -> bool {
    if status == 401 {
        r matches Err(OpenstreetmapError::Unauthorized)
    } else if status == 405 {
        r matches Err(OpenstreetmapError::MethodNotAllowed)
    } else if status == 404 {
        r matches Err(OpenstreetmapError::NotFound)
    } else if 400 <= status < 500 {
        r matches Err(OpenstreetmapError::Client { code, error }) && code == status && error@
            == text
    } else {
        r matches Ok(t) && t@ == text
    }
}

/// The outcome of a response.
pub fn classify_response(status: u16, text: String) -> (r: Result<String, OpenstreetmapError>)
    ensures
        classified(status, text@, r),
{
    if status == 401 {
        Err(OpenstreetmapError::Unauthorized)
    } else if status == 405 {
        Err(OpenstreetmapError::MethodNotAllowed)
    } else if status == 404 {
        Err(OpenstreetmapError::NotFound)
    } else if 400 <= status && status < 500 {
        Err(OpenstreetmapError::Client { code: status, error: text })
    } else {
        Ok(text)
    }
}

impl Openstreetmap {
    /// A client of `host` that speaks the default API version.
    pub fn new(host: &str, credentials: Credentials) -> (r: Openstreetmap)
        ensures
            r.host@ == host@,
            r.api_version@ == DEFAULT_VERSION@,
            r.credentials == credentials,
    {
        Openstreetmap {
            host: String::from_str(host),
            api_version: String::from_str(DEFAULT_VERSION),
            credentials,
        }
    }

    /// The URL of `endpoint`.
    pub fn url(&self, endpoint: &str, options: RequestOptions) -> (r: Result<
        String,
        OpenstreetmapError,
    >)
        ensures
            r is Ok <==> endpoint_url(
                self.host@,
                self.api_version@,
                endpoint@,
                options.use_version,
            ) is Some,
            r matches Ok(u) ==> endpoint_url(
                self.host@,
                self.api_version@,
                endpoint@,
                options.use_version,
            ) == Some(u@),
            r matches Err(e) ==> e is Url,
    {
        proof {
            reveal_strlit("api/");
            assert("api/"@ =~= api_root());
        }
        let mut url = match join_url(self.host.as_str(), "api/") {
            Ok(u) => u,
            Err(e) => {
                return Err(OpenstreetmapError::Url(e));
            },
        };
        if options.use_version {
            let mut version_path = self.api_version.clone();
            push_char(&mut version_path, '/');
            assert(version_path@ =~= self.api_version@ + seq!['/']);
            url = match join_url(url.as_str(), version_path.as_str()) {
                Ok(u) => u,
                Err(e) => {
                    return Err(OpenstreetmapError::Url(e));
                },
            };
        }
        match join_url(url.as_str(), endpoint) {
            Ok(u) => Ok(u),
            Err(e) => Err(OpenstreetmapError::Url(e)),
        }
    }

    /// The request for one call. A call that asks for authentication on a
    /// client without credentials fails with `CredentialsNeeded`, so that
    /// nothing is sent; a URL that does not parse fails first.
    pub fn prepare(
        &self,
        method: Method,
        endpoint: &str,
        body: RequestBody,
        options: RequestOptions,
    ) -> (r: Result<PreparedRequest, OpenstreetmapError>)
        ensures
            endpoint_url(self.host@, self.api_version@, endpoint@, options.use_version) is None
                ==> r matches Err(OpenstreetmapError::Url(_)),
            endpoint_url(self.host@, self.api_version@, endpoint@, options.use_version) is Some
                && options.use_auth && self.credentials is Anonymous ==> r matches Err(
                OpenstreetmapError::CredentialsNeeded,
            ),
            r matches Ok(p) ==> {
                &&& p.method == method
                &&& endpoint_url(self.host@, self.api_version@, endpoint@, options.use_version)
                    == Some(p.url@)
                &&& body_sent(body, p)
                &&& auth_sent(self.credentials, options.use_auth, p.basic_auth)
            },
            r is Err <==> (endpoint_url(
                self.host@,
                self.api_version@,
                endpoint@,
                options.use_version,
            ) is None || (options.use_auth && self.credentials is Anonymous)),
    {
        let url = self.url(endpoint, options)?;
        let basic_auth = if options.use_auth {
            match &self.credentials {
                Credentials::Basic(user, password) => Some((user.clone(), password.clone())),
                Credentials::Anonymous => {
                    return Err(OpenstreetmapError::CredentialsNeeded);
                },
            }
        } else {
            None
        };
        proof {
            reveal_strlit("text/xml");
            assert("text/xml"@ =~= xml_content_type());
        }
        let (content_type, payload) = match body {
            RequestBody::Xml(doc) => (
                Some(String::from_str("text/xml")),
                Some(Payload::Bytes(to_xml_bytes(&doc))),
            ),
            RequestBody::Form(fields) => {
                let text = urlencode(&fields);
                (
                    Some(String::from_str("application/x-www-form-urlencoded")),
                    Some(Payload::Text(text)),
                )
            },
            RequestBody::RawForm(bytes) => (
                Some(String::from_str("application/x-www-form-urlencoded")),
                Some(Payload::Bytes(bytes)),
            ),
            RequestBody::Empty => (None, None),
        };
        Ok(PreparedRequest { method, url, basic_auth, content_type, body: payload })
    }
}

} // verus!

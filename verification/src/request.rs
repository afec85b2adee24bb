//! The request of a call, and the URL at which it reaches one member.

use std::str::FromStr;
use vstd::prelude::*;
use vstd::string::*;
use crate::error::{AuthError, TransportError};

verus! {

/// The HTTP methods of the calls.
#[derive(Clone, Copy, Debug, PartialEq, Eq, Hash, Structural)]
pub enum Method {
    Get,
    Put,
    Delete,
}

/// What a call asks of whichever member it reaches: made once for the call and used for
/// each member in turn.
#[derive(Debug, Clone, PartialEq, Eq, Hash)]
pub struct LogicalRequest {
    /// The method of the request.
    pub method: Method,
    /// The path of the call below the root of the auth API, with its leading slash.
    pub path: String,
    /// The body of the request, if it has one.
    pub body: Option<String>,
}

/// What a call asks, as mathematical values.
pub struct LogicalRequestView {
    pub method: Method,
    pub path: Seq<char>,
    pub body: Option<Seq<char>>,
}

/// A request to one member.
#[derive(Debug, Clone, PartialEq, Eq, Hash)]
pub struct Request {
    /// The method of the request.
    pub method: Method,
    /// The whole URL of the request.
    pub url: String,
    /// The body of the request, if it has one.
    pub body: Option<String>,
}

/// A request to one member as mathematical values.
pub struct RequestView {
    pub method: Method,
    pub url: Seq<char>,
    pub body: Option<Seq<char>>,
}

/// A text that may be absent, as a sequence of characters.
pub open spec fn text_view(text: Option<String>) -> Option<Seq<char>> {
    match text {
        Some(t) => Some(t@),
        None => None,
    }
}

impl View for LogicalRequest {
    type V = LogicalRequestView;

    open spec fn view(&self) -> LogicalRequestView {
        LogicalRequestView { method: self.method, path: self.path@, body: text_view(self.body) }
    }
}

impl View for Request {
    type V = RequestView;

    open spec fn view(&self) -> RequestView {
        RequestView { method: self.method, url: self.url@, body: text_view(self.body) }
    }
}

/// A member's address without the slashes at its end.
pub open spec fn base(endpoint: Seq<char>) -> Seq<char>
    decreases endpoint.len(),
{
    if endpoint.len() > 0 && endpoint.last() == '/' {
        base(endpoint.drop_last())
    } else {
        endpoint
    }
}

/// The URL of a call at a member: the member's address with exactly one slash at its end,
/// the root of the auth API, and the path of the call.
pub open spec fn url_of(endpoint: Seq<char>, path: Seq<char>) -> Seq<char> {
    base(endpoint) + seq!['/'] + "v2/auth"@ + path
}

/// What a call asks of the member at the given address.
pub open spec fn request_at(logical: LogicalRequestView, endpoint: Seq<char>) -> RequestView {
    RequestView {
        method: logical.method,
        url: url_of(endpoint, logical.path),
        body: logical.body,
    }
}

/// What the call that enables the auth system asks: `PUT /enable` with an empty body.
pub open spec fn enable_request() -> LogicalRequestView {
    LogicalRequestView { method: Method::Put, path: "/enable"@, body: Some(Seq::empty()) }
}

/// What the call that disables the auth system asks: `DELETE /enable`.
pub open spec fn disable_request() -> LogicalRequestView {
    LogicalRequestView { method: Method::Delete, path: "/enable"@, body: None }
}

/// What the call for the state of the auth system asks: `GET /enable`.
pub open spec fn status_request() -> LogicalRequestView {
    LogicalRequestView { method: Method::Get, path: "/enable"@, body: None }
}

/// The URL of a call has exactly one slash between the member's address and the root of the
/// auth API, however many slashes the address ends in: a slash more at the end of the
/// address changes nothing.
pub proof fn lemma_one_slash(endpoint: Seq<char>, path: Seq<char>)
    ensures
        base(endpoint).len() > 0 ==> base(endpoint).last() != '/',
        url_of(endpoint.push('/'), path) == url_of(endpoint, path),
    decreases endpoint.len(),
{
    if endpoint.len() > 0 && endpoint.last() == '/' {
        lemma_one_slash(endpoint.drop_last(), path);
    }
    assert(endpoint.push('/').drop_last() =~= endpoint);
}

/// Whether `hyper::Uri` takes a text as a URI.
pub uninterp spec fn uri_accepts(url: Seq<char>) -> bool;

/// Calls `<hyper::Uri as FromStr>::from_str` and hands back the error, if the text was refused.
/// Whether a text is refused is claimed to depend on the text alone; on which texts that
/// happens is not stated.
#[verifier::external_body]
fn uri_error(url: &str) -> (r: Option<hyper::error::UriError>)
    ensures
        r is None <==> uri_accepts(url@),
{
    hyper::Uri::from_str(url).err()
}

/// Constructs the full URL for an API call.
pub fn build_url(endpoint: &str, path: &str) -> (url: String)
    ensures
        url@ == url_of(endpoint@, path@),
{
    let mut n = endpoint.unicode_len();
    assert(endpoint@.take(n as int) =~= endpoint@);
    while n > 0 && endpoint.get_char(n - 1) == '/'
        invariant
            n <= endpoint@.len(),
            base(endpoint@) == base(endpoint@.take(n as int)),
        decreases n,
    {
        assert(endpoint@.take(n as int).drop_last() =~= endpoint@.take(n - 1));
        n = n - 1;
    }
    let mut url = endpoint.substring_char(0, n).to_owned();
    proof {
        reveal_strlit("/");
    }
    url.append("/");
    url.append("v2/auth");
    url.append(path);
    url
}

impl LogicalRequest {
    /// The request that enables the auth system.
    pub fn enable() -> (r: LogicalRequest)
        ensures
            r@ == enable_request(),
    {
        LogicalRequest { method: Method::Put, path: "/enable".to_owned(), body: Some(String::new()) }
    }

    /// The request that disables the auth system.
    pub fn disable() -> (r: LogicalRequest)
        ensures
            r@ == disable_request(),
    {
        LogicalRequest { method: Method::Delete, path: "/enable".to_owned(), body: None }
    }

    /// The request that asks whether the auth system is enabled.
    pub fn status() -> (r: LogicalRequest)
        ensures
            r@ == status_request(),
    {
        LogicalRequest { method: Method::Get, path: "/enable".to_owned(), body: None }
    }

    /// The request to the member whose URL is given, or the failure of the attempt where
    /// that URL was refused as a URI.
    pub fn addressed(&self, url: String, refused: Option<hyper::error::UriError>) -> (r: Result<
        Request,
        AuthError,
    >)
        ensures
            match refused {
                Some(error) => r == Err::<Request, AuthError>(
                    AuthError::Transport(TransportError::InvalidUri(error)),
                ),
                None => r matches Ok(request) && request@ == (RequestView {
                    method: self.method,
                    url: url@,
                    body: text_view(self.body),
                }),
            },
    {
        match refused {
            Some(error) => Err(AuthError::Transport(TransportError::InvalidUri(error))),
            None => {
                let body = match &self.body {
                    Some(text) => Some(text.clone()),
                    None => None,
                };
                Ok(Request { method: self.method, url, body })
            },
        }
    }

    /// The request to one member. Where the URL of the call at that member is no URI, the
    /// attempt fails here, before anything is sent.
    pub fn at(&self, endpoint: &str) -> (r: Result<Request, AuthError>)
        ensures
            r is Ok <==> uri_accepts(request_at(self@, endpoint@).url),
            r matches Ok(request) ==> request@ == request_at(self@, endpoint@),
            r matches Err(error) ==> error matches AuthError::Transport(
                TransportError::InvalidUri(_),
            ),
    {
        let url = build_url(endpoint, self.path.as_str());
        let refused = uri_error(url.as_str());
        self.addressed(url, refused)
    }
}

} // verus!

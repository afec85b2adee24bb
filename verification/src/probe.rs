//! One attempt on one member: the request is made out for the member, sent, and the answer read.

use vstd::prelude::*;
use crate::cluster::{Header, Response};
use crate::dispatch::{complete, dispatch, first_ok, made_by, result_view};
use crate::error::{AuthError, TransportError};
use crate::request::{request_at, uri_accepts, LogicalRequest, LogicalRequestView, Request};

verus! {

/// The answer of a member.
#[derive(Debug, Clone, PartialEq, Eq, Hash)]
pub struct HttpResponse {
    /// The status code.
    pub status: u16,
    /// The header lines, in the order in which they came.
    pub headers: Vec<Header>,
    /// The bytes of the body.
    pub body: Vec<u8>,
}

/// What an attempt on the member at `endpoint` may come to, where `send` is what sends a
/// request and `reads` tells what an answer may be read as.
///
/// Where the URL of the call at the member is no URI, the attempt fails with the error of
/// the URI and nothing is sent. Otherwise the request of the call is sent to that URL: a
/// failure to send is the failure of the attempt, and an answer is read.
pub open spec fn attempted<T, F: Fn(Request) -> Result<HttpResponse, AuthError>>(
    logical: LogicalRequestView,
    endpoint: Seq<char>,
    send: F,
    reads: spec_fn(HttpResponse, Result<Response<T>, AuthError>) -> bool,
    outcome: Result<Response<T>, AuthError>,
) -> bool {
    if uri_accepts(request_at(logical, endpoint).url) {
        exists|request: Request, reply: Result<HttpResponse, AuthError>|
            {
                &&& request@ == request_at(logical, endpoint)
                &&& #[trigger] call_ensures(send, (request,), reply)
                &&& match reply {
                    Ok(response) => reads(response, outcome),
                    Err(error) => outcome == Err::<Response<T>, AuthError>(error),
                }
            }
    } else {
        outcome matches Err(AuthError::Transport(TransportError::InvalidUri(_)))
    }
}

/// `send` takes the request of the call for the member at `endpoint`.
pub open spec fn sendable<F: Fn(Request) -> Result<HttpResponse, AuthError>>(
    logical: LogicalRequestView,
    endpoint: Seq<char>,
    send: &F,
) -> bool {
    forall|request: Request|
        request@ == request_at(logical, endpoint) ==> call_requires(*send, (request,))
}

/// `read` takes every answer that `send` may give.
pub open spec fn readable<
    T,
    F: Fn(Request) -> Result<HttpResponse, AuthError>,
    R: Fn(&HttpResponse) -> Result<Response<T>, AuthError>,
>(send: &F, read: &R) -> bool {
    forall|request: Request, response: HttpResponse|
        call_ensures(*send, (request,), Ok::<HttpResponse, AuthError>(response))
            ==> call_requires(*read, (&response,))
}

/// What `read` may read an answer as.
pub open spec fn reading_of<T, R: Fn(&HttpResponse) -> Result<Response<T>, AuthError>>(
    read: R,
) -> spec_fn(HttpResponse, Result<Response<T>, AuthError>) -> bool {
    |response: HttpResponse, outcome: Result<Response<T>, AuthError>|
        call_ensures(read, (&response,), outcome)
}

/// Makes one attempt on the member at `endpoint`: makes out the request for that member,
/// sends it with `send` and reads the answer with `read`.
pub fn probe<T, F, R>(endpoint: &str, logical: &LogicalRequest, send: &F, read: &R) -> (r: Result<
    Response<T>,
    AuthError,
>) where
    F: Fn(Request) -> Result<HttpResponse, AuthError>,
    R: Fn(&HttpResponse) -> Result<Response<T>, AuthError>,

    requires
        sendable(logical@, endpoint@, send),
        readable(send, read),
    ensures
        attempted(logical@, endpoint@, *send, reading_of(*read), r),
{
    match logical.at(endpoint) {
        Err(error) => Err(error),
        Ok(request) => match send(request) {
            Err(error) => Err(error),
            Ok(response) => read(&response),
        },
    }
}

/// The attempts are such as can be made on the first members, each on the member at its own
/// position.
pub open spec fn all_attempted<T, F: Fn(Request) -> Result<HttpResponse, AuthError>>(
    logical: LogicalRequestView,
    endpoints: Seq<String>,
    send: F,
    reads: spec_fn(HttpResponse, Result<Response<T>, AuthError>) -> bool,
    attempts: Seq<Result<Response<T>, AuthError>>,
) -> bool {
    &&& attempts.len() <= endpoints.len()
    &&& forall|i: int|
        0 <= i < attempts.len() ==> attempted(
            logical,
            endpoints[i]@,
            send,
            reads,
            #[trigger] attempts[i],
        )
}

/// What a call over the given members may come to: the members are tried in the order
/// given, each with one attempt, up to the first attempt that succeeds; the call gives what
/// that attempt gave, or else the errors of all the attempts in the order of the members.
pub open spec fn called<T, F: Fn(Request) -> Result<HttpResponse, AuthError>>(
    logical: LogicalRequestView,
    endpoints: Seq<String>,
    send: F,
    reads: spec_fn(HttpResponse, Result<Response<T>, AuthError>) -> bool,
    result: Result<Response<T>, Vec<AuthError>>,
) -> bool {
    exists|attempts: Seq<Result<Response<T>, AuthError>>|
        {
            &&& #[trigger] all_attempted(logical, endpoints, send, reads, attempts)
            &&& complete(attempts, endpoints.len())
            &&& result_view(result) == dispatch(attempts)
        }
}

/// Makes a call over the given members: sends the request of the call to one member after
/// the other, in the order given, until a member gives an answer that `read` takes.
pub fn call<T, F, R>(endpoints: Vec<String>, logical: &LogicalRequest, send: &F, read: &R) -> (r:
    Result<Response<T>, Vec<AuthError>>) where
    F: Fn(Request) -> Result<HttpResponse, AuthError>,
    R: Fn(&HttpResponse) -> Result<Response<T>, AuthError>,

    requires
        forall|i: int|
            0 <= i < endpoints@.len() ==> sendable(
                logical@,
                (#[trigger] endpoints@[i])@,
                send,
            ),
        readable(send, read),
    ensures
        called(logical@, endpoints@, *send, reading_of(*read), r),
{
    let attempt = |endpoint: &String| -> (outcome: Result<Response<T>, AuthError>)
        requires
            sendable(logical@, endpoint@, send),
            readable(send, read),
        ensures
            attempted(logical@, endpoint@, *send, reading_of(*read), outcome),
        { probe(endpoint.as_str(), logical, send, read) };
    let r = first_ok(endpoints, attempt);
    proof {
        let attempts = choose|attempts: Seq<Result<Response<T>, AuthError>>|
            {
                &&& #[trigger] made_by(attempt, endpoints@, attempts)
                &&& complete(attempts, endpoints@.len())
                &&& result_view(r) == dispatch(attempts)
            };
        assert(all_attempted(logical@, endpoints@, *send, reading_of(*read), attempts));
    }
    r
}

} // verus!

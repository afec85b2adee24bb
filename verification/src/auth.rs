//! The calls that switch the auth system on and off and ask whether it is on.

use vstd::prelude::*;
use crate::cluster::{cluster_info, lines, ClusterInfo, HeaderView, Response, ResponseView};
use crate::dispatch::{complete, dispatch, lemma_single_success, result_view};
use crate::error::{ApiError, AuthError};
use crate::outcome::{disable_outcome, enable_outcome, DisableAuth, EnableAuth};
use crate::probe::{all_attempted, call, called, reading_of, sendable, HttpResponse};
use crate::request::{disable_request, enable_request, status_request, LogicalRequest, Request};

verus! {

/// What an attempt came to, with a successful answer as mathematical values.
pub open spec fn attempt_view<T>(attempt: Result<Response<T>, AuthError>) -> Result<
    ResponseView<T>,
    AuthError,
> {
    match attempt {
        Ok(response) => Ok(response@),
        Err(error) => Err(error),
    }
}

/// The attempt got no answer: the transport failed.
pub open spec fn transport_failed<T>(attempt: Result<T, AuthError>) -> bool {
    attempt matches Err(error) && error is Transport
}

/// What an answer means for an attempt to disable the auth system: the result that the
/// status stands for, with what the headers say of the cluster, or the error of a status
/// that stands for none.
pub open spec fn disable_answer(status: u16, headers: Seq<HeaderView>) -> Result<
    ResponseView<DisableAuth>,
    AuthError,
> {
    match disable_outcome(status) {
        Ok(data) => Ok(ResponseView { data, cluster_info: cluster_info(headers) }),
        Err(error) => Err(error),
    }
}

/// What an answer means for an attempt to enable the auth system: the result that the
/// status stands for, with what the headers say of the cluster, or the error of a status
/// that stands for none.
pub open spec fn enable_answer(status: u16, headers: Seq<HeaderView>) -> Result<
    ResponseView<EnableAuth>,
    AuthError,
> {
    match enable_outcome(status) {
        Ok(data) => Ok(ResponseView { data, cluster_info: cluster_info(headers) }),
        Err(error) => Err(error),
    }
}

/// What an answer with status 200 means for an attempt to learn the state of the auth
/// system, given what came of reading its body as a record of the state: the state, with
/// what the headers say of the cluster, or a failure of serialization.
pub open spec fn state_read(headers: Seq<HeaderView>, reading: Result<bool, serde_json::Error>)
    -> Result<ResponseView<bool>, AuthError> {
    match reading {
        Ok(enabled) => Ok(ResponseView { data: enabled, cluster_info: cluster_info(headers) }),
        Err(error) => Err(AuthError::Serialization(error)),
    }
}

/// What an answer with another status than 200 means for an attempt to learn the state of
/// the auth system, given what came of reading its body as an error of the member: that
/// error, or a failure of serialization.
pub open spec fn failure_read(reading: Result<ApiError, serde_json::Error>) -> AuthError {
    match reading {
        Ok(error) => AuthError::Application(error),
        Err(error) => AuthError::Serialization(error),
    }
}

/// An attempt to disable the auth system came to this on that answer.
pub open spec fn disable_reads(
    response: HttpResponse,
    outcome: Result<Response<DisableAuth>, AuthError>,
) -> bool {
    attempt_view(outcome) == disable_answer(response.status, lines(response.headers@))
}

/// An attempt to enable the auth system came to this on that answer.
pub open spec fn enable_reads(
    response: HttpResponse,
    outcome: Result<Response<EnableAuth>, AuthError>,
) -> bool {
    attempt_view(outcome) == enable_answer(response.status, lines(response.headers@))
}

/// An attempt to learn the state of the auth system may come to this on that answer.
///
/// With status 200 the body is read as a record of the state, with any other status as an
/// error of the member; the other reading is not made.
pub open spec fn status_reads<
    A: Fn(&Vec<u8>) -> Result<bool, serde_json::Error>,
    E: Fn(&Vec<u8>) -> Result<ApiError, serde_json::Error>,
>(
    read_auth_status: A,
    read_api_error: E,
    response: HttpResponse,
    outcome: Result<Response<bool>, AuthError>,
) -> bool {
    if response.status == 200 {
        exists|reading: Result<bool, serde_json::Error>|
            {
                &&& #[trigger] call_ensures(read_auth_status, (&response.body,), reading)
                &&& attempt_view(outcome) == state_read(lines(response.headers@), reading)
            }
    } else {
        exists|reading: Result<ApiError, serde_json::Error>|
            {
                &&& #[trigger] call_ensures(read_api_error, (&response.body,), reading)
                &&& outcome == Err::<Response<bool>, AuthError>(failure_read(reading))
            }
    }
}

/// What an answer to a request to disable the auth system is read as.
pub open spec fn disable_reading() -> spec_fn(
    HttpResponse,
    Result<Response<DisableAuth>, AuthError>,
) -> bool {
    |response: HttpResponse, outcome: Result<Response<DisableAuth>, AuthError>|
        disable_reads(response, outcome)
}

/// What an answer to a request to enable the auth system is read as.
pub open spec fn enable_reading() -> spec_fn(
    HttpResponse,
    Result<Response<EnableAuth>, AuthError>,
) -> bool {
    |response: HttpResponse, outcome: Result<Response<EnableAuth>, AuthError>|
        enable_reads(response, outcome)
}

/// What an answer to a request for the state of the auth system may be read as.
pub open spec fn status_reading<
    A: Fn(&Vec<u8>) -> Result<bool, serde_json::Error>,
    E: Fn(&Vec<u8>) -> Result<ApiError, serde_json::Error>,
>(read_auth_status: A, read_api_error: E) -> spec_fn(
    HttpResponse,
    Result<Response<bool>, AuthError>,
) -> bool {
    |response: HttpResponse, outcome: Result<Response<bool>, AuthError>|
        status_reads(read_auth_status, read_api_error, response, outcome)
}

/// Reads the answer of a member to a request to disable the auth system.
pub fn read_disable(response: &HttpResponse) -> (r: Result<Response<DisableAuth>, AuthError>)
    ensures
        disable_reads(*response, r),
{
    let cluster_info = ClusterInfo::from_headers(&response.headers);
    match DisableAuth::from_status(response.status) {
        Ok(data) => Ok(Response { data, cluster_info }),
        Err(error) => Err(error),
    }
}

/// Reads the answer of a member to a request to enable the auth system.
pub fn read_enable(response: &HttpResponse) -> (r: Result<Response<EnableAuth>, AuthError>)
    ensures
        enable_reads(*response, r),
{
    let cluster_info = ClusterInfo::from_headers(&response.headers);
    match EnableAuth::from_status(response.status) {
        Ok(data) => Ok(Response { data, cluster_info }),
        Err(error) => Err(error),
    }
}

/// What an answer with status 200 to a request for the state of the auth system comes to,
/// once its body was read as a record of the state.
pub fn auth_status_read(reading: Result<bool, serde_json::Error>, cluster_info: ClusterInfo) -> (r:
    Result<Response<bool>, AuthError>)
    ensures
        r == match reading {
            Ok(enabled) => Ok::<Response<bool>, AuthError>(Response { data: enabled, cluster_info }),
            Err(error) => Err::<Response<bool>, AuthError>(AuthError::Serialization(error)),
        },
{
    match reading {
        Ok(enabled) => Ok(Response { data: enabled, cluster_info }),
        Err(error) => Err(AuthError::Serialization(error)),
    }
}

/// What an answer with another status than 200 to a request for the state of the auth system
/// comes to, once its body was read as an error of the member.
pub fn api_error_read(reading: Result<ApiError, serde_json::Error>) -> (r: AuthError)
    ensures
        r == failure_read(reading),
{
    match reading {
        Ok(error) => AuthError::Application(error),
        Err(error) => AuthError::Serialization(error),
    }
}

/// Reads the answer of a member to a request for the state of the auth system.
///
/// `read_auth_status` reads a body as a record of the state, `read_api_error` reads one as an
/// error of the member. The one that the status calls for is used, once.
pub fn read_status<A, E>(response: &HttpResponse, read_auth_status: &A, read_api_error: &E) -> (r:
    Result<Response<bool>, AuthError>) where
    A: Fn(&Vec<u8>) -> Result<bool, serde_json::Error>,
    E: Fn(&Vec<u8>) -> Result<ApiError, serde_json::Error>,

    requires
        forall|body: Vec<u8>| call_requires(*read_auth_status, (&body,)),
        forall|body: Vec<u8>| call_requires(*read_api_error, (&body,)),
    ensures
        status_reads(*read_auth_status, *read_api_error, *response, r),
{
    let cluster_info = ClusterInfo::from_headers(&response.headers);
    if response.status == 200 {
        let reading = read_auth_status(&response.body);
        auth_status_read(reading, cluster_info)
    } else {
        let reading = read_api_error(&response.body);
        Err(api_error_read(reading))
    }
}

/// Attempts to disable the auth system.
///
/// `DELETE /enable` is sent to one member after the other. Status 200 is `Disabled`, 409
/// `AlreadyDisabled` and 401 `Unauthorized`; a member that gives another status, or none,
/// has failed, and the next one is tried.
pub fn disable<F>(endpoints: Vec<String>, send: &F) -> (r: Result<
    Response<DisableAuth>,
    Vec<AuthError>,
>) where F: Fn(Request) -> Result<HttpResponse, AuthError>
    requires
        forall|i: int|
            0 <= i < endpoints@.len() ==> sendable(
                disable_request(),
                (#[trigger] endpoints@[i])@,
                send,
            ),
    ensures
        called(disable_request(), endpoints@, *send, disable_reading(), r),
{
    let logical = LogicalRequest::disable();
    let r = call(endpoints, &logical, send, &read_disable);
    proof {
        let made = reading_of(read_disable);
        let meant = disable_reading();
        let attempts = choose|attempts: Seq<Result<Response<DisableAuth>, AuthError>>|
            {
                &&& #[trigger] all_attempted(logical@, endpoints@, *send, made, attempts)
                &&& complete(attempts, endpoints@.len())
                &&& result_view(r) == dispatch(attempts)
            };
        assert(all_attempted(disable_request(), endpoints@, *send, meant, attempts));
    }
    r
}

/// Attempts to enable the auth system.
///
/// `PUT /enable` is sent with an empty body to one member after the other. Status 200 is
/// `Enabled`, 400 `RootUserRequired` and 409 `AlreadyEnabled`; a member that gives another
/// status, or none, has failed, and the next one is tried.
pub fn enable<F>(endpoints: Vec<String>, send: &F) -> (r: Result<
    Response<EnableAuth>,
    Vec<AuthError>,
>) where F: Fn(Request) -> Result<HttpResponse, AuthError>
    requires
        forall|i: int|
            0 <= i < endpoints@.len() ==> sendable(
                enable_request(),
                (#[trigger] endpoints@[i])@,
                send,
            ),
    ensures
        called(enable_request(), endpoints@, *send, enable_reading(), r),
{
    let logical = LogicalRequest::enable();
    let r = call(endpoints, &logical, send, &read_enable);
    proof {
        let made = reading_of(read_enable);
        let meant = enable_reading();
        let attempts = choose|attempts: Seq<Result<Response<EnableAuth>, AuthError>>|
            {
                &&& #[trigger] all_attempted(logical@, endpoints@, *send, made, attempts)
                &&& complete(attempts, endpoints@.len())
                &&& result_view(r) == dispatch(attempts)
            };
        assert(all_attempted(enable_request(), endpoints@, *send, meant, attempts));
    }
    r
}

/// Determines whether or not the auth system is enabled.
///
/// `GET /enable` is sent to one member after the other. The body of an answer with status
/// 200 is read with `read_auth_status` and gives the state; the body of an answer with any
/// other status is read with `read_api_error` and gives the error of the member. A member
/// that gives an error, a body that cannot be read or no answer has failed, and the next one
/// is tried.
pub fn status<F, A, E>(
    endpoints: Vec<String>,
    send: &F,
    read_auth_status: &A,
    read_api_error: &E,
) -> (r: Result<Response<bool>, Vec<AuthError>>) where
    F: Fn(Request) -> Result<HttpResponse, AuthError>,
    A: Fn(&Vec<u8>) -> Result<bool, serde_json::Error>,
    E: Fn(&Vec<u8>) -> Result<ApiError, serde_json::Error>,

    requires
        forall|i: int|
            0 <= i < endpoints@.len() ==> sendable(
                status_request(),
                (#[trigger] endpoints@[i])@,
                send,
            ),
        forall|body: Vec<u8>| call_requires(*read_auth_status, (&body,)),
        forall|body: Vec<u8>| call_requires(*read_api_error, (&body,)),
    ensures
        called(
            status_request(),
            endpoints@,
            *send,
            status_reading(*read_auth_status, *read_api_error),
            r,
        ),
{
    let logical = LogicalRequest::status();
    let read = |response: &HttpResponse| -> (outcome: Result<Response<bool>, AuthError>)
        requires
            forall|body: Vec<u8>| call_requires(*read_auth_status, (&body,)),
            forall|body: Vec<u8>| call_requires(*read_api_error, (&body,)),
        ensures
            status_reads(*read_auth_status, *read_api_error, *response, outcome),
        { read_status(response, read_auth_status, read_api_error) };
    let r = call(endpoints, &logical, send, &read);
    proof {
        let made = reading_of(read);
        let meant = status_reading(*read_auth_status, *read_api_error);
        let attempts = choose|attempts: Seq<Result<Response<bool>, AuthError>>|
            {
                &&& #[trigger] all_attempted(logical@, endpoints@, *send, made, attempts)
                &&& complete(attempts, endpoints@.len())
                &&& result_view(r) == dispatch(attempts)
            };
        assert(all_attempted(status_request(), endpoints@, *send, meant, attempts));
    }
    r
}

/// Where one member answers a request to disable the auth system with status 200 and the
/// transport fails for every other member, the call gives `Disabled` with what that member
/// said of the cluster, wherever the member stands among the others.
pub proof fn lemma_disable_single_answer(
    attempts: Seq<Result<Response<DisableAuth>, AuthError>>,
    i: int,
    response: HttpResponse,
)
    requires
        0 <= i < attempts.len(),
        response.status == 200,
        disable_reads(response, attempts[i]),
        forall|j: int|
            0 <= j < attempts.len() && j != i ==> transport_failed(#[trigger] attempts[j]),
    ensures
        dispatch(attempts) matches Ok(answer) && answer@ == (ResponseView {
            data: DisableAuth::Disabled,
            cluster_info: cluster_info(lines(response.headers@)),
        }),
{
    lemma_single_success(attempts, i);
}

/// Where one member answers a request to enable the auth system with status 200 and the
/// transport fails for every other member, the call gives `Enabled` with what that member
/// said of the cluster, wherever the member stands among the others.
pub proof fn lemma_enable_single_answer(
    attempts: Seq<Result<Response<EnableAuth>, AuthError>>,
    i: int,
    response: HttpResponse,
)
    requires
        0 <= i < attempts.len(),
        response.status == 200,
        enable_reads(response, attempts[i]),
        forall|j: int|
            0 <= j < attempts.len() && j != i ==> transport_failed(#[trigger] attempts[j]),
    ensures
        dispatch(attempts) matches Ok(answer) && answer@ == (ResponseView {
            data: EnableAuth::Enabled,
            cluster_info: cluster_info(lines(response.headers@)),
        }),
{
    lemma_single_success(attempts, i);
}

/// Where one member answers a request for the state of the auth system with status 200 and
/// a body that reads as a state, and the transport fails for every other member, the call
/// gives that state with what that member said of the cluster, wherever the member stands
/// among the others.
pub proof fn lemma_status_single_answer(
    attempts: Seq<Result<Response<bool>, AuthError>>,
    i: int,
    response: HttpResponse,
    enabled: bool,
)
    requires
        0 <= i < attempts.len(),
        response.status == 200,
        attempt_view(attempts[i]) == state_read(lines(response.headers@), Ok(enabled)),
        forall|j: int|
            0 <= j < attempts.len() && j != i ==> transport_failed(#[trigger] attempts[j]),
    ensures
        dispatch(attempts) matches Ok(answer) && answer@ == (ResponseView {
            data: enabled,
            cluster_info: cluster_info(lines(response.headers@)),
        }),
{
    lemma_single_success(attempts, i);
}

} // verus!

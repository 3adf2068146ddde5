//! The gateway tier: what the HTTP side answers, given what came in and what
//! the storage service returned.
//!
//! A request passes two decisions. Before the backend is called, `dispatch`
//! looks at whether the body could be decoded. After the call, the handler of
//! the route turns the outcome of the call into the response.

use crate::http::HttpStatus;
use crate::rpc::{Entry, LoadReply, RpcCode, RpcStatus, RpcStatusView};
use crate::rpc::{load_result_view, store_result_view};
use vstd::prelude::*;

verus! {

/// The HTTP status that answers a call which failed with `code`.
pub open spec fn http_status_for(code: RpcCode) -> HttpStatus {
    match code {
        RpcCode::Okay => HttpStatus::Okay,
        RpcCode::Cancelled => HttpStatus::RequestTimeout,
        RpcCode::Unknown => HttpStatus::InternalServerError,
        RpcCode::InvalidArgument => HttpStatus::BadRequest,
        RpcCode::DeadlineExceeded => HttpStatus::GatewayTimeout,
        RpcCode::NotFound => HttpStatus::NotFound,
        RpcCode::AlreadyExists => HttpStatus::Conflict,
        RpcCode::PermissionDenied => HttpStatus::Forbidden,
        RpcCode::ResourceExhausted => HttpStatus::TooManyRequests,
        RpcCode::FailedPrecondition => HttpStatus::PreconditionFailed,
        RpcCode::Aborted => HttpStatus::Conflict,
        RpcCode::OutOfRange => HttpStatus::BadRequest,
        RpcCode::Unimplemented => HttpStatus::NotImplemented,
        RpcCode::Internal => HttpStatus::InternalServerError,
        RpcCode::Unavailable => HttpStatus::ServiceUnavailable,
        RpcCode::DataLoss => HttpStatus::InternalServerError,
        RpcCode::Unauthenticated => HttpStatus::Unauthorized,
    }
}

/// What `POST /store` answers once the store call has returned: 200 where it
/// succeeded, else the status that goes with the code of the failure.
pub open spec fn store_response(reply: Result<(), RpcStatusView>) -> HttpStatus {
    match reply {
        Ok(_) => HttpStatus::Okay,
        Err(status) => http_status_for(status.code),
    }
}

/// What `GET /load` answers once the load call has returned: the entry (sent
/// with 200) where it succeeded, else the status that goes with the code of
/// the failure.
pub open spec fn load_response(reply: Result<Entry, RpcStatusView>) -> Result<Entry, HttpStatus> {
    match reply {
        Ok(entry) => Ok(entry),
        Err(status) => Err(http_status_for(status.code)),
    }
}

/// A `GET /load` response as specifications see it.
pub open spec fn load_response_view(response: Result<LoadReply, HttpStatus>) -> Result<
    Entry,
    HttpStatus,
> {
    match response {
        Ok(reply) => Ok(reply@),
        Err(status) => Err(status),
    }
}

/// What becomes of a request once its body has been read.
pub enum Dispatch<R> {
    /// The body decoded to `R`: the request goes on to the backend.
    Forward(R),
    /// The body did not decode: the client is answered at once with this
    /// status, and the backend is not called.
    Reject(HttpStatus),
}

/// The first decision on a request. The caller decodes the body and passes
/// what came of it: `decoded` is the body as a request message, or `None`
/// where the body is not the JSON that the route expects (not JSON at all, a
/// field missing, a field that is no string).
pub fn dispatch<R>(decoded: Option<R>) -> (decision: Dispatch<R>)
    ensures
        decision == match decoded {
            Some(request) => Dispatch::Forward(request),
            None => Dispatch::<R>::Reject(HttpStatus::BadRequest),
        },
{
    match decoded {
        Some(request) => Dispatch::Forward(request),
        None => Dispatch::Reject(HttpStatus::BadRequest),
    }
}

/// Turns the status of a failed call into the HTTP status that reports it.
/// It is named for the two sides it stands between: the status is what the
/// RPC framework (tonic) hands the gateway, the result is what the HTTP
/// server (hyper) sends. Only the code of the status counts.
pub fn tonic_status_into_hyper_status_code(tonic_status: RpcStatus) -> (status: HttpStatus)
    ensures
        status == http_status_for(tonic_status.code),
{
    match tonic_status.code {
        RpcCode::Okay => HttpStatus::Okay,
        RpcCode::Cancelled => HttpStatus::RequestTimeout,
        RpcCode::Unknown => HttpStatus::InternalServerError,
        RpcCode::InvalidArgument => HttpStatus::BadRequest,
        RpcCode::DeadlineExceeded => HttpStatus::GatewayTimeout,
        RpcCode::NotFound => HttpStatus::NotFound,
        RpcCode::AlreadyExists => HttpStatus::Conflict,
        RpcCode::PermissionDenied => HttpStatus::Forbidden,
        RpcCode::ResourceExhausted => HttpStatus::TooManyRequests,
        RpcCode::FailedPrecondition => HttpStatus::PreconditionFailed,
        RpcCode::Aborted => HttpStatus::Conflict,
        RpcCode::OutOfRange => HttpStatus::BadRequest,
        RpcCode::Unimplemented => HttpStatus::NotImplemented,
        RpcCode::Internal => HttpStatus::InternalServerError,
        RpcCode::Unavailable => HttpStatus::ServiceUnavailable,
        RpcCode::DataLoss => HttpStatus::InternalServerError,
        RpcCode::Unauthenticated => HttpStatus::Unauthorized,
    }
}

/// The second decision on `POST /store`: the status to answer with, given
/// what the store call returned. The response has no body.
pub fn store_key_value(reply_result: Result<(), RpcStatus>) -> (status: HttpStatus)
    ensures
        status == store_response(store_result_view(reply_result)),
{
    match reply_result {
        Ok(_) => HttpStatus::Okay,
        Err(status) => tonic_status_into_hyper_status_code(status),
    }
}

/// The second decision on `GET /load`: the reply to send as the body of a
/// 200 response, or the status to answer with and no body, given what the
/// load call returned.
pub fn load_key_value(reply_result: Result<LoadReply, RpcStatus>) -> (response: Result<
    LoadReply,
    HttpStatus,
>)
    ensures
        load_response_view(response) == load_response(load_result_view(reply_result)),
        reply_result matches Ok(reply) ==> response == Ok::<LoadReply, HttpStatus>(reply),
{
    match reply_result {
        Ok(reply) => Ok(reply),
        Err(status) => Err(tonic_status_into_hyper_status_code(status)),
    }
}

} // verus!

//! The shared response pipeline: the status is validated strictly before
//! the body is interpreted.
use vstd::pervasive::unreached;
use vstd::prelude::*;

verus! {

/// Why a request failed.
#[derive(Debug, PartialEq, Eq)]
pub enum ApiError {
    /// The request could not be sent or the response could not be received.
    Transport { message: String },
    /// A response arrived with a status outside 2xx; `body` holds the
    /// response text where it could be read.
    Status { code: u16, body: Option<String> },
    /// A success response whose body did not have the expected shape.
    Decode { message: String },
}

/// What was read from a response body after its status was inspected:
/// its text for a failure status, its parsed JSON for a success status.
#[derive(Debug)]
pub enum ResponseBody<T> {
    Text(Option<String>),
    Json(Result<T, String>),
}

/// The 2xx range.
pub open spec fn is_success_code(code: u16) -> bool {
    200 <= code && code < 300
}

/// The body read that a status calls for.
pub open spec fn body_fits_status<T>(status: u16, body: ResponseBody<T>) -> bool {
    if is_success_code(status) {
        body is Json
    } else {
        body is Text
    }
}

/// The outcome of the pipeline for a status and the body read it called for.
pub open spec fn decode_result<T>(status: u16, body: ResponseBody<T>) -> Result<T, ApiError> {
    match body {
        ResponseBody::Text(text) => Err(ApiError::Status { code: status, body: text }),
        ResponseBody::Json(Ok(v)) => Ok(v),
        ResponseBody::Json(Err(m)) => Err(ApiError::Decode { message: m }),
    }
}

/// Whether a status code lies in the success range; decides whether the
/// body is to be parsed or read as error text.
pub fn check_is_success(status: u16) -> (r: bool)
    ensures
        r == is_success_code(status),
{
    200 <= status && status < 300
}

/// Turns a status and what was read of the body into the typed payload or
/// an error.
pub fn check_status_code_and_deserialize<T>(
    status: u16,
    body: ResponseBody<T>,
) -> (r: Result<T, ApiError>)
    requires
        body_fits_status(status, body),
    ensures
        r == decode_result(status, body),
        r matches Err(ApiError::Status { code, .. }) <==> !is_success_code(status),
        r matches Err(ApiError::Status { code, .. }) ==> code == status,
{
    if !check_is_success(status) {
        match body {
            ResponseBody::Text(text) => Err(ApiError::Status { code: status, body: text }),
            ResponseBody::Json(_) => unreached(),
        }
    } else {
        match body {
            ResponseBody::Json(Ok(v)) => Ok(v),
            ResponseBody::Json(Err(message)) => Err(ApiError::Decode { message }),
            ResponseBody::Text(_) => unreached(),
        }
    }
}

/// Whether an exchange's outcome meets what the pipeline needs: where a
/// response arrived, its body was read as its status calls for.
pub open spec fn sent_fits<T>(sent: Result<(u16, ResponseBody<T>), String>) -> bool {
    match sent {
        Ok((status, body)) => body_fits_status(status, body),
        Err(_) => true,
    }
}

/// The outcome of a whole exchange: a transport failure, or the pipeline's
/// result for the response that arrived.
pub open spec fn sent_result<T>(sent: Result<(u16, ResponseBody<T>), String>) -> Result<
    T,
    ApiError,
> {
    match sent {
        Ok((status, body)) => decode_result(status, body),
        Err(message) => Err(ApiError::Transport { message }),
    }
}

/// Finishes an exchange: a request that could not be sent, or whose
/// response could not be received, is a transport error; a response that
/// arrived goes through the status-then-body pipeline.
pub fn decode_sent<T>(sent: Result<(u16, ResponseBody<T>), String>) -> (r: Result<T, ApiError>)
    requires
        sent_fits(sent),
    ensures
        r == sent_result(sent),
        r matches Err(ApiError::Transport { .. }) <==> sent is Err,
{
    match sent {
        Ok((status, body)) => check_status_code_and_deserialize(status, body),
        Err(message) => Err(ApiError::Transport { message }),
    }
}

/// Status precedes body: a failure status yields a status error carrying
/// that status, and never a decode error, whatever the body holds; such a
/// body is only ever read as text.
pub proof fn lemma_status_precedes_decode<T>(status: u16, body: ResponseBody<T>)
    requires
        body_fits_status(status, body),
        !is_success_code(status),
    ensures
        decode_result(status, body) matches Err(ApiError::Status { code, .. }) && code == status,
        !(decode_result(status, body) matches Err(ApiError::Decode { .. })),
{
}

/// Decoding is a function of the captured status and body alone: the same
/// inputs decoded twice give the same value.
pub proof fn lemma_decode_deterministic<T>(
    status: u16,
    first: ResponseBody<T>,
    second: ResponseBody<T>,
)
    requires
        first == second,
    ensures
        decode_result(status, first) == decode_result(status, second),
{
}

} // verus!

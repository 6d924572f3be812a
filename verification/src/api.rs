//! The errors that the web API answers with, and how the answers of the
//! printer worker become responses.
use vstd::prelude::*;

use crate::status::PrinterAvailability;

verus! {

/// The HTTP statuses that the API answers errors with.
#[derive(Debug, Clone, Copy, PartialEq, Eq, Structural)]
pub enum ErrorStatus {
    BadRequest,
    PayloadTooLarge,
    InternalServerError,
    ServiceUnavailable,
    GatewayTimeout,
}

/// The numeric HTTP status code of an error status.
pub open spec fn status_code(status: ErrorStatus) -> u16 {
    match status {
        ErrorStatus::BadRequest => 400,
        ErrorStatus::PayloadTooLarge => 413,
        ErrorStatus::InternalServerError => 500,
        ErrorStatus::ServiceUnavailable => 503,
        ErrorStatus::GatewayTimeout => 504,
    }
}

impl ErrorStatus {
    /// The numeric HTTP status code.
    pub fn code(&self) -> (c: u16)
        ensures
            c == status_code(*self),
    {
        match self {
            ErrorStatus::BadRequest => 400,
            ErrorStatus::PayloadTooLarge => 413,
            ErrorStatus::InternalServerError => 500,
            ErrorStatus::ServiceUnavailable => 503,
            ErrorStatus::GatewayTimeout => 504,
        }
    }
}

/// An error answer: its status and the message of its JSON body
/// (`{"ok": false, "error": message}`).
#[derive(Debug, Clone, PartialEq, Eq)]
pub struct ApiError {
    pub status: ErrorStatus,
    pub message: String,
}

/// `e` is the error with this status and message.
pub open spec fn is_error(e: ApiError, status: ErrorStatus, message: Seq<char>) -> bool {
    e.status == status && e.message@ == message
}

/// An error answer with the given status and message.
pub fn api_error(status: ErrorStatus, message: String) -> (e: ApiError)
    ensures
        e.status == status,
        e.message == message,
{
    ApiError { status, message }
}

/// A 400 Bad Request answer.
pub fn bad_request(message: String) -> (e: ApiError)
    ensures
        e.status == ErrorStatus::BadRequest,
        e.message == message,
{
    api_error(ErrorStatus::BadRequest, message)
}

/// A 503 Service Unavailable answer.
pub fn service_unavailable(message: String) -> (e: ApiError)
    ensures
        e.status == ErrorStatus::ServiceUnavailable,
        e.message == message,
{
    api_error(ErrorStatus::ServiceUnavailable, message)
}

/// A 500 Internal Server Error answer.
pub fn internal_error(message: String) -> (e: ApiError)
    ensures
        e.status == ErrorStatus::InternalServerError,
        e.message == message,
{
    api_error(ErrorStatus::InternalServerError, message)
}

/// `message` followed by `detail`.
pub fn joined(message: &str, detail: &str) -> (s: String)
    ensures
        s@ == message@ + detail@,
{
    let mut s = String::from_str(message);
    s.append(detail);
    s
}

/// Refuses a second part with the same name: `Ok` while `value` is still
/// empty, else a 400 "Duplicate field: name".
pub fn reject_duplicate<T>(value: &Option<T>, name: &str) -> (r: Result<(), ApiError>)
    ensures
        r is Ok <==> value is None,
        r matches Err(e) ==> is_error(e, ErrorStatus::BadRequest, "Duplicate field: "@ + name@),
{
    if value.is_some() {
        return Err(bad_request(joined("Duplicate field: ", name)));
    }
    Ok(())
}

/// How handing a command to the printer worker's bounded queue went.
#[derive(Debug, Clone, Copy, PartialEq, Eq, Structural)]
pub enum QueueOutcome {
    Queued,
    Full,
    Disconnected,
}

/// The answer when a command could not be queued: 503 with the reason.
pub fn queue_refusal(outcome: QueueOutcome) -> (r: Result<(), ApiError>)
    ensures
        outcome == QueueOutcome::Queued ==> r is Ok,
        outcome == QueueOutcome::Full ==> (r matches Err(e)
            && is_error(e, ErrorStatus::ServiceUnavailable, "The printer queue is full"@)),
        outcome == QueueOutcome::Disconnected ==> (r matches Err(e)
            && is_error(e, ErrorStatus::ServiceUnavailable, "The printer worker is unavailable"@)),
{
    match outcome {
        QueueOutcome::Queued => Ok(()),
        QueueOutcome::Full => Err(service_unavailable(String::from_str("The printer queue is full"))),
        QueueOutcome::Disconnected => Err(
            service_unavailable(String::from_str("The printer worker is unavailable")),
        ),
    }
}

/// How waiting for the worker's reply went.
#[derive(Debug)]
pub enum Reply<T> {
    /// The worker answered.
    Received(T),
    /// The deadline passed first.
    TimedOut,
    /// The worker dropped the reply channel without answering.
    Dropped,
}

/// The message of the answer to a print that went through.
pub open spec fn printed_message() -> Seq<char> {
    "Your submission was printed."@
}

/// The answer to a print request, from the worker's reply: the success
/// message, or 504 when it did not answer in time, 503 when it stopped, and
/// 500 with the printer's error when printing failed.
pub fn print_reply_response(reply: Reply<Result<(), String>>) -> (r: Result<String, ApiError>)
    ensures
        reply matches Reply::Received(Ok(_)) ==> (r matches Ok(m) && m@ == printed_message()),
        reply matches Reply::Received(Err(error)) ==> (r matches Err(e)
            && e.status == ErrorStatus::InternalServerError && e.message == error),
        reply is TimedOut ==> (r matches Err(e)
            && is_error(e, ErrorStatus::GatewayTimeout, "The printer did not respond in time"@)),
        reply is Dropped ==> (r matches Err(e)
            && is_error(e, ErrorStatus::ServiceUnavailable, "The printer worker stopped unexpectedly"@)),
{
    match reply {
        Reply::Received(Ok(())) => Ok(String::from_str("Your submission was printed.")),
        Reply::Received(Err(error)) => Err(internal_error(error)),
        Reply::TimedOut => Err(
            api_error(ErrorStatus::GatewayTimeout, String::from_str("The printer did not respond in time")),
        ),
        Reply::Dropped => Err(
            service_unavailable(String::from_str("The printer worker stopped unexpectedly")),
        ),
    }
}

/// The answer to a status request, from the worker's reply: the
/// availability it found, or 504 when it did not answer in time and 503
/// when it stopped.
pub fn status_reply_response(reply: Reply<PrinterAvailability>) -> (r: Result<PrinterAvailability, ApiError>)
    ensures
        reply matches Reply::Received(a) ==> r == Ok::<PrinterAvailability, ApiError>(a),
        reply is TimedOut ==> (r matches Err(e)
            && is_error(e, ErrorStatus::GatewayTimeout, "The printer status check timed out"@)),
        reply is Dropped ==> (r matches Err(e)
            && is_error(e, ErrorStatus::ServiceUnavailable, "The printer worker stopped unexpectedly"@)),
{
    match reply {
        Reply::Received(a) => Ok(a),
        Reply::TimedOut => Err(
            api_error(ErrorStatus::GatewayTimeout, String::from_str("The printer status check timed out")),
        ),
        Reply::Dropped => Err(
            service_unavailable(String::from_str("The printer worker stopped unexpectedly")),
        ),
    }
}

/// Law: the numeric code of each error status.
pub proof fn lemma_status_codes(status: ErrorStatus)
    ensures
        status == ErrorStatus::BadRequest ==> status_code(status) == 400,
        status == ErrorStatus::PayloadTooLarge ==> status_code(status) == 413,
        status == ErrorStatus::InternalServerError ==> status_code(status) == 500,
        status == ErrorStatus::ServiceUnavailable ==> status_code(status) == 503,
        status == ErrorStatus::GatewayTimeout ==> status_code(status) == 504,
{
}
} // verus!

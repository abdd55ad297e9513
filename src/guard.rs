use vstd::prelude::*;
use vstd::string::StringExecFns;

verus! {

/// HTTP status for a request that ran out of its time budget.
pub const REQUEST_TIMEOUT: u16 = 408;

/// HTTP status for any other failure that reaches the guard.
pub const INTERNAL_SERVER_ERROR: u16 = 500;

/// The time budget of one request, in milliseconds.
pub const TIMEOUT_MILLIS: u64 = 1000;

/// A failure that surfaced through the request guard instead of a response.
pub enum Failure {
    /// The budget ran out before the handler answered.
    Elapsed,
    /// Any other error, carried as its display text.
    Internal(String),
}

/// The JSON body of an error response.
pub struct ErrorMessage {
    pub code: u16,
    pub reason: Option<String>,
    pub message: String,
}

/// What `std::time::Duration`'s `Debug` output is for a duration of `millis`
/// milliseconds (such as `1s` or `1.5s`).
pub uninterp spec fn duration_debug_text(millis: u64) -> Seq<char>;

/// Relies on `std::time::Duration::from_millis` and its `Debug` formatting:
/// the text depends on the number of milliseconds alone.
#[verifier::external_body]
fn duration_text(millis: u64) -> (r: String)
    ensures
        r@ == duration_debug_text(millis),
{
    format!("{:?}", std::time::Duration::from_millis(millis))
}

/// Relies on `http::StatusCode::from_u16`, which refuses codes outside
/// 100..=999, and `http::StatusCode::canonical_reason`, which looks the code up
/// in the table of registered reason phrases.
#[verifier::external_body]
fn canonical_reason(code: u16) -> (r: Option<String>)
    ensures
        code == REQUEST_TIMEOUT ==> r.is_some() && r.unwrap()@ == "Request Timeout"@,
        code == INTERNAL_SERVER_ERROR ==> r.is_some() && r.unwrap()@ == "Internal Server Error"@,
        !(100 <= code <= 999) ==> r is None,
{
    axum::http::StatusCode::from_u16(code).ok().and_then(|s| s.canonical_reason()).map(
        |p| p.to_string(),
    )
}

/// The explanation sent when a request outlived a budget of `millis`.
pub open spec fn timeout_message(millis: u64) -> Seq<char> {
    "Request took longer than "@ + duration_debug_text(millis)
}

/// The explanation sent for any other failure with display text `details`.
pub open spec fn internal_message(details: Seq<char>) -> Seq<char> {
    "Unhandled internal error: "@ + details
}

/// The status that a failure is answered with.
pub open spec fn failure_status(err: Failure) -> u16 {
    match err {
        Failure::Elapsed => REQUEST_TIMEOUT,
        Failure::Internal(_) => INTERNAL_SERVER_ERROR,
    }
}

/// The explanation that a failure is answered with, given the budget.
pub open spec fn failure_message(err: Failure, millis: u64) -> Seq<char> {
    match err {
        Failure::Elapsed => timeout_message(millis),
        Failure::Internal(d) => internal_message(d@),
    }
}

/// The registered reason phrase of the two statuses the guard answers with.
pub open spec fn reason_phrase(code: u16) -> Seq<char> {
    if code == REQUEST_TIMEOUT {
        "Request Timeout"@
    } else {
        "Internal Server Error"@
    }
}

/// Builds the error body for `status`: the code itself, its reason phrase and
/// the given explanation.
pub fn error_message(status: u16, message: String) -> (r: ErrorMessage)
    requires
        status == REQUEST_TIMEOUT || status == INTERNAL_SERVER_ERROR,
    ensures
        r.code == status,
        r.reason matches Some(p) && p@ == reason_phrase(status),
        r.message@ == message@,
{
    ErrorMessage { code: status, reason: canonical_reason(status), message }
}

/// The error answer for a request that outlived its budget, given the text of
/// that budget.
pub fn timeout_error(budget_text: String) -> (r: (u16, ErrorMessage))
    ensures
        r.0 == REQUEST_TIMEOUT,
        r.1.code == REQUEST_TIMEOUT,
        r.1.reason matches Some(p) && p@ == "Request Timeout"@,
        r.1.message@ == "Request took longer than "@ + budget_text@,
{
    let mut message = String::from_str("Request took longer than ");
    message.append(budget_text.as_str());
    (REQUEST_TIMEOUT, error_message(REQUEST_TIMEOUT, message))
}

/// The error answer for any other failure, given its display text.
pub fn internal_error(details: String) -> (r: (u16, ErrorMessage))
    ensures
        r.0 == INTERNAL_SERVER_ERROR,
        r.1.code == INTERNAL_SERVER_ERROR,
        r.1.reason matches Some(p) && p@ == "Internal Server Error"@,
        r.1.message@ == internal_message(details@),
{
    let mut message = String::from_str("Unhandled internal error: ");
    message.append(details.as_str());
    (INTERNAL_SERVER_ERROR, error_message(INTERNAL_SERVER_ERROR, message))
}

/// Turns a failure that escaped the handler into a status and an error body:
/// an elapsed budget of `budget_millis` becomes 408, anything else 500.
pub fn handle_timeout_error(err: Failure, budget_millis: u64) -> (r: (u16, ErrorMessage))
    ensures
        r.0 == failure_status(err),
        r.1.code == r.0,
        r.1.reason matches Some(p) && p@ == reason_phrase(r.0),
        r.1.message@ == failure_message(err, budget_millis),
{
    match err {
        Failure::Elapsed => timeout_error(duration_text(budget_millis)),
        Failure::Internal(details) => internal_error(details),
    }
}

} // verus!

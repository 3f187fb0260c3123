//! How the Open Cloud v2 APIs report a failed request.
use crate::error::{is_status_error, Error};
use crate::http::{is_success, is_success_code};
use vstd::prelude::*;
use vstd::string::*;

verus! {

/// The message of a failed v2 request with status `code`.
pub open spec fn v2_message(code: u16) -> Seq<char> {
    if code == 400 {
        "invalid argument"@
    } else if code == 403 {
        "permission denied"@
    } else if code == 404 {
        "not found"@
    } else if code == 409 {
        "aborted"@
    } else if code == 429 {
        "resource exhausted"@
    } else if code == 499 {
        "cancelled"@
    } else if code == 500 {
        "internal server error"@
    } else if code == 501 {
        "not implemented"@
    } else if code == 503 {
        "unavailable"@
    } else {
        "unknown error"@
    }
}

/// The failure of a v2 request with status `code`: an HTTP status error
/// that carries the code and the message of its status.
pub fn handle_http_err<T>(code: u16) -> (r: Result<T, Error>)
    ensures
        r matches Err(e) && is_status_error(e, code, v2_message(code)),
{
    let msg = if code == 400 {
        "invalid argument"
    } else if code == 403 {
        "permission denied"
    } else if code == 404 {
        "not found"
    } else if code == 409 {
        "aborted"
    } else if code == 429 {
        "resource exhausted"
    } else if code == 499 {
        "cancelled"
    } else if code == 500 {
        "internal server error"
    } else if code == 501 {
        "not implemented"
    } else if code == 503 {
        "unavailable"
    } else {
        "unknown error"
    };
    Err(Error::HttpStatusError { code, msg: String::from_str(msg) })
}

/// Classifies a v2 response: a 2xx status hands back the body, any other
/// the failure of its status.
pub fn handle_res(status: u16, body: String) -> (r: Result<String, Error>)
    ensures
        is_success_code(status) ==> r == Ok::<String, Error>(body),
        !is_success_code(status) ==> (r matches Err(e) && is_status_error(e, status, v2_message(status))),
{
    if is_success(status) {
        Ok(body)
    } else {
        handle_http_err(status)
    }
}

/// Classifies a v2 response of an operation with no result.
pub fn handle_res_ok(status: u16) -> (r: Result<(), Error>)
    ensures
        is_success_code(status) <==> r is Ok,
        !is_success_code(status) ==> (r matches Err(e) && is_status_error(e, status, v2_message(status))),
{
    if is_success(status) {
        Ok(())
    } else {
        handle_http_err(status)
    }
}

} // verus!

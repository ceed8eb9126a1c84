use crate::error::Error;
use crate::model::{empty_response, ErrorResponse, Response};
use vstd::prelude::*;

verus! {

/// Message of an error object that carries none.
pub const UNKNOWN_ERROR: &'static str = "Unknown error";

/// Message of a failure that the body reports without an error object.
pub const NO_SPECIFIC_ERROR: &'static str = "operation failed without a specific error";

/// A 2xx HTTP status.
pub open spec fn is_success_status(status: u16) -> bool {
    200 <= status < 300
}

/// The message of an error object, `"Unknown error"` where it has none.
pub open spec fn message_text(message: Option<String>) -> Seq<char> {
    match message {
        Some(m) => m@,
        None => UNKNOWN_ERROR@,
    }
}

/// The code of an error object, 0 where it has none.
pub open spec fn code_number(code: Option<u16>) -> u16 {
    match code {
        Some(c) => c,
        None => 0,
    }
}

/// `e` is an unclassified provider error with this message, status and code.
pub open spec fn is_provider_error(e: Error, message: Seq<char>, status: u16, code: Option<u16>) -> bool {
    match e {
        Error::ApiError { message: m, status: s, code: c } => m@ == message && s == Some(status)
            && c == code,
        _ => false,
    }
}

/// `e` is the error that a provider error object with `code` and `message`
/// stands for, in a response with HTTP status `status`.
pub open spec fn is_code_error(e: Error, code: u16, message: Seq<char>, status: u16) -> bool {
    if code == 100 {
        e is InvalidApiKey
    } else if code == 120 {
        e is InvalidBase64Data
    } else if code == 400 {
        match e {
            Error::InvalidParameters(m) => m@ == message,
            _ => false,
        }
    } else if code == 429 {
        e is RateLimitExceeded
    } else {
        is_provider_error(e, message, status, Some(code))
    }
}

/// What a response is accepted as: `Some` of the successful result, or `None`
/// where the response reports a failure. `parsed` is the body as parsed, or
/// `None` where it could not be parsed.
///
/// An error object always means failure, whatever the success flag says; with
/// no error object only an explicit `success: false` does.
pub open spec fn accepted(status: u16, parsed: Option<Response>) -> Option<Response> {
    match parsed {
        None => if is_success_status(status) {
            Some(empty_response())
        } else {
            None
        },
        Some(r) => if r.error is Some || r.success == Some(false) {
            None
        } else {
            Some(r)
        },
    }
}

/// `e` is the error reported for a response that is not accepted, given the
/// HTTP status, the raw body text and the body as parsed.
pub open spec fn is_failure(status: u16, body: Seq<char>, parsed: Option<Response>, e: Error) -> bool {
    match parsed {
        None => is_provider_error(e, body, status, None),
        Some(r) => match r.error {
            Some(eo) => is_code_error(e, code_number(eo.code), message_text(eo.message), status),
            None => is_provider_error(e, NO_SPECIFIC_ERROR@, status, None),
        },
    }
}

/// The error for a provider error code and message.
pub fn error_for_code(code: u16, message: String, status: u16) -> (e: Error)
    ensures
        is_code_error(e, code, message@, status),
{
    if code == 100 {
        Error::InvalidApiKey
    } else if code == 120 {
        Error::InvalidBase64Data
    } else if code == 400 {
        Error::InvalidParameters(message)
    } else if code == 429 {
        Error::RateLimitExceeded
    } else {
        Error::ApiError { message, status: Some(status), code: Some(code) }
    }
}

/// The error for an error object of a response with HTTP status `status`.
pub fn error_for_object(error: ErrorResponse, status: u16) -> (e: Error)
    ensures
        is_code_error(e, code_number(error.code), message_text(error.message), status),
{
    let code = match error.code {
        Some(c) => c,
        None => 0,
    };
    let message = match error.message {
        Some(m) => m,
        None => UNKNOWN_ERROR.to_owned(),
    };
    error_for_code(code, message, status)
}

/// Interprets the response to an upload: the HTTP status, the raw body text,
/// and the body as parsed (`None` where it is not a valid response object).
pub fn classify_upload(status: u16, body: &str, parsed: Option<Response>) -> (r: Result<
    Response,
    Error,
>)
    ensures
        match accepted(status, parsed) {
            Some(ok) => r == Ok::<Response, Error>(ok),
            None => r matches Err(e) && is_failure(status, body@, parsed, e),
        },
{
    match parsed {
        None => {
            if 200 <= status && status < 300 {
                Ok(Response::empty())
            } else {
                Err(Error::ApiError { message: body.to_owned(), status: Some(status), code: None })
            }
        },
        Some(response) => {
            let failed = match response.success {
                Some(flag) => !flag,
                None => false,
            };
            match response.error {
                Some(error) => Err(error_for_object(error, status)),
                None => {
                    if failed {
                        Err(
                            Error::ApiError {
                                message: NO_SPECIFIC_ERROR.to_owned(),
                                status: Some(status),
                                code: None,
                            },
                        )
                    } else {
                        Ok(response)
                    }
                },
            }
        },
    }
}

/// Interprets the response to a delete in the same way as an upload; a
/// successful delete carries no data.
pub fn classify_delete(status: u16, body: &str, parsed: Option<Response>) -> (r: Result<(), Error>)
    ensures
        r is Ok <==> accepted(status, parsed) is Some,
        r matches Err(e) ==> is_failure(status, body@, parsed, e),
{
    match classify_upload(status, body, parsed) {
        Ok(_) => Ok(()),
        Err(e) => Err(e),
    }
}

/// An error object in the body makes the response a failure whatever the
/// success flag says, `success: true` included, and the error reported is
/// the one that the object's code and message stand for.
pub proof fn lemma_error_object_wins(status: u16, body: Seq<char>, response: Response, e: Error)
    requires
        response.error is Some,
    ensures
        accepted(status, Some(response)) is None,
        is_failure(status, body, Some(response), e) <==> is_code_error(
            e,
            code_number(response.error.unwrap().code),
            message_text(response.error.unwrap().message),
            status,
        ),
{
}

/// Provider codes map to error kinds: 100 to an invalid API key, 429 to a
/// rate limit, 400 to invalid parameters with the provider's message, and
/// any other non-zero code but 120 to an unclassified provider error that
/// keeps that code, the message and the HTTP status.
pub proof fn lemma_code_mapping(status: u16, body: Seq<char>, response: Response, e: Error)
    requires
        response.error matches Some(eo) && eo.code is Some,
        is_failure(status, body, Some(response), e),
    ensures
        ({
            let eo = response.error.unwrap();
            let code = eo.code.unwrap();
            let message = message_text(eo.message);
            &&& code == 100 ==> e is InvalidApiKey
            &&& code == 429 ==> e is RateLimitExceeded
            &&& code == 400 ==> (e matches Error::InvalidParameters(m) && m@ == message)
            &&& (code != 0 && code != 100 && code != 120 && code != 400 && code != 429)
                ==> is_provider_error(e, message, status, Some(code))
        }),
{
}

/// A body that cannot be parsed is an empty success under a 2xx status, and
/// otherwise a provider error whose message is the raw body text, with the
/// HTTP status and no code.
pub proof fn lemma_unparsable_body(status: u16, body: Seq<char>, e: Error)
    ensures
        is_success_status(status) ==> accepted(status, None) == Some(empty_response()),
        !is_success_status(status) ==> accepted(status, None) is None,
        is_failure(status, body, None, e) <==> is_provider_error(e, body, status, None),
{
}

} // verus!

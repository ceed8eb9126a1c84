use reqwest::Error as HttpError;
use vstd::prelude::*;

verus! {

/// `std::io::Error`, carried opaquely by [`Error::IOError`].
#[verifier::external_type_specification]
#[verifier::external_body]
pub struct ExIoError(std::io::Error);

/// `reqwest::Error`, carried opaquely by [`Error::ReqwestError`].
#[verifier::external_type_specification]
#[verifier::external_body]
pub struct ExHttpError(HttpError);

/// Everything that can go wrong when talking to the ImgBB API.
#[derive(Debug)]
pub enum Error {
    /// Reading local data failed
    IOError(std::io::Error),
    /// The HTTP layer failed (connection, timeout, TLS, building the client)
    ReqwestError(HttpError),
    /// A provider error that no more specific variant describes
    ApiError { message: String, status: Option<u16>, code: Option<u16> },
    /// A required field was not set
    MissingField(String),
    /// The API key was rejected
    InvalidApiKey,
    /// The payload is not valid base64
    InvalidBase64Data,
    /// The image exceeds the size limit
    ImageTooLarge,
    /// The image format is not supported
    UnsupportedFormat,
    /// The request timed out
    Timeout,
    /// Too many requests were made
    RateLimitExceeded,
    /// Parameters were invalid or missing
    InvalidParameters(String),
}

impl From<std::io::Error> for Error {
    fn from(e: std::io::Error) -> (r: Error)
        ensures
            r == Error::IOError(e),
    {
        Error::IOError(e)
    }
}

impl vstd::std_specs::convert::FromSpecImpl<std::io::Error> for Error {
    open spec fn obeys_from_spec() -> bool {
        true
    }

    open spec fn from_spec(e: std::io::Error) -> Error {
        Error::IOError(e)
    }
}

impl From<HttpError> for Error {
    fn from(e: HttpError) -> (r: Error)
        ensures
            r == Error::ReqwestError(e),
    {
        Error::ReqwestError(e)
    }
}

impl vstd::std_specs::convert::FromSpecImpl<HttpError> for Error {
    open spec fn obeys_from_spec() -> bool {
        true
    }

    open spec fn from_spec(e: HttpError) -> Error {
        Error::ReqwestError(e)
    }
}

} // verus!

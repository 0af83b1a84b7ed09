//! The failures a transport call can report.
use vstd::prelude::*;

verus! {

/// Error that can happen during a request.
#[derive(Debug, Clone)]
pub enum Error {
    /// Invalid URL, for the target or for a redirect location.
    Url(String),
    /// Error during the HTTP exchange, networking and protocol errors included.
    Http(String),
    /// Server returned a status code that is neither success nor a followable redirect.
    RequestFailure {
        /// Status code returned by the server.
        status_code: u16,
    },
    /// Request body too large.
    RequestTooLarge,
    /// Malformed response body.
    Malformed,
    /// Invalid certificate store.
    InvalidCertficateStore,
    /// Too many redirects.
    TooManyRedirects,
}

/// What kind of failure an error is, without its text.
#[derive(Debug, Clone, Copy, PartialEq, Eq, Structural)]
pub enum ErrorKind {
    /// See [`Error::Url`].
    Url,
    /// See [`Error::Http`].
    Http,
    /// See [`Error::RequestFailure`], with its status code.
    RequestFailure(u16),
    /// See [`Error::RequestTooLarge`].
    RequestTooLarge,
    /// See [`Error::Malformed`].
    Malformed,
    /// See [`Error::InvalidCertficateStore`].
    InvalidCertficateStore,
    /// See [`Error::TooManyRedirects`].
    TooManyRedirects,
}

impl Error {
    /// The kind of this error.
    pub open spec fn kind(&self) -> ErrorKind {
        match self {
            Error::Url(_) => ErrorKind::Url,
            Error::Http(_) => ErrorKind::Http,
            Error::RequestFailure { status_code } => ErrorKind::RequestFailure(*status_code),
            Error::RequestTooLarge => ErrorKind::RequestTooLarge,
            Error::Malformed => ErrorKind::Malformed,
            Error::InvalidCertficateStore => ErrorKind::InvalidCertficateStore,
            Error::TooManyRedirects => ErrorKind::TooManyRedirects,
        }
    }
}

/// Failure while reading a response body within its size limit.
#[derive(Debug, Clone)]
pub enum ReadError {
    /// The body was larger than the limit.
    TooLarge,
    /// The body was not a JSON object or array.
    Malformed,
    /// The body stream failed; the text describes how.
    Stream(String),
}

/// The error that a body-read failure is reported as.
pub open spec fn error_of_read(e: ReadError) -> Error {
    match e {
        ReadError::TooLarge => Error::RequestTooLarge,
        ReadError::Malformed => Error::Malformed,
        ReadError::Stream(m) => Error::Http(m),
    }
}

impl From<ReadError> for Error {
    fn from(err: ReadError) -> Error {
        match err {
            ReadError::TooLarge => Error::RequestTooLarge,
            ReadError::Malformed => Error::Malformed,
            ReadError::Stream(m) => Error::Http(m),
        }
    }
}

impl vstd::std_specs::convert::FromSpecImpl<ReadError> for Error {
    open spec fn obeys_from_spec() -> bool {
        true
    }

    open spec fn from_spec(v: ReadError) -> Error {
        error_of_read(v)
    }
}

} // verus!
